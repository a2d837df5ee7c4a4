//! What the controller is asked to show and feel: an effect block for each
//! trigger and a lightbar colour, and how they are written into a report.

use vstd::prelude::*;
use crate::report::{lemma_wire_layout, DualSenseReport};

pub mod led;
pub mod trigger;

verus! {

/// The state that the controller is to take: both triggers' effects and the
/// lightbar colour.
#[derive(Debug)]
pub struct ControllerEffect {
    pub triggers: trigger::TriggerEffect,
    pub led: led::LedEffect,
}

impl Clone for ControllerEffect {
    fn clone(&self) -> (copy: Self)
        ensures
            copy == *self,
    {
        Self { triggers: self.triggers.clone(), led: self.led }
    }
}

impl ControllerEffect {
    /// The effect with the encoding of `mode` on both triggers and the colour
    /// `led`.
    pub open spec fn shared_trigger(
        mode: trigger::TriggerMode,
        led: led::LedEffect,
    ) -> ControllerEffect {
        ControllerEffect { triggers: trigger::TriggerEffect::shared(mode), led }
    }

    /// The effect with the encoding of `l2` on the left trigger, that of `r2`
    /// on the right, and the colour `led`.
    pub open spec fn split_trigger(
        l2: trigger::TriggerMode,
        r2: trigger::TriggerMode,
        led: led::LedEffect,
    ) -> ControllerEffect {
        ControllerEffect { triggers: trigger::TriggerEffect::split(l2, r2), led }
    }

    /// The report `report` with this effect written into it: the two trigger
    /// blocks and the three lightbar bytes are this effect's, every other
    /// field is `report`'s.
    pub open spec fn stamped(&self, report: DualSenseReport) -> DualSenseReport {
        DualSenseReport {
            l2_effect: self.triggers.l2,
            r2_effect: self.triggers.r2,
            lightbar_red: self.led.red,
            lightbar_green: self.led.green,
            lightbar_blue: self.led.blue,
            ..report
        }
    }

    /// The same trigger mode on both sides, with a lightbar colour.
    pub fn new_shared_trigger(mode: trigger::TriggerMode, led: led::LedEffect) -> (effect: Self)
        ensures
            effect == Self::shared_trigger(mode, led),
    {
        Self { triggers: trigger::TriggerEffect::new_shared(mode), led }
    }

    /// A trigger mode for each side, with a lightbar colour.
    pub fn new_split_trigger(
        l2: trigger::TriggerMode,
        r2: trigger::TriggerMode,
        led: led::LedEffect,
    ) -> (effect: Self)
        ensures
            effect == Self::split_trigger(l2, r2, led),
    {
        Self { triggers: trigger::TriggerEffect::new_split(l2, r2), led }
    }

    /// Writes the effect into `report`: the two trigger blocks and the
    /// lightbar. The identifier, the flags, the enable bits, the rumble bytes
    /// and the reserved regions stay as they are.
    pub fn apply_to_report(&self, report: &mut DualSenseReport)
        ensures
            *final(report) == self.stamped(*old(report)),
            final(report).l2_effect == self.triggers.l2,
            final(report).r2_effect == self.triggers.r2,
            final(report).lightbar_red == self.led.red,
            final(report).lightbar_green == self.led.green,
            final(report).lightbar_blue == self.led.blue,
            final(report).report_id == old(report).report_id,
            final(report).flags == old(report).flags,
            final(report).enable_bits == old(report).enable_bits,
            final(report).rumble_right == old(report).rumble_right,
            final(report).rumble_left == old(report).rumble_left,
            final(report).reserved0 == old(report).reserved0,
            final(report).reserved1 == old(report).reserved1,
            final(report).reserved2 == old(report).reserved2,
            final(report).reserved3 == old(report).reserved3,
    {
        report.l2_effect = self.triggers.l2;
        report.r2_effect = self.triggers.r2;
        report.lightbar_red = self.led.red;
        report.lightbar_green = self.led.green;
        report.lightbar_blue = self.led.blue;
    }
}

/// An effect made with one mode for both triggers puts that mode's encoding
/// into both trigger blocks of whatever report it is applied to.
pub proof fn lemma_shared_mode_reaches_both_triggers(
    mode: trigger::TriggerMode,
    led: led::LedEffect,
    report: DualSenseReport,
)
    ensures
        ControllerEffect::shared_trigger(mode, led).stamped(report).l2_effect
            == trigger::effect_block(mode),
        ControllerEffect::shared_trigger(mode, led).stamped(report).r2_effect
            == trigger::effect_block(mode),
{
}

/// An effect made with a mode for each trigger puts the left mode's encoding
/// into the left block and the right mode's into the right block: the sides
/// are not mixed up.
pub proof fn lemma_split_modes_keep_their_sides(
    l2: trigger::TriggerMode,
    r2: trigger::TriggerMode,
    led: led::LedEffect,
    report: DualSenseReport,
)
    ensures
        ControllerEffect::split_trigger(l2, r2, led).stamped(report).l2_effect
            == trigger::effect_block(l2),
        ControllerEffect::split_trigger(l2, r2, led).stamped(report).r2_effect
            == trigger::effect_block(r2),
{
}

/// Applying an effect leaves the identifier, the flags, the enable bits, the
/// rumble bytes and the reserved regions as they were, so reserved regions
/// that were zero stay zero.
pub proof fn lemma_stamping_keeps_the_rest(effect: ControllerEffect, report: DualSenseReport)
    ensures
        effect.stamped(report).report_id == report.report_id,
        effect.stamped(report).flags == report.flags,
        effect.stamped(report).enable_bits == report.enable_bits,
        effect.stamped(report).rumble_right == report.rumble_right,
        effect.stamped(report).rumble_left == report.rumble_left,
        effect.stamped(report).reserved0 == report.reserved0,
        effect.stamped(report).reserved1 == report.reserved1,
        effect.stamped(report).reserved2 == report.reserved2,
        effect.stamped(report).reserved3 == report.reserved3,
        report.reserved_is_zero() ==> effect.stamped(report).reserved_is_zero(),
{
}

/// What reaches the wire after an effect is applied: the left block at
/// offsets 11 to 19, the right block at 22 to 30, the colour at 6 to 8, and
/// at every other offset the byte that the report had before.
pub proof fn lemma_stamped_wire(effect: ControllerEffect, report: DualSenseReport)
    ensures
        effect.stamped(report).wire().len() == 78,
        effect.stamped(report).wire().subrange(11, 20) == effect.triggers.l2@,
        effect.stamped(report).wire().subrange(22, 31) == effect.triggers.r2@,
        effect.stamped(report).wire()[6] == effect.led.red,
        effect.stamped(report).wire()[7] == effect.led.green,
        effect.stamped(report).wire()[8] == effect.led.blue,
        forall|i: int|
            (0 <= i < 6 || 9 <= i < 11 || 20 <= i < 22 || 31 <= i < 78)
                ==> #[trigger] effect.stamped(report).wire()[i] == report.wire()[i],
{
    lemma_wire_layout(effect.stamped(report));
}

} // verus!
