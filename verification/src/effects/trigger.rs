//! Adaptive-trigger modes and their nine-byte firmware encoding.

use vstd::prelude::*;

verus! {

/// Resistance profile of one adaptive trigger. Every byte value is accepted
/// and handed to the firmware as it is.
#[derive(Copy, Clone, Debug)]
pub enum TriggerMode {
    /// No resistance.
    Off,
    /// Constant resistance of magnitude `force` from travel position `start` on.
    Rigid { start: u8, force: u8 },
    /// Pulsed resistance of magnitude `force` from travel position `start` on.
    Pulse { start: u8, force: u8 },
    /// Resistance that ramps between the travel positions `start` and `end`.
    Slope { start: u8, end: u8 },
}

/// The encoded blocks of both triggers: `l2` for the left, `r2` for the right.
#[derive(Debug)]
pub struct TriggerEffect {
    pub l2: [u8; 9],
    pub r2: [u8; 9],
}

/// The firmware's encoding of a trigger mode: a class marker (0 for off, 1
/// for a parametric effect), the effect's sub-type, its parameters, and zero
/// padding up to nine bytes.
pub open spec fn effect_block(mode: TriggerMode) -> [u8; 9] {
    match mode {
        TriggerMode::Off => [0u8, 0u8, 0u8, 0u8, 0u8, 0u8, 0u8, 0u8, 0u8],
        TriggerMode::Rigid { start, force } => [
            0x01u8, 0x01u8, start, force, 0u8, 0u8, 0u8, 0u8, 0u8
        ],
        TriggerMode::Pulse { start, force } => [
            0x01u8, 0x02u8, start, force, 0u8, 0u8, 0u8, 0u8, 0u8
        ],
        TriggerMode::Slope { start, end } => [
            0x01u8, 0x26u8, start, end, 0xFFu8, 0u8, 0u8, 0u8, 0u8
        ],
    }
}

/// Encodes a trigger mode. Total: every mode and every parameter value gives
/// exactly one block.
pub fn build_effect(mode: TriggerMode) -> (block: [u8; 9])
    ensures
        block == effect_block(mode),
{
    let block: [u8; 9] = match mode {
        TriggerMode::Off => [0u8; 9],
        TriggerMode::Rigid { start, force } => [0x01, 0x01, start, force, 0, 0, 0, 0, 0],
        TriggerMode::Pulse { start, force } => [0x01, 0x02, start, force, 0, 0, 0, 0, 0],
        TriggerMode::Slope { start, end } => [0x01, 0x26, start, end, 0xFF, 0, 0, 0, 0],
    };
    assert(block =~= effect_block(mode));
    block
}

impl Clone for TriggerEffect {
    fn clone(&self) -> (copy: Self)
        ensures
            copy == *self,
    {
        Self { l2: self.l2, r2: self.r2 }
    }
}

impl TriggerEffect {
    /// The encoding of `mode` on both triggers.
    pub open spec fn shared(mode: TriggerMode) -> TriggerEffect {
        TriggerEffect { l2: effect_block(mode), r2: effect_block(mode) }
    }

    /// The encoding of `l2_mode` on the left trigger and of `r2_mode` on the
    /// right.
    pub open spec fn split(l2_mode: TriggerMode, r2_mode: TriggerMode) -> TriggerEffect {
        TriggerEffect { l2: effect_block(l2_mode), r2: effect_block(r2_mode) }
    }

    /// The same mode on both triggers.
    pub fn new_shared(mode: TriggerMode) -> (effect: Self)
        ensures
            effect == Self::shared(mode),
    {
        let effect = build_effect(mode);
        Self { l2: effect, r2: effect }
    }

    /// A mode of its own for each trigger.
    pub fn new_split(l2_mode: TriggerMode, r2_mode: TriggerMode) -> (effect: Self)
        ensures
            effect == Self::split(l2_mode, r2_mode),
    {
        Self { l2: build_effect(l2_mode), r2: build_effect(r2_mode) }
    }
}

/// The bytes of each mode's block, written out: the marker, the sub-type,
/// the parameters as they were given, and the padding.
pub proof fn lemma_effect_block_bytes(mode: TriggerMode)
    ensures
        effect_block(mode)@.len() == 9,
        mode is Off ==> effect_block(mode)@ == seq![0u8, 0u8, 0u8, 0u8, 0u8, 0u8, 0u8, 0u8, 0u8],
        mode matches TriggerMode::Rigid { start, force } ==> effect_block(mode)@ == seq![
            0x01u8, 0x01u8, start, force, 0u8, 0u8, 0u8, 0u8, 0u8
        ],
        mode matches TriggerMode::Pulse { start, force } ==> effect_block(mode)@ == seq![
            0x01u8, 0x02u8, start, force, 0u8, 0u8, 0u8, 0u8, 0u8
        ],
        mode matches TriggerMode::Slope { start, end } ==> effect_block(mode)@ == seq![
            0x01u8, 0x26u8, start, end, 0xFFu8, 0u8, 0u8, 0u8, 0u8
        ],
{
    match mode {
        TriggerMode::Off => {
            assert(effect_block(mode)@ =~= seq![0u8, 0u8, 0u8, 0u8, 0u8, 0u8, 0u8, 0u8, 0u8]);
        },
        TriggerMode::Rigid { start, force } => {
            assert(effect_block(mode)@ =~= seq![
                0x01u8, 0x01u8, start, force, 0u8, 0u8, 0u8, 0u8, 0u8
            ]);
        },
        TriggerMode::Pulse { start, force } => {
            assert(effect_block(mode)@ =~= seq![
                0x01u8, 0x02u8, start, force, 0u8, 0u8, 0u8, 0u8, 0u8
            ]);
        },
        TriggerMode::Slope { start, end } => {
            assert(effect_block(mode)@ =~= seq![
                0x01u8, 0x26u8, start, end, 0xFFu8, 0u8, 0u8, 0u8, 0u8
            ]);
        },
    }
}

/// Encoding is a function of the mode: two encodings of equal modes are the
/// same nine bytes.
pub proof fn lemma_encoding_is_deterministic(
    first: TriggerMode,
    second: TriggerMode,
    first_block: [u8; 9],
    second_block: [u8; 9],
)
    requires
        first == second,
        first_block == effect_block(first),
        second_block == effect_block(second),
    ensures
        first_block == second_block,
        first_block@ == second_block@,
        first_block@.len() == 9,
{
}

/// Encoding loses nothing: modes with the same block are the same mode.
pub proof fn lemma_encoding_is_injective(first: TriggerMode, second: TriggerMode)
    requires
        effect_block(first) == effect_block(second),
    ensures
        first == second,
{
    let a = effect_block(first);
    let b = effect_block(second);
    assert(a@[0] == b@[0]);
    assert(a@[1] == b@[1]);
    assert(a@[2] == b@[2]);
    assert(a@[3] == b@[3]);
}

} // verus!
