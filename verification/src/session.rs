//! A send session: which device is the controller, what the user asked for,
//! the report that is resent while the session runs and the one that ends it.
//! Finding the devices, writing to them and waiting are the caller's part.

use vstd::prelude::*;
use crate::effects::trigger::TriggerMode;
use crate::effects::ControllerEffect;
use crate::report::{zeros, DualSenseReport, REPORT_ID};

verus! {

/// USB vendor identifier of the controller.
pub const VENDOR_ID: u16 = 0x054c;

/// USB product identifier of the controller.
pub const PRODUCT_ID: u16 = 0x0ce6;

/// How often the active report is written: the firmware drops an effect that
/// is not refreshed.
pub const RESEND_COUNT: u32 = 40;

/// Milliseconds between two writes of the active report.
pub const RESEND_INTERVAL_MS: u64 = 250;

/// `flags` of an active report: every feature enabled.
pub const ALL_FEATURES: u8 = 0xFF;

/// `enable_bits` of an active report.
pub const ACTIVE_ENABLE_BITS: u8 = 0x07;

/// Intensity of both motors while a session runs.
pub const ACTIVE_RUMBLE: u8 = 0x40;

/// Travel position used where none is given.
pub const DEFAULT_START: u8 = 0x40;

/// Force used where none is given.
pub const DEFAULT_FORCE: u8 = 0xFF;

/// End position used where none is given.
pub const DEFAULT_END: u8 = 0xFF;

/// The kind of trigger effect, without its parameters.
#[derive(Copy, Clone, Debug, PartialEq, Eq, Structural)]
pub enum TriggerEffectMode {
    Off,
    Rigid,
    Pulse,
    Slope,
}

impl Default for TriggerEffectMode {
    fn default() -> (mode: Self)
        ensures
            mode == TriggerEffectMode::Off,
    {
        TriggerEffectMode::Off
    }
}

/// What one source (the command line, a configuration file) says of the
/// effect. Every part may be missing.
#[derive(Copy, Clone, Debug)]
pub struct Settings {
    pub mode: Option<TriggerEffectMode>,
    pub start: Option<u8>,
    pub force: Option<u8>,
    pub end: Option<u8>,
}

/// The effect that was asked for, every part decided.
#[derive(Copy, Clone, Debug)]
pub struct Intent {
    pub mode: TriggerEffectMode,
    pub start: u8,
    pub force: u8,
    pub end: u8,
}

/// Whether a device with these identifiers is the controller.
pub open spec fn is_dualsense(vendor_id: u16, product_id: u16) -> bool {
    vendor_id == VENDOR_ID && product_id == PRODUCT_ID
}

/// `first` where it is given, else `second` where it is given, else
/// `fallback`.
pub open spec fn first_given<T>(first: Option<T>, second: Option<T>, fallback: T) -> T {
    match (first, second) {
        (Some(value), _) => value,
        (None, Some(value)) => value,
        (None, None) => fallback,
    }
}

/// What a configuration file says where there is one, and nothing where
/// there is none.
pub open spec fn file_settings(config: Option<Settings>) -> Settings {
    match config {
        Some(settings) => settings,
        None => Settings { mode: None, start: None, force: None, end: None },
    }
}

/// The intent that the command line and the configuration file give
/// together: for each part the command line's value, else the file's, else
/// the default (a rigid trigger from position 0x40 at full force).
pub open spec fn resolved(args: Settings, config: Option<Settings>) -> Intent {
    let file = file_settings(config);
    Intent {
        mode: first_given(args.mode, file.mode, TriggerEffectMode::Rigid),
        start: first_given(args.start, file.start, DEFAULT_START),
        force: first_given(args.force, file.force, DEFAULT_FORCE),
        end: first_given(args.end, file.end, DEFAULT_END),
    }
}

/// The first of `devices`, given as pairs of vendor and product identifier,
/// that is the controller.
pub fn find_dualsense(devices: &Vec<(u16, u16)>) -> (found: Option<usize>)
    ensures
        match found {
            Some(at) => {
                &&& at < devices@.len()
                &&& is_dualsense(devices@[at as int].0, devices@[at as int].1)
                &&& forall|j: int|
                    0 <= j < at ==> !is_dualsense(
                        (#[trigger] devices@[j]).0,
                        devices@[j].1,
                    )
            },
            None => forall|j: int|
                0 <= j < devices@.len() ==> !is_dualsense(
                    (#[trigger] devices@[j]).0,
                    devices@[j].1,
                ),
        },
{
    let mut at: usize = 0;
    while at < devices.len()
        invariant
            at <= devices@.len(),
            forall|j: int|
                0 <= j < at ==> !is_dualsense((#[trigger] devices@[j]).0, devices@[j].1),
        decreases devices@.len() - at,
    {
        let (vendor_id, product_id) = devices[at];
        if vendor_id == VENDOR_ID && product_id == PRODUCT_ID {
            return Some(at);
        }
        at += 1;
    }
    None
}

/// Decides each part of the effect from the command line, the configuration
/// file and the defaults, in that order.
pub fn resolve(args: &Settings, config: &Option<Settings>) -> (intent: Intent)
    ensures
        intent == resolved(*args, *config),
{
    let file = match config {
        Some(settings) => *settings,
        None => Settings { mode: None, start: None, force: None, end: None },
    };
    Intent {
        mode: pick(args.mode, file.mode, TriggerEffectMode::Rigid),
        start: pick(args.start, file.start, DEFAULT_START),
        force: pick(args.force, file.force, DEFAULT_FORCE),
        end: pick(args.end, file.end, DEFAULT_END),
    }
}

fn pick<T: Copy>(first: Option<T>, second: Option<T>, fallback: T) -> (value: T)
    ensures
        value == first_given(first, second, fallback),
{
    match first {
        Some(value) => value,
        None => match second {
            Some(value) => value,
            None => fallback,
        },
    }
}

impl Intent {
    /// The trigger mode of this intent: its kind with the parameters that the
    /// kind takes. `Off` takes none, `Rigid` and `Pulse` take `start` and
    /// `force`, `Slope` takes `start` and `end`.
    pub open spec fn mode_of(self) -> TriggerMode {
        match self.mode {
            TriggerEffectMode::Off => TriggerMode::Off,
            TriggerEffectMode::Rigid => TriggerMode::Rigid { start: self.start, force: self.force },
            TriggerEffectMode::Pulse => TriggerMode::Pulse { start: self.start, force: self.force },
            TriggerEffectMode::Slope => TriggerMode::Slope { start: self.start, end: self.end },
        }
    }

    /// The trigger mode of this intent.
    pub fn trigger_mode(&self) -> (mode: TriggerMode)
        ensures
            mode == self.mode_of(),
    {
        match self.mode {
            TriggerEffectMode::Off => TriggerMode::Off,
            TriggerEffectMode::Rigid => TriggerMode::Rigid { start: self.start, force: self.force },
            TriggerEffectMode::Pulse => TriggerMode::Pulse { start: self.start, force: self.force },
            TriggerEffectMode::Slope => TriggerMode::Slope { start: self.start, end: self.end },
        }
    }
}

/// The report that is resent while a session runs: a fresh report with every
/// feature enabled, both motors at the session's intensity, and `effect`
/// applied.
pub fn active_report(effect: &ControllerEffect) -> (report: DualSenseReport)
    ensures
        report.report_id == REPORT_ID,
        report.flags == ALL_FEATURES,
        report.enable_bits == ACTIVE_ENABLE_BITS,
        report.rumble_right == ACTIVE_RUMBLE,
        report.rumble_left == ACTIVE_RUMBLE,
        report.lightbar_red == effect.led.red,
        report.lightbar_green == effect.led.green,
        report.lightbar_blue == effect.led.blue,
        report.l2_effect == effect.triggers.l2,
        report.r2_effect == effect.triggers.r2,
        report.reserved_is_zero(),
{
    let mut report = DualSenseReport::default();
    report.report_id = REPORT_ID;
    report.flags = ALL_FEATURES;
    report.enable_bits = ACTIVE_ENABLE_BITS;
    report.rumble_left = ACTIVE_RUMBLE;
    report.rumble_right = ACTIVE_RUMBLE;
    effect.apply_to_report(&mut report);
    report
}

/// Turns `report` into the one that ends a session: the triggers released and
/// both motors still. The identifier, the flags, the enable bits, the
/// lightbar and the reserved regions stay as they are.
pub fn release(report: &mut DualSenseReport)
    ensures
        final(report).l2_effect@ == zeros(9),
        final(report).r2_effect@ == zeros(9),
        final(report).rumble_left == 0,
        final(report).rumble_right == 0,
        final(report).report_id == old(report).report_id,
        final(report).flags == old(report).flags,
        final(report).enable_bits == old(report).enable_bits,
        final(report).lightbar_red == old(report).lightbar_red,
        final(report).lightbar_green == old(report).lightbar_green,
        final(report).lightbar_blue == old(report).lightbar_blue,
        final(report).reserved0 == old(report).reserved0,
        final(report).reserved1 == old(report).reserved1,
        final(report).reserved2 == old(report).reserved2,
        final(report).reserved3 == old(report).reserved3,
{
    report.clear_triggers();
    report.rumble_left = 0;
    report.rumble_right = 0;
}

} // verus!
