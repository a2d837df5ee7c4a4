use dualsense::effects::led::LedEffect;
use dualsense::effects::trigger::{build_effect, TriggerEffect, TriggerMode};
use dualsense::effects::ControllerEffect;
use dualsense::report::DualSenseReport;

fn every_mode(start: u8, second: u8) -> [TriggerMode; 4] {
    [
        TriggerMode::Off,
        TriggerMode::Rigid { start, force: second },
        TriggerMode::Pulse { start, force: second },
        TriggerMode::Slope { start, end: second },
    ]
}

#[test]
fn off_is_nine_zero_bytes() {
    assert_eq!(build_effect(TriggerMode::Off), [0u8; 9]);
}

#[test]
fn rigid_block() {
    assert_eq!(
        build_effect(TriggerMode::Rigid { start: 0x40, force: 0xFF }),
        [0x01, 0x01, 0x40, 0xFF, 0, 0, 0, 0, 0]
    );
}

#[test]
fn pulse_block() {
    assert_eq!(
        build_effect(TriggerMode::Pulse { start: 0x10, force: 0x20 }),
        [0x01, 0x02, 0x10, 0x20, 0, 0, 0, 0, 0]
    );
}

#[test]
fn slope_block() {
    assert_eq!(
        build_effect(TriggerMode::Slope { start: 0x00, end: 0xFF }),
        [0x01, 0x26, 0x00, 0xFF, 0xFF, 0, 0, 0, 0]
    );
}

#[test]
fn slope_keeps_its_fixed_fifth_byte() {
    assert_eq!(
        build_effect(TriggerMode::Slope { start: 0x33, end: 0x00 }),
        [0x01, 0x26, 0x33, 0x00, 0xFF, 0, 0, 0, 0]
    );
}

#[test]
fn parameters_pass_through_unchanged() {
    let mut start: u16 = 0;
    while start <= 255 {
        let mut second: u16 = 0;
        while second <= 255 {
            let (a, b) = (start as u8, second as u8);
            assert_eq!(
                build_effect(TriggerMode::Rigid { start: a, force: b }),
                [1, 1, a, b, 0, 0, 0, 0, 0]
            );
            assert_eq!(
                build_effect(TriggerMode::Pulse { start: a, force: b }),
                [1, 2, a, b, 0, 0, 0, 0, 0]
            );
            assert_eq!(
                build_effect(TriggerMode::Slope { start: a, end: b }),
                [1, 0x26, a, b, 0xFF, 0, 0, 0, 0]
            );
            second += 17;
        }
        start += 15;
    }
}

#[test]
fn encoding_twice_gives_the_same_block() {
    for mode in every_mode(0x12, 0xE0) {
        assert_eq!(build_effect(mode), build_effect(mode));
    }
}

#[test]
fn different_modes_have_different_blocks() {
    let modes = every_mode(0, 0);
    for (i, a) in modes.iter().enumerate() {
        for (j, b) in modes.iter().enumerate() {
            if i != j {
                assert_ne!(build_effect(*a), build_effect(*b));
            }
        }
    }
}

#[test]
fn trigger_effect_shared_has_the_block_twice() {
    for mode in every_mode(7, 9) {
        let effect = TriggerEffect::new_shared(mode);
        assert_eq!(effect.l2, build_effect(mode));
        assert_eq!(effect.r2, build_effect(mode));
    }
}

#[test]
fn trigger_effect_split_has_a_block_per_side() {
    let effect = TriggerEffect::new_split(
        TriggerMode::Slope { start: 5, end: 6 },
        TriggerMode::Off,
    );
    assert_eq!(effect.l2, [1, 0x26, 5, 6, 0xFF, 0, 0, 0, 0]);
    assert_eq!(effect.r2, [0u8; 9]);
}

#[test]
fn led_constructors() {
    let led = LedEffect::new(1, 2, 3);
    assert_eq!((led.red, led.green, led.blue), (1, 2, 3));
    let purple = LedEffect::purple();
    assert_eq!((purple.red, purple.green, purple.blue), (128, 0, 128));
    let off = LedEffect::off();
    assert_eq!((off.red, off.green, off.blue), (0, 0, 0));
    let from = LedEffect::from_rgb_slice(&[0xAA, 0xBB, 0xCC]);
    assert_eq!((from.red, from.green, from.blue), (0xAA, 0xBB, 0xCC));
}

#[test]
fn shared_effect_reaches_both_triggers() {
    for mode in every_mode(0x21, 0x43) {
        let mut report = DualSenseReport::default();
        ControllerEffect::new_shared_trigger(mode, LedEffect::purple()).apply_to_report(&mut report);
        assert_eq!(report.l2_effect, build_effect(mode));
        assert_eq!(report.r2_effect, build_effect(mode));
        assert_eq!(report.l2_effect, report.r2_effect);
    }
}

#[test]
fn split_effect_keeps_the_sides_apart() {
    let mut report = DualSenseReport::default();
    let effect = ControllerEffect::new_split_trigger(
        TriggerMode::Rigid { start: 1, force: 2 },
        TriggerMode::Pulse { start: 3, force: 4 },
        LedEffect::off(),
    );
    effect.apply_to_report(&mut report);
    assert_eq!(report.l2_effect, build_effect(TriggerMode::Rigid { start: 1, force: 2 }));
    assert_eq!(report.r2_effect, build_effect(TriggerMode::Pulse { start: 3, force: 4 }));
    assert_eq!(report.l2_effect, [1, 1, 1, 2, 0, 0, 0, 0, 0]);
    assert_eq!(report.r2_effect, [1, 2, 3, 4, 0, 0, 0, 0, 0]);
}

#[test]
fn apply_sets_the_lightbar() {
    let mut report = DualSenseReport::default();
    ControllerEffect::new_shared_trigger(TriggerMode::Off, LedEffect::new(0x00, 0x20, 0xFF))
        .apply_to_report(&mut report);
    assert_eq!(
        (report.lightbar_red, report.lightbar_green, report.lightbar_blue),
        (0x00, 0x20, 0xFF)
    );
}

#[test]
fn apply_leaves_the_other_fields_alone() {
    let mut report = DualSenseReport::default();
    report.report_id = 0x31;
    report.flags = 0xA5;
    report.enable_bits = 0x5A;
    report.rumble_right = 0x11;
    report.rumble_left = 0x22;
    report.reserved0 = 0x77;
    report.reserved1 = [0x78, 0x79];
    report.reserved2 = [0x7A, 0x7B];
    report.reserved3 = [0x7C; 47];
    let before = report.as_bytes();
    ControllerEffect::new_split_trigger(
        TriggerMode::Slope { start: 9, end: 10 },
        TriggerMode::Rigid { start: 11, force: 12 },
        LedEffect::new(13, 14, 15),
    )
    .apply_to_report(&mut report);
    assert_eq!(report.report_id, 0x31);
    assert_eq!(report.flags, 0xA5);
    assert_eq!(report.enable_bits, 0x5A);
    assert_eq!(report.rumble_right, 0x11);
    assert_eq!(report.rumble_left, 0x22);
    assert_eq!(report.reserved0, 0x77);
    assert_eq!(report.reserved1, [0x78, 0x79]);
    assert_eq!(report.reserved2, [0x7A, 0x7B]);
    assert_eq!(report.reserved3, [0x7C; 47]);
    let after = report.as_bytes();
    let mut i: usize = 0;
    while i < 78 {
        let written = (6..9).contains(&i) || (11..20).contains(&i) || (22..31).contains(&i);
        if !written {
            assert_eq!(after[i], before[i], "offset {}", i);
        }
        i += 1;
    }
}

#[test]
fn an_effect_can_be_cloned_and_applied_again() {
    let effect = ControllerEffect::new_shared_trigger(
        TriggerMode::Pulse { start: 2, force: 3 },
        LedEffect::purple(),
    );
    let copy = effect.clone();
    let mut first = DualSenseReport::default();
    let mut second = DualSenseReport::default();
    effect.apply_to_report(&mut first);
    copy.apply_to_report(&mut second);
    assert_eq!(first.as_bytes(), second.as_bytes());
}
