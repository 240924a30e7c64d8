use rog_control::aura::{AuraEffect, AuraModeNum, AuraZone, Colour, ModeStyle, Speed};
use rog_control::lamp_array::{
    attributes_request_report, autonomous_off_report, range_update_report, read_lamp_count, EffectSlot,
    EffectTask, Sample,
};

fn effect(style: ModeStyle, speed: Speed) -> AuraEffect {
    AuraEffect {
        mode: AuraModeNum { code: 1, style },
        zone: AuraZone::Unzoned,
        colour1: Colour { r: 10, g: 20, b: 30 },
        speed,
        speed_code: 0xeb,
        message: [0; 17],
    }
}

const SAMPLE: Sample = Sample { level: 77, hue: Colour { r: 1, g: 2, b: 3 } };

#[test]
fn claiming_reports() {
    assert_eq!(autonomous_off_report(), vec![0x46, 0x00]);
    let request = attributes_request_report();
    assert_eq!(request.len(), 23);
    assert_eq!(request[0], 0x41);
    assert!(request[1..].iter().all(|byte| *byte == 0));
}

#[test]
fn lamp_count_is_little_endian() {
    let mut attributes = [0u8; 23];
    assert_eq!(read_lamp_count(&attributes), 0);
    attributes[1] = 0x34;
    attributes[2] = 0x12;
    assert_eq!(read_lamp_count(&attributes), 0x1234);
    attributes[1] = 0xff;
    attributes[2] = 0xff;
    assert_eq!(read_lamp_count(&attributes), 0xffff);
}

#[test]
fn range_update_bytes() {
    let colour = Colour { r: 0xaa, g: 0xbb, b: 0xcc };
    assert_eq!(
        range_update_report(1, colour, 128),
        vec![0x45, 0x01, 0x00, 0x00, 0x00, 0x00, 0xaa, 0xbb, 0xcc, 128]
    );
    assert_eq!(
        range_update_report(0x1235, colour, 255),
        vec![0x45, 0x01, 0x00, 0x00, 0x34, 0x12, 0xaa, 0xbb, 0xcc, 255]
    );
}

#[test]
fn range_update_covers_all_lamps() {
    let colour = Colour { r: 0, g: 0, b: 0 };
    for lamps in [1u16, 2, 255, 256, 257, 0xffff] {
        let report = range_update_report(lamps, colour, 0);
        assert_eq!(u16::from_le_bytes([report[2], report[3]]), 0);
        assert_eq!(u16::from_le_bytes([report[4], report[5]]), lamps - 1);
    }
}

#[test]
fn different_updates_differ() {
    let colour = Colour { r: 1, g: 2, b: 3 };
    let report = range_update_report(300, colour, 64);
    assert_ne!(report, range_update_report(44, colour, 64));
    assert_ne!(report, range_update_report(300, Colour { r: 1, g: 3, b: 2 }, 64));
    assert_ne!(report, range_update_report(300, colour, 65));
}

#[test]
fn cycle_lengths() {
    for (speed, period, frames) in
        [(Speed::Low, 4000, 121), (Speed::Med, 2000, 60), (Speed::High, 800, 24)]
    {
        assert_eq!(EffectTask::speed_to_period_ms(speed), period);
        assert_eq!(((period as f32) / (33u64 as f32)).max(1.0) as u32, frames);
        let task = EffectTask::new(&effect(ModeStyle::Pulse, speed), 255, 1);
        assert_eq!(task.position(), (0, frames));
    }
}

#[test]
fn animation_repeats_itself() {
    let mut task = EffectTask::new(&effect(ModeStyle::Breathe, Speed::High), 255, 1);
    let mut places = Vec::new();
    for _ in 0..49 {
        places.push(task.position().0);
        assert!(task.advance(true));
    }
    assert_eq!(places[..24], (0..24).collect::<Vec<u32>>()[..]);
    assert_eq!(places[24..48], places[..24]);
    assert_eq!(places[48], 0);
}

#[test]
fn animation_ends_when_an_update_is_not_sent() {
    let mut task = EffectTask::new(&effect(ModeStyle::Breathe, Speed::Med), 255, 1);
    assert!(task.advance(true));
    assert!(!task.advance(false));
    assert_eq!(task.position(), (1, 60));
}

#[test]
fn styles_follow_level_or_hue() {
    for style in [ModeStyle::Breathe, ModeStyle::Pulse] {
        let task = EffectTask::new(&effect(style, Speed::Low), 200, 2);
        assert_eq!(task.style(), style);
        assert_eq!(task.intensity(), 200);
        assert_eq!(task.report(SAMPLE), vec![0x45, 1, 0, 0, 1, 0, 10, 20, 30, 77]);
    }
    for style in [ModeStyle::RainbowCycle, ModeStyle::RainbowWave] {
        let task = EffectTask::new(&effect(style, Speed::Low), 200, 2);
        assert_eq!(task.report(SAMPLE), vec![0x45, 1, 0, 0, 1, 0, 1, 2, 3, 200]);
    }
    for style in [ModeStyle::Other, ModeStyle::Static] {
        let task = EffectTask::new(&effect(style, Speed::Low), 200, 2);
        assert_eq!(task.report(SAMPLE), vec![0x45, 1, 0, 0, 1, 0, 10, 20, 30, 200]);
    }
}

#[test]
fn running_task_is_handed_out_once() {
    let mut slot = EffectSlot::new();
    assert_eq!(slot.lamparray_stop_effect_task(), None);
    slot.started(7);
    slot.started(8);
    assert_eq!(slot.lamparray_stop_effect_task(), Some(8));
    assert_eq!(slot.lamparray_stop_effect_task(), None);
}

#[test]
fn lamps_stay_below_the_cap() {
    for style in [ModeStyle::Breathe, ModeStyle::Pulse, ModeStyle::RainbowCycle, ModeStyle::Other] {
        for cap in [0, 76, 77, 78, 255] {
            let mut task = EffectTask::new(&effect(style, Speed::High), cap, 2);
            for _ in 0..30 {
                assert!(task.report(SAMPLE)[9] <= cap);
                task.advance(true);
            }
        }
        let task = EffectTask::new(&effect(style, Speed::Low), 50, 2);
        assert_eq!(task.report(SAMPLE)[9], 50);
    }
}
