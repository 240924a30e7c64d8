use std::collections::BTreeMap;

use rog_control::aura::{
    AuraConfig, AuraDeviceType, AuraEffect, AuraModeNum, AuraPowerState, AuraZone, Colour,
    LaptopAuraPower, LedBrightness, LedSupport, ModeStyle, PowerZones, Speed,
};
use rog_control::aura_laptop::{
    pad, Aura, BrightnessSource, BrightnessUpdate, ConfigRequest, CurrentMode, LedMessages,
};
use rog_control::script::{AuraError, Command, Outcome, Progress, Script};

const MESSAGES: LedMessages = LedMessages { set: [0xb5; 17], apply: [0xb4; 17] };

const STATIC: AuraModeNum = AuraModeNum { code: 0, style: ModeStyle::Static };
const BREATHE: AuraModeNum = AuraModeNum { code: 1, style: ModeStyle::Breathe };

const LAMPS: Aura = Aura { hid: true, backlight: false, is_lamparray: true };
const USB: Aura = Aura { hid: true, backlight: true, is_lamparray: false };
const TUF: Aura = Aura { hid: false, backlight: true, is_lamparray: false };
const NOTHING: Aura = Aura { hid: false, backlight: false, is_lamparray: false };

fn effect(mode: AuraModeNum, first: u8) -> AuraEffect {
    AuraEffect {
        mode,
        zone: AuraZone::Unzoned,
        colour1: Colour { r: first, g: 20, b: 30 },
        speed: Speed::Med,
        speed_code: 0xeb,
        message: [first; 17],
    }
}

fn config() -> AuraConfig {
    AuraConfig {
        led_type: AuraDeviceType::Other(1),
        support_data: LedSupport {
            basic_modes: vec![STATIC, BREATHE],
            basic_zones: Vec::new(),
            power_zones: Vec::new(),
        },
        brightness: LedBrightness::High,
        current_mode: STATIC,
        builtins: BTreeMap::from([(0, effect(STATIC, 10)), (1, effect(BREATHE, 11))]),
        multizone: None,
        multizone_on: false,
        enabled: LaptopAuraPower { states: Vec::new() },
        per_key_mode_active: false,
        ally_fix: None,
    }
}

/// A command, as far as a test can compare it.
#[derive(Debug, Clone, PartialEq)]
enum Sent {
    Stop,
    Start(ModeStyle, u8, (u32, u32)),
    Write(Vec<u8>),
    SetReport(Vec<u8>),
    GetReport(Vec<u8>),
    Backlight(u8),
    RgbMode(Vec<u8>),
    RgbState(Vec<u8>),
    Save,
}

#[derive(Debug, PartialEq)]
enum End {
    Completed,
    Refused(AuraError),
    Aborted,
}

/// Runs a script on a device with `lamps` lamps that fails the command after `good` ones.
fn run(mut script: Script, config: &mut AuraConfig, lamps: u16, good: usize) -> (Vec<Sent>, End) {
    let mut sent = Vec::new();
    let mut progress = script.start(config);
    loop {
        let command = match progress {
            Progress::Do(command) => command,
            Progress::Completed => return (sent, End::Completed),
            Progress::Refused(error) => return (sent, End::Refused(error)),
            Progress::Aborted => {
                assert!(matches!(script.resume(config, Outcome::Done), Progress::Completed));
                return (sent, End::Aborted);
            }
        };
        let mut outcome = Outcome::Done;
        sent.push(match command {
            Command::StopEffect => Sent::Stop,
            Command::StartEffect(task) => {
                Sent::Start(task.style(), task.intensity(), task.position())
            }
            Command::WriteBytes(bytes) => Sent::Write(bytes),
            Command::SetFeature(report) => Sent::SetReport(report),
            Command::GetFeature(report) => {
                let mut attributes = [0; 23];
                attributes[1..3].copy_from_slice(&lamps.to_le_bytes());
                outcome = Outcome::Attributes(attributes);
                Sent::GetReport(report)
            }
            Command::SetBacklight(level) => Sent::Backlight(level),
            Command::SetKbdRgbMode(bytes) => Sent::RgbMode(bytes),
            Command::SetKbdRgbState(bytes) => Sent::RgbState(bytes),
            Command::SaveConfig => Sent::Save,
        });
        if sent.len() > good {
            outcome = Outcome::Failed;
        }
        progress = script.resume(config, outcome);
    }
}

fn done(script: Script) -> Vec<Sent> {
    let (sent, end) = run(script, &mut config(), 1, usize::MAX);
    assert_eq!(end, End::Completed);
    sent
}

fn claim() -> Vec<Sent> {
    let mut request = vec![0; 23];
    request[0] = 0x41;
    vec![Sent::SetReport(vec![0x46, 0x00]), Sent::GetReport(request)]
}

fn lit(lamps: u16, colour: [u8; 3], intensity: u8) -> Sent {
    let [low, high] = (lamps - 1).to_le_bytes();
    let [r, g, b] = colour;
    Sent::SetReport(vec![0x45, 1, 0, 0, low, high, r, g, b, intensity])
}

fn filled(byte: u8) -> Vec<u8> {
    let mut bytes = vec![byte; 17];
    bytes.resize(64, 0);
    bytes
}

fn shown(mode: CurrentMode) -> Script {
    match mode {
        CurrentMode::Ready(script) => script,
        CurrentMode::NeedsDefault(_) => panic!("the settings hold the effect"),
    }
}

#[test]
fn intensities() {
    assert_eq!(Aura::brightness_to_intensity(LedBrightness::Off), 0);
    assert_eq!(Aura::brightness_to_intensity(LedBrightness::Low), 64);
    assert_eq!(Aura::brightness_to_intensity(LedBrightness::Med), 128);
    assert_eq!(Aura::brightness_to_intensity(LedBrightness::High), 255);
}

#[test]
fn padding_keeps_the_message() {
    let message: [u8; 17] = [1, 2, 3, 4, 5, 6, 7, 8, 9, 10, 11, 12, 13, 14, 15, 16, 17];
    let bytes = pad(&message);
    assert_eq!(bytes.len(), 64);
    assert_eq!(bytes[..17], message);
    assert!(bytes[17..].iter().all(|byte| *byte == 0));
}

#[test]
fn static_effect_on_lamps_is_sent_once() {
    let script = LAMPS.lamparray_write_effect(&effect(STATIC, 10), Some(LedBrightness::Low));
    let (sent, end) = run(script, &mut config(), 300, usize::MAX);
    let mut expected = vec![Sent::Stop];
    expected.extend(claim());
    expected.push(lit(300, [10, 20, 30], 64));
    assert_eq!(sent, expected);
    assert_eq!(end, End::Completed);
}

#[test]
fn effect_that_lamps_cannot_move_is_sent_once() {
    let comet = AuraModeNum { code: 11, style: ModeStyle::Other };
    let script = LAMPS.lamparray_write_effect(&effect(comet, 10), Some(LedBrightness::High));
    let mut expected = vec![Sent::Stop];
    expected.extend(claim());
    expected.push(lit(1, [10, 20, 30], 255));
    assert_eq!(done(script), expected);
}

#[test]
fn every_moving_style_is_animated() {
    for style in
        [ModeStyle::Breathe, ModeStyle::Pulse, ModeStyle::RainbowCycle, ModeStyle::RainbowWave]
    {
        let shown = effect(AuraModeNum { code: 1, style }, 10);
        let script = LAMPS.lamparray_write_effect(&shown, Some(LedBrightness::Low));
        assert_eq!(done(script)[3], Sent::Start(style, 64, (0, 60)));
    }
}

#[test]
fn moving_effect_on_lamps_is_animated() {
    let script = LAMPS.lamparray_write_effect_locked(&config(), &effect(BREATHE, 10));
    let mut expected = vec![Sent::Stop];
    expected.extend(claim());
    expected.push(Sent::Start(ModeStyle::Breathe, 255, (0, 60)));
    assert_eq!(done(script), expected);
}

#[test]
fn held_settings_mean_medium_brightness() {
    let script = LAMPS.lamparray_write_effect(&effect(STATIC, 10), None);
    assert_eq!(done(script)[3], lit(1, [10, 20, 30], 128));
    let script =
        LAMPS.write_effect_and_apply(AuraDeviceType::Ally, &effect(STATIC, 10), None, &MESSAGES);
    assert_eq!(done(script)[3], lit(1, [10, 20, 30], 128));
}

#[test]
fn no_lamps_are_refused() {
    for shown in [effect(STATIC, 10), effect(BREATHE, 10)] {
        let script = LAMPS.lamparray_write_effect_locked(&config(), &shown);
        let (sent, end) = run(script, &mut config(), 0, usize::MAX);
        let mut expected = vec![Sent::Stop];
        expected.extend(claim());
        assert_eq!(sent, expected);
        assert_eq!(end, End::Refused(AuraError::ZeroLamps));
    }
    assert_eq!(AuraError::ZeroLamps.missing().unwrap(), "LampArray reports zero lamps");
}

#[test]
fn missing_keyboard_is_refused() {
    let lost = Aura { hid: false, backlight: true, is_lamparray: true };
    for shown in [effect(STATIC, 10), effect(BREATHE, 10)] {
        let script = lost.lamparray_write_effect_locked(&config(), &shown);
        let (sent, end) = run(script, &mut config(), 1, usize::MAX);
        assert_eq!(sent, vec![Sent::Stop]);
        assert_eq!(end, End::Refused(AuraError::NoAuraKeyboard));
    }
    let script =
        NOTHING.write_effect_and_apply(AuraDeviceType::Ally, &effect(STATIC, 10), None, &MESSAGES);
    let (sent, end) = run(script, &mut config(), 1, usize::MAX);
    assert_eq!(sent, Vec::new());
    assert_eq!(end, End::Refused(AuraError::NoAuraKeyboard));
    assert_eq!(AuraError::NoAuraKeyboard.missing(), None);
}

#[test]
fn failure_ends_a_script() {
    let script = LAMPS.lamparray_write_effect_locked(&config(), &effect(STATIC, 10));
    let (sent, end) = run(script, &mut config(), 1, 1);
    assert_eq!(sent, vec![Sent::Stop, Sent::SetReport(vec![0x46, 0x00])]);
    assert_eq!(end, End::Aborted);
}

#[test]
fn effect_on_a_usb_keyboard_is_padded() {
    let script = USB.write_effect_and_apply(
        AuraDeviceType::Other(0),
        &effect(STATIC, 10),
        Some(LedBrightness::High),
        &MESSAGES,
    );
    assert_eq!(
        done(script),
        vec![Sent::Write(filled(10)), Sent::Write(filled(0xb5)), Sent::Write(filled(0xb4))]
    );
}

#[test]
fn effect_on_a_tuf_keyboard() {
    let tuf = AuraDeviceType::LaptopKeyboardTuf;
    let script = USB.write_effect_and_apply(tuf, &effect(BREATHE, 10), None, &MESSAGES);
    assert_eq!(done(script), vec![Sent::RgbMode(vec![1, 1, 10, 20, 30, 0xeb])]);
    let script = NOTHING.write_effect_and_apply(tuf, &effect(BREATHE, 10), None, &MESSAGES);
    assert_eq!(done(script), Vec::new());
}

#[test]
fn current_mode_without_zones() {
    let mut settings = config();
    assert_eq!(
        done(shown(USB.write_current_config_mode(&settings, &MESSAGES)))[0],
        Sent::Write(filled(10))
    );
    assert_eq!(
        done(shown(LAMPS.write_current_config_mode(&settings, &MESSAGES)))[3],
        lit(1, [10, 20, 30], 255)
    );
    settings.current_mode = AuraModeNum { code: 9, style: ModeStyle::Other };
    assert_eq!(done(shown(USB.write_current_config_mode(&settings, &MESSAGES))), Vec::new());
}

#[test]
fn current_mode_with_zones() {
    let mut settings = config();
    settings.multizone_on = true;
    assert!(matches!(
        USB.write_current_config_mode(&settings, &MESSAGES),
        CurrentMode::NeedsDefault(AuraModeNum { code: 0, .. })
    ));
    assert_eq!(done(USB.write_zones(&settings, STATIC, &MESSAGES)), Vec::new());

    settings.multizone = Some(BTreeMap::from([(1, vec![effect(BREATHE, 1)])]));
    assert!(matches!(
        USB.write_current_config_mode(&settings, &MESSAGES),
        CurrentMode::NeedsDefault(_)
    ));

    let zones = vec![effect(STATIC, 1), effect(STATIC, 2)];
    settings.multizone = Some(BTreeMap::from([(0, zones)]));
    let sent = done(shown(USB.write_current_config_mode(&settings, &MESSAGES)));
    assert_eq!(sent.len(), 6);
    assert_eq!(sent[0], Sent::Write(filled(1)));
    assert_eq!(sent[3], Sent::Write(filled(2)));
    let sent = done(shown(LAMPS.write_current_config_mode(&settings, &MESSAGES)));
    assert_eq!(sent.len(), 8);
    assert_eq!(sent[3], lit(1, [1, 20, 30], 255));
    assert_eq!(sent[4], Sent::Stop);
    assert_eq!(sent[7], lit(1, [2, 20, 30], 255));
}

#[test]
fn brightness_of_lamps_is_noted() {
    for (value, level, intensity) in [
        (0, LedBrightness::Off, 0),
        (1, LedBrightness::Low, 64),
        (2, LedBrightness::Med, 128),
        (3, LedBrightness::High, 255),
        (200, LedBrightness::High, 255),
    ] {
        let mut settings = config();
        let mut expected = claim();
        expected.push(lit(1, [10, 20, 30], intensity));
        assert_eq!(done(LAMPS.set_brightness(&mut settings, value)), expected);
        assert_eq!(settings.brightness, level);
    }
    let mut settings = config();
    settings.builtins.clear();
    let sent = done(LAMPS.lamparray_set_brightness(&mut settings, 1));
    assert_eq!(sent[2], lit(1, [0xff, 0xff, 0xff], 64));
}

#[test]
fn brightness_without_settings_is_white() {
    assert_eq!(done(LAMPS.set_brightness_unlocked(2))[2], lit(1, [0xff, 0xff, 0xff], 128));
    assert_eq!(
        done(LAMPS.lamparray_set_brightness_unlocked(0))[2],
        lit(1, [0xff, 0xff, 0xff], 0)
    );
    assert_eq!(done(TUF.set_brightness_unlocked(2)), vec![Sent::Backlight(2)]);
}

#[test]
fn brightness_of_a_backlight_is_not_noted() {
    let mut settings = config();
    assert_eq!(done(USB.set_brightness(&mut settings, 1)), vec![Sent::Backlight(1)]);
    assert_eq!(settings.brightness, LedBrightness::High);
    let script = NOTHING.set_brightness(&mut settings, 1);
    let (sent, end) = run(script, &mut settings, 1, usize::MAX);
    assert_eq!(sent, Vec::new());
    assert_eq!(end, End::Refused(AuraError::NoBacklight));
    assert_eq!(AuraError::NoBacklight.missing().unwrap(), "No LED backlight control available");
}

#[test]
fn brightness_that_settings_are_saved_with() {
    let settings = config();
    assert_eq!(LAMPS.brightness_source(), BrightnessSource::Settings);
    assert_eq!(USB.brightness_source(), BrightnessSource::Backlight);
    assert_eq!(NOTHING.brightness_source(), BrightnessSource::Settings);
    for (aura, reading, update) in [
        (LAMPS, Some(1), BrightnessUpdate::Keep(LedBrightness::High)),
        (USB, Some(1), BrightnessUpdate::Level(1)),
        (USB, None, BrightnessUpdate::Level(0)),
        (NOTHING, None, BrightnessUpdate::Keep(LedBrightness::High)),
    ] {
        assert_eq!(
            aura.update_config(&settings, reading),
            vec![ConfigRequest::Read, ConfigRequest::SetBrightness(update), ConfigRequest::Save]
        );
    }
}

fn powered(zone: PowerZones, bits: u32) -> AuraPowerState {
    AuraPowerState { zone, bits }
}

#[test]
fn power_of_lamps_is_all_or_nothing() {
    let mut settings = config();
    settings.enabled.states = vec![powered(PowerZones::Zone(1), 0), powered(PowerZones::Zone(2), 0)];
    let mut expected = vec![Sent::Stop];
    expected.extend(claim());
    expected.push(lit(1, [10, 20, 30], 0));
    assert_eq!(done(LAMPS.set_power_states(&settings, &[])), expected);
    settings.enabled.states[1].bits = 0x100;
    assert_eq!(done(LAMPS.lamparray_set_aura_power(&settings))[3], lit(1, [10, 20, 30], 255));
    settings.enabled.states.clear();
    assert_eq!(done(LAMPS.lamparray_set_aura_power(&settings))[3], lit(1, [10, 20, 30], 0));
}

#[test]
fn power_messages() {
    let mut settings = config();
    let bytes = [1, 2, 3, 4, 5];
    let keyboard = Sent::Write(vec![0x5d, 0xbd, 0x01, 1, 2, 3, 4]);
    assert_eq!(done(USB.set_power_states(&settings, &bytes)), vec![keyboard.clone()]);
    settings.enabled.states = vec![powered(PowerZones::Ally, 0x1234), powered(PowerZones::Zone(1), 1)];
    assert_eq!(
        done(USB.set_power_states(&settings, &[])),
        vec![Sent::Write(vec![0x5d, 0xd1, 0x09, 0x01, 0x34, 0, 0])]
    );
    settings.enabled.states.swap(0, 1);
    assert_eq!(done(USB.set_power_states(&settings, &bytes)), vec![keyboard]);
    assert_eq!(done(NOTHING.set_power_states(&settings, &[])), Vec::new());
    settings.led_type = AuraDeviceType::LaptopKeyboardTuf;
    assert_eq!(done(USB.set_power_states(&settings, &bytes)), vec![Sent::RgbState(bytes.to_vec())]);
    assert_eq!(done(NOTHING.set_power_states(&settings, &[])), Vec::new());
}

#[test]
fn raw_block_leaves_the_mode_for_single_keys() {
    let mut settings = config();
    settings.brightness = LedBrightness::Off;
    settings.per_key_mode_active = true;
    let rows = vec![vec![0x5d, 0xb3, 7], vec![0x5d, 0xb3, 8]];
    let script = USB.write_effect_block(&mut settings, &rows, &[9, 9], &MESSAGES);
    assert_eq!(settings.brightness, LedBrightness::Med);
    let (sent, end) = run(script, &mut settings, 0, usize::MAX);
    assert_eq!(
        sent,
        vec![Sent::Save, Sent::Write(vec![0x5d, 0xb3, 7]), Sent::Write(vec![0xb5; 17])]
    );
    assert_eq!(end, End::Completed);
    assert!(!settings.per_key_mode_active);
}

#[test]
fn rows_follow_the_start_of_the_mode_for_single_keys() {
    let mut settings = config();
    let rows = vec![vec![0x5d, 0xbc, 7], vec![0x5d, 0xbc, 8]];
    let refused = USB.write_effect_block(&mut settings, &rows, &[9, 9], &MESSAGES);
    let (sent, end) = run(refused, &mut settings, 0, 0);
    assert_eq!(sent, vec![Sent::Write(vec![9, 9])]);
    assert_eq!(end, End::Aborted);
    assert!(!settings.per_key_mode_active);

    let written = vec![Sent::Write(rows[0].clone()), Sent::Write(rows[1].clone())];
    let accepted = USB.write_effect_block(&mut settings, &rows, &[9, 9], &MESSAGES);
    let (sent, _) = run(accepted, &mut settings, 0, usize::MAX);
    assert_eq!(sent[0], Sent::Write(vec![9, 9]));
    assert_eq!(sent[1..], written);
    assert!(settings.per_key_mode_active);

    let again = USB.write_effect_block(&mut settings, &rows, &[9, 9], &MESSAGES);
    let (sent, _) = run(again, &mut settings, 0, usize::MAX);
    assert_eq!(sent, written);
}

#[test]
fn rows_colour_a_backlight_in_turn() {
    let mut settings = config();
    settings.led_type = AuraDeviceType::LaptopKeyboardTuf;
    let rows: Vec<Vec<u8>> = vec![(0..12).collect(), (100..112).collect()];
    let script = TUF.write_effect_block(&mut settings, &rows, &[9], &MESSAGES);
    assert_eq!(
        done(script),
        vec![Sent::RgbMode(vec![0, 0, 9, 10, 11, 0]), Sent::RgbMode(vec![0, 0, 109, 110, 111, 0])]
    );
    let script = NOTHING.write_effect_block(&mut settings, &rows, &[9], &MESSAGES);
    assert_eq!(done(script), Vec::new());
}

#[test]
fn ally_is_reset_once() {
    let mut settings = config();
    assert_eq!(done(USB.fix_ally_power(&settings)), Vec::new());
    settings.led_type = AuraDeviceType::Ally;
    assert_eq!(done(NOTHING.fix_ally_power(&settings)), Vec::new());

    let reset = Sent::Write(vec![0x5d, 0xbd, 0x01, 0xff, 0xff, 0xff, 0xff]);
    let refused = USB.fix_ally_power(&settings);
    assert_eq!(run(refused, &mut settings, 0, 0), (vec![reset.clone()], End::Aborted));
    assert_eq!(settings.ally_fix, None);

    let accepted = USB.fix_ally_power(&settings);
    assert_eq!(
        run(accepted, &mut settings, 0, usize::MAX),
        (vec![reset, Sent::Save], End::Completed)
    );
    assert_eq!(settings.ally_fix, Some(true));
    assert_eq!(done(USB.fix_ally_power(&settings)), vec![Sent::Save]);
}

#[test]
fn nothing_is_initialised() {
    assert_eq!(done(USB.do_initialization()), Vec::new());
}

#[test]
fn animations_of_zones_never_overlap() {
    let mut settings = config();
    settings.multizone_on = true;
    let zones = vec![effect(BREATHE, 1), effect(STATIC, 2), effect(BREATHE, 3)];
    settings.multizone = Some(BTreeMap::from([(0, zones)]));
    let sent = done(shown(LAMPS.write_current_config_mode(&settings, &MESSAGES)));
    let mut running = 0;
    for command in sent {
        match command {
            Sent::Stop => running = 0,
            Sent::Start(..) => {
                assert_eq!(running, 0);
                running = 1;
            }
            _ => {}
        }
    }
    assert_eq!(running, 1);
}

#[test]
fn bytes_and_rows_that_are_needed() {
    let mut settings = config();
    assert!(USB.needs_power_bytes(&settings));
    assert!(!LAMPS.needs_power_bytes(&settings));
    assert!(!NOTHING.needs_power_bytes(&settings));
    assert!(!TUF.needs_row_colours(&settings));
    settings.enabled.states = vec![powered(PowerZones::Ally, 1)];
    assert!(!USB.needs_power_bytes(&settings));
    settings.led_type = AuraDeviceType::LaptopKeyboardTuf;
    assert!(!USB.needs_power_bytes(&settings));
    assert!(TUF.needs_row_colours(&settings));
    assert!(!USB.needs_row_colours(&settings));
}
