use std::collections::BTreeMap;

use rog_control::aura::{
    AuraConfig, AuraDeviceType, AuraEffect, AuraModeNum, AuraPowerState, AuraZone, Colour,
    LaptopAuraPower, LedBrightness, LedSupport, ModeStyle, PowerZones, Speed,
};
use rog_control::lamp_array_zbus::{
    LampArray, LampArrayZbus, LampError, LampRequest, LampTask,
};

const STATIC: AuraModeNum = AuraModeNum { code: 0, style: ModeStyle::Static };
const BREATHE: AuraModeNum = AuraModeNum { code: 1, style: ModeStyle::Breathe };
const COMET: AuraModeNum = AuraModeNum { code: 11, style: ModeStyle::Other };

fn effect(mode: AuraModeNum, zone: AuraZone) -> AuraEffect {
    AuraEffect {
        mode,
        zone,
        colour1: Colour { r: 10, g: 20, b: 30 },
        speed: Speed::Med,
        speed_code: 0xeb,
        message: [0; 17],
    }
}

fn interface(brightness: LedBrightness) -> LampArrayZbus {
    let unzoned = AuraZone::Unzoned;
    LampArrayZbus::new(LampArray {
        config: AuraConfig {
            led_type: AuraDeviceType::LaptopKeyboardTuf,
            support_data: LedSupport {
                basic_modes: vec![STATIC, BREATHE],
                basic_zones: vec![AuraZone::Zone(1)],
                power_zones: vec![PowerZones::Zone(4)],
            },
            brightness,
            current_mode: BREATHE,
            builtins: BTreeMap::from([
                (11, effect(COMET, unzoned)),
                (0, effect(STATIC, unzoned)),
                (1, effect(BREATHE, unzoned)),
            ]),
            multizone: None,
            multizone_on: false,
            enabled: LaptopAuraPower {
                states: vec![
                    AuraPowerState { zone: PowerZones::Zone(1), bits: 1 },
                    AuraPowerState { zone: PowerZones::Zone(2), bits: 2 },
                    AuraPowerState { zone: PowerZones::Zone(1), bits: 3 },
                ],
            },
            per_key_mode_active: false,
            ally_fix: None,
        },
    })
}

#[test]
fn properties_come_from_the_settings() {
    let lamps = interface(LedBrightness::Low);
    assert_eq!(LampArrayZbus::zbus_path(), "/xyz/ljones");
    assert_eq!(lamps.device_type(), AuraDeviceType::LaptopKeyboardTuf);
    assert_eq!(lamps.brightness(), LedBrightness::Low);
    assert_eq!(
        lamps.supported_brightness(),
        vec![LedBrightness::Off, LedBrightness::Low, LedBrightness::Med, LedBrightness::High]
    );
    assert_eq!(lamps.supported_basic_modes(), vec![0, 1, 11]);
    assert_eq!(lamps.supported_basic_zones(), vec![AuraZone::Zone(1)]);
    assert_eq!(lamps.supported_power_zones(), vec![PowerZones::Zone(4)]);
    assert_eq!(lamps.all_mode_data().len(), 3);
    assert_eq!(lamps.all_mode_data()[&11].mode, COMET);
    assert_eq!(lamps.led_power().states, lamps.0.config.enabled.states);
}

#[test]
fn current_mode_and_effect() {
    let mut lamps = interface(LedBrightness::Low);
    assert_eq!(LampArrayZbus::led_mode(Some(&lamps.0.config)).unwrap(), BREATHE);
    assert_eq!(LampArrayZbus::led_mode_data(Some(&lamps.0.config)).unwrap().mode, BREATHE);
    lamps.0.config.builtins.remove(&1);
    let missing = LampArrayZbus::led_mode_data(Some(&lamps.0.config)).unwrap_err();
    assert_eq!(missing.message(), "Could not get the current effect");
    let locked = LampArrayZbus::led_mode(None).unwrap_err();
    assert!(matches!(locked, LampError::Locked));
    assert_eq!(locked.message(), "LampArray control couldn't lock self");
    assert!(matches!(LampArrayZbus::led_mode_data(None), Err(LampError::Locked)));
}

#[test]
fn brightness_is_stored_once_shown() {
    let mut lamps = interface(LedBrightness::Low);
    let begun = lamps.set_brightness(LedBrightness::High);
    assert!(matches!(begun.requests[..], [LampRequest::SetBrightness(LedBrightness::High)]));
    assert_eq!(lamps.brightness(), LedBrightness::Low);
    assert!(LampArrayZbus::shown(begun.task, false).is_err());
    assert!(LampArrayZbus::shown(begun.task, true).unwrap().is_empty());
    assert!(matches!(lamps.store(begun.task)[..], [LampRequest::SaveConfig]));
    assert_eq!(lamps.brightness(), LedBrightness::High);
}

#[test]
fn new_mode_lights_the_lamps() {
    let mut lamps = interface(LedBrightness::Off);
    let begun = lamps.set_led_mode(STATIC).unwrap();
    assert!(matches!(begun.requests[..], [LampRequest::WriteCurrentMode]));
    assert_eq!(lamps.0.config.current_mode, STATIC);
    assert_eq!(lamps.brightness(), LedBrightness::Med);
    assert!(matches!(
        LampArrayZbus::shown(begun.task, true).unwrap()[..],
        [LampRequest::ReadConfig]
    ));
    assert!(LampArrayZbus::settled(begun.task, true).is_ok());
    assert!(LampArrayZbus::settled(begun.task, false).is_err());
    // The file still holds what was saved last.
    lamps = interface(LedBrightness::Off);
    assert!(matches!(lamps.store(begun.task)[..], [LampRequest::SaveConfig]));
    assert_eq!(lamps.0.config.current_mode, STATIC);
    assert_eq!(lamps.brightness(), LedBrightness::Med);
}

#[test]
fn unsupported_mode_changes_nothing() {
    let mut lamps = interface(LedBrightness::Off);
    let error = lamps.set_led_mode(COMET).unwrap_err();
    assert!(matches!(error, LampError::ModeNotSupported(COMET)));
    assert_eq!(error.message(), "The Aura mode is not supported: ");
    assert_eq!(lamps.0.config.current_mode, BREATHE);
    assert_eq!(lamps.brightness(), LedBrightness::Off);
}

#[test]
fn lit_lamps_keep_their_brightness() {
    let mut lamps = interface(LedBrightness::High);
    lamps.set_led_mode(STATIC).unwrap();
    assert_eq!(lamps.brightness(), LedBrightness::High);
    lamps.set_led_mode(STATIC).unwrap();
    assert_eq!(lamps.brightness(), LedBrightness::High);
}

#[test]
fn supported_effect_is_shown_then_stored() {
    let mut lamps = interface(LedBrightness::Off);
    let begun = lamps.set_led_mode_data(effect(STATIC, AuraZone::Zone(1))).unwrap();
    assert!(matches!(
        begun.requests[..],
        [LampRequest::WriteEffect(AuraEffect { zone: AuraZone::Zone(1), .. })]
    ));
    assert_eq!(lamps.brightness(), LedBrightness::Med);
    assert!(matches!(
        LampArrayZbus::shown(begun.task, true).unwrap()[..],
        [LampRequest::ReadConfig]
    ));
    assert!(matches!(
        lamps.store(begun.task)[..],
        [LampRequest::SetBuiltin(AuraEffect { mode: STATIC, .. }), LampRequest::SaveConfig]
    ));
    assert_eq!(lamps.0.config.current_mode, BREATHE);
    assert_eq!(lamps.brightness(), LedBrightness::Med);
}

#[test]
fn unsupported_effect_changes_nothing() {
    for refused in [effect(COMET, AuraZone::Unzoned), effect(STATIC, AuraZone::Zone(2))] {
        let mut lamps = interface(LedBrightness::Off);
        let error = lamps.set_led_mode_data(refused).unwrap_err();
        assert!(matches!(error, LampError::NotSupported(_)));
        assert_eq!(error.message(), "The Aura effect is not supported: ");
        assert_eq!(lamps.brightness(), LedBrightness::Off);
    }
    let mut lamps = interface(LedBrightness::Off);
    assert!(lamps.set_led_mode_data(effect(STATIC, AuraZone::Unzoned)).is_ok());
}

#[test]
fn last_power_option_wins() {
    let mut lamps = interface(LedBrightness::Low);
    let state = |zone, bits| AuraPowerState { zone: PowerZones::Zone(zone), bits };
    let options = LaptopAuraPower { states: vec![state(1, 10), state(9, 9), state(1, 11)] };
    let expected = vec![state(1, 11), state(2, 2), state(1, 3)];
    let begun = lamps.set_led_power(&options);
    assert!(matches!(
        begun.requests[..],
        [LampRequest::SaveConfig, LampRequest::SetAuraPower]
    ));
    assert_eq!(lamps.led_power().states, expected);
    assert!(LampArrayZbus::shown(begun.task, true).unwrap().is_empty());
    assert!(lamps.store(begun.task).is_empty());
    lamps.set_led_power(&options);
    assert_eq!(lamps.led_power().states, expected);
}

#[test]
fn reload_shows_mode_then_power() {
    let mut lamps = interface(LedBrightness::Low);
    let begun = lamps.reload();
    assert!(matches!(begun.requests[..], [LampRequest::WriteCurrentMode]));
    assert!(matches!(begun.task, LampTask::Reload));
    assert!(LampArrayZbus::shown(begun.task, false).is_err());
    assert!(matches!(
        LampArrayZbus::shown(begun.task, true).unwrap()[..],
        [LampRequest::SetAuraPower]
    ));
    assert!(LampArrayZbus::settled(begun.task, true).is_ok());
    assert!(LampArrayZbus::settled(begun.task, false).is_ok());
    assert!(lamps.store(begun.task).is_empty());
}

#[test]
fn waking_shows_the_mode_again() {
    assert!(LampArrayZbus::on_sleep(true).is_none());
    assert!(matches!(LampArrayZbus::on_sleep(false), Some(LampRequest::WriteCurrentMode)));
    assert!(LampArrayZbus::direct_addressing_raw(&vec![vec![1, 2]]).is_empty());
}
