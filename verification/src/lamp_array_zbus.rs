//! The interface through which clients see and change a lamp array. It looks like that of
//! any other keyboard.

use std::collections::BTreeMap;

use vstd::prelude::*;
use vstd::std_specs::cmp::OrdSpec;
use vstd::std_specs::iter::IteratorSpec;

use crate::aura::{
    AuraConfig, AuraDeviceType, AuraEffect, AuraModeNum, AuraPowerState, AuraZone, LaptopAuraPower,
    LedBrightness, PowerZones,
};

verus! {

/// A lamp array, as far as clients see it: its settings.
#[derive(Debug)]
pub struct LampArray {
    pub config: AuraConfig,
}

/// The interface of a lamp array.
#[derive(Debug)]
pub struct LampArrayZbus(pub LampArray);

/// What the host has to do.
#[derive(Debug, Clone, Copy)]
pub enum LampRequest {
    /// Set the brightness of the lamps.
    SetBrightness(LedBrightness),
    /// Show the current mode of the settings.
    WriteCurrentMode,
    /// Show this effect with the brightness of the settings.
    WriteEffect(AuraEffect),
    /// Set the power states of the settings.
    SetAuraPower,
    /// Read the settings from their file again.
    ReadConfig,
    /// Store this effect in the settings.
    SetBuiltin(AuraEffect),
    /// Write the settings to their file.
    SaveConfig,
}

/// A change that waits for the host to have shown it. A mode and an effect come with the
/// brightness at which they are shown.
#[derive(Debug, Clone, Copy)]
pub enum LampTask {
    Brightness(LedBrightness),
    Mode(AuraModeNum, LedBrightness),
    ModeData(AuraEffect, LedBrightness),
    Power,
    Reload,
}

/// Why a client is refused.
#[derive(Debug, Clone, Copy)]
pub enum LampError {
    /// Another caller holds the settings.
    Locked,
    /// No effect is stored for the current mode.
    NoEffect,
    /// The lamps cannot show this effect.
    NotSupported(AuraEffect),
    /// The lamps do not have this mode.
    ModeNotSupported(AuraModeNum),
}

impl LampError {
    /// What a client is told.
    pub open spec fn text(self) -> Seq<char> {
        match self {
            LampError::Locked => "LampArray control couldn't lock self"@,
            LampError::NoEffect => "Could not get the current effect"@,
            LampError::NotSupported(_) => "The Aura effect is not supported: "@,
            LampError::ModeNotSupported(_) => "The Aura mode is not supported: "@,
        }
    }

    /// What a client is told. An effect or a mode that is not supported is to be named after
    /// it.
    pub fn message(&self) -> (message: String)
        ensures
            message@ == self.text(),
    {
        match self {
            LampError::Locked => "LampArray control couldn't lock self".to_owned(),
            LampError::NoEffect => "Could not get the current effect".to_owned(),
            LampError::NotSupported(_) => "The Aura effect is not supported: ".to_owned(),
            LampError::ModeNotSupported(_) => "The Aura mode is not supported: ".to_owned(),
        }
    }
}

/// Whether a list of modes has one with this number.
pub open spec fn has_mode(modes: Seq<AuraModeNum>, code: u8) -> bool {
    exists|i: int| 0 <= i < modes.len() && (#[trigger] modes[i]).code == code
}

/// Whether the lamps can show an effect: they have its mode and, where it is for a zone,
/// that zone.
pub open spec fn supports(config: AuraConfig, effect: AuraEffect) -> bool {
    &&& has_mode(config.support_data.basic_modes@, effect.mode.code)
    &&& effect.zone == AuraZone::Unzoned || config.support_data.basic_zones@.contains(effect.zone)
}

/// The settings with the lights on: a brightness of off becomes medium.
pub open spec fn lit(config: AuraConfig) -> AuraConfig {
    AuraConfig {
        brightness: if config.brightness == LedBrightness::Off {
            LedBrightness::Med
        } else {
            config.brightness
        },
        ..config
    }
}

/// The first state of a zone.
pub open spec fn first_slot(states: Seq<AuraPowerState>, zone: PowerZones) -> Option<int>
    decreases states.len(),
{
    if states.len() == 0 {
        None
    } else {
        match first_slot(states.drop_last(), zone) {
            Some(i) => Some(i),
            None => if states.last().zone == zone {
                Some(states.len() - 1)
            } else {
                None
            },
        }
    }
}

/// The states with the first one of a zone replaced.
pub open spec fn with_state(states: Seq<AuraPowerState>, option: AuraPowerState) -> Seq<
    AuraPowerState,
> {
    match first_slot(states, option.zone) {
        Some(i) => states.update(i, option),
        None => states,
    }
}

/// The states after each option has replaced the first state of its zone, in turn.
pub open spec fn merged(states: Seq<AuraPowerState>, options: Seq<AuraPowerState>) -> Seq<
    AuraPowerState,
>
    decreases options.len(),
{
    if options.len() == 0 {
        states
    } else {
        with_state(merged(states, options.drop_last()), options.last())
    }
}

/// Further states do not change which one comes first.
proof fn lemma_first_slot_stays(states: Seq<AuraPowerState>, zone: PowerZones, n: int)
    requires
        0 <= n <= states.len(),
        first_slot(states.subrange(0, n), zone) is Some,
    ensures
        first_slot(states, zone) == first_slot(states.subrange(0, n), zone),
    decreases states.len() - n,
{
    if n < states.len() {
        assert(states.subrange(0, n + 1).drop_last() == states.subrange(0, n));
        lemma_first_slot_stays(states, zone, n + 1);
    } else {
        assert(states.subrange(0, n) == states);
    }
}

/// Replaces the first state of a zone.
fn put_state(states: &mut Vec<AuraPowerState>, option: AuraPowerState)
    ensures
        final(states)@ == with_state(old(states)@, option),
{
    let ghost before = states@;
    let mut i: usize = 0;
    while i < states.len()
        invariant
            i <= before.len(),
            before == old(states)@,
            states@ == before,
            first_slot(before.subrange(0, i as int), option.zone) is None,
        decreases before.len() - i,
    {
        let ghost longer = before.subrange(0, i + 1);
        assert(longer.drop_last() == before.subrange(0, i as int));
        if states[i].zone == option.zone {
            proof {
                lemma_first_slot_stays(before, option.zone, i + 1);
            }
            states[i] = option;
            return;
        }
        i = i + 1;
    }
    assert(before.subrange(0, before.len() as int) == before);
}

impl LampArrayZbus {
    /// The settings.
    pub open spec fn config(self) -> AuraConfig {
        self.0.config
    }

    /// The interface of a lamp array.
    pub fn new(lamparray: LampArray) -> (interface: LampArrayZbus)
        ensures
            interface.0 == lamparray,
    {
        LampArrayZbus(lamparray)
    }

    /// The path below which the interface is served.
    pub fn zbus_path() -> (path: &'static str)
        ensures
            path@ == "/xyz/ljones"@,
    {
        "/xyz/ljones"
    }

    /// The kind of keyboard.
    pub fn device_type(&self) -> (device: AuraDeviceType)
        ensures
            device == self.config().led_type,
    {
        self.0.config.led_type
    }

    /// The brightness. Lamps have no backlight: it is that of the settings.
    pub fn brightness(&self) -> (brightness: LedBrightness)
        ensures
            brightness == self.config().brightness,
    {
        self.0.config.brightness
    }

    /// The levels of brightness.
    pub fn supported_brightness(&self) -> (levels: Vec<LedBrightness>)
        ensures
            levels@ == seq![
                LedBrightness::Off,
                LedBrightness::Low,
                LedBrightness::Med,
                LedBrightness::High,
            ],
    {
        vec![LedBrightness::Off, LedBrightness::Low, LedBrightness::Med, LedBrightness::High]
    }

    /// The zones that an effect can be for.
    pub fn supported_basic_zones(&self) -> (zones: Vec<AuraZone>)
        ensures
            zones@ == self.config().support_data.basic_zones@,
    {
        let zones = self.0.config.support_data.basic_zones.clone();
        assert(zones@ =~= self.config().support_data.basic_zones@);
        zones
    }

    /// The zones whose lights can be powered.
    pub fn supported_power_zones(&self) -> (zones: Vec<PowerZones>)
        ensures
            zones@ == self.config().support_data.power_zones@,
    {
        let zones = self.0.config.support_data.power_zones.clone();
        assert(zones@ =~= self.config().support_data.power_zones@);
        zones
    }

    /// The numbers of the modes for which an effect is stored, in ascending order.
    pub fn supported_basic_modes(&self) -> (codes: Vec<u8>)
        ensures
            codes@.to_set() == self.config().builtins@.dom(),
            forall|i: int, j: int| 0 <= i < j < codes@.len() ==> codes@[i] < codes@[j],
    {
        broadcast use vstd::std_specs::btree::group_btree_axioms;

        let mut codes: Vec<u8> = Vec::new();
        let stored = self.0.config.builtins.iter();
        let ghost pairs = IteratorSpec::remaining(&stored);
        let ghost keys = pairs.map_values(|kv: (&u8, &AuraEffect)| *kv.0);
        assert(vstd::std_specs::btree::increasing_seq(keys));
        for entry in entries: stored
            invariant
                pairs == entries.seq(),
                codes@.len() == entries.index(),
                forall|i: int| 0 <= i < codes@.len() ==> codes@[i] == *pairs[i].0,
        {
            codes.push(*entry.0);
        }
        assert(codes@ =~= keys);
        let ghost builtins = self.config().builtins@;
        assert forall|i: int, j: int| 0 <= i < j < codes@.len() implies codes@[i] < codes@[j] by {
            assert(keys[i].cmp_spec(&keys[j]) is Less);
        }
        assert forall|code: u8| codes@.contains(code) <==> builtins.contains_key(code) by {
            if builtins.contains_key(code) {
                let i = choose|i: int|
                    0 <= i < pairs.len() && pairs[i] == (&code, &builtins[code]);
                assert(codes@[i] == code);
            }
            if codes@.contains(code) {
                let i = choose|i: int| 0 <= i < codes@.len() && codes@[i] == code;
                assert(builtins.contains_key(*pairs[i].0));
            }
        }
        assert(codes@.to_set() =~= builtins.dom());
        codes
    }
}

/// A change that was begun: what the host has to do, in order, and the task to finish when it
/// has. Only the last of the requests can fail.
#[derive(Debug)]
pub struct Begun {
    pub requests: Vec<LampRequest>,
    pub task: LampTask,
}

/// What shows a change.
pub open spec fn requests_of(task: LampTask) -> Seq<LampRequest> {
    match task {
        LampTask::Brightness(brightness) => seq![LampRequest::SetBrightness(brightness)],
        LampTask::Mode(_, _) => seq![LampRequest::WriteCurrentMode],
        LampTask::ModeData(effect, _) => seq![LampRequest::WriteEffect(effect)],
        LampTask::Power => seq![LampRequest::SaveConfig, LampRequest::SetAuraPower],
        LampTask::Reload => seq![LampRequest::WriteCurrentMode],
    }
}

/// What is left to do once the last request of a change has succeeded. A mode or an effect
/// is stored in settings that have been read again, so that nothing stale is written back.
pub open spec fn after_shown(task: LampTask) -> Seq<LampRequest> {
    match task {
        LampTask::Brightness(_) => Seq::empty(),
        LampTask::Mode(_, _) => seq![LampRequest::ReadConfig],
        LampTask::ModeData(_, _) => seq![LampRequest::ReadConfig],
        LampTask::Power => Seq::empty(),
        LampTask::Reload => seq![LampRequest::SetAuraPower],
    }
}

/// Whether a change goes on after the requests of `after_shown`. A reload does whatever became
/// of them.
pub open spec fn settles(task: LampTask, succeeded: bool) -> bool {
    succeeded || task is Reload
}

/// The settings with a change that was shown.
pub open spec fn stored(config: AuraConfig, task: LampTask) -> AuraConfig {
    match task {
        LampTask::Brightness(brightness) => AuraConfig { brightness, ..config },
        LampTask::Mode(num, brightness) => AuraConfig { current_mode: num, brightness, ..config },
        LampTask::ModeData(_, brightness) => AuraConfig { brightness, ..config },
        LampTask::Power => config,
        LampTask::Reload => config,
    }
}

/// What is left to do once a change is in the settings.
pub open spec fn after_stored(task: LampTask) -> Seq<LampRequest> {
    match task {
        LampTask::Brightness(_) => seq![LampRequest::SaveConfig],
        LampTask::Mode(_, _) => seq![LampRequest::SaveConfig],
        LampTask::ModeData(effect, _) => seq![
            LampRequest::SetBuiltin(effect),
            LampRequest::SaveConfig,
        ],
        LampTask::Power => Seq::empty(),
        LampTask::Reload => Seq::empty(),
    }
}

/// Whether a list of modes has one with this number.
fn contains_mode(modes: &Vec<AuraModeNum>, code: u8) -> (found: bool)
    ensures
        found == has_mode(modes@, code),
{
    for i in 0..modes.len()
        invariant
            forall|j: int| 0 <= j < i ==> (#[trigger] modes@[j]).code != code,
    {
        if modes[i].code == code {
            return true;
        }
    }
    false
}

/// Whether a list of zones has this one.
fn contains_zone(zones: &Vec<AuraZone>, zone: AuraZone) -> (found: bool)
    ensures
        found == zones@.contains(zone),
{
    for i in 0..zones.len()
        invariant
            forall|j: int| 0 <= j < i ==> zones@[j] != zone,
    {
        if zones[i] == zone {
            return true;
        }
    }
    false
}

impl LampArrayZbus {
    /// The current mode, unless another caller holds the settings.
    pub fn led_mode(config: Option<&AuraConfig>) -> (result: Result<AuraModeNum, LampError>)
        ensures
            result == match config {
                Some(held) => Ok::<AuraModeNum, LampError>(held.current_mode),
                None => Err(LampError::Locked),
            },
    {
        match config {
            Some(held) => Ok(held.current_mode),
            None => Err(LampError::Locked),
        }
    }

    /// The effect of the current mode, unless another caller holds the settings.
    pub fn led_mode_data(config: Option<&AuraConfig>) -> (result: Result<AuraEffect, LampError>)
        ensures
            result == match config {
                Some(held) => match held.current_effect() {
                    Some(effect) => Ok::<AuraEffect, LampError>(effect),
                    None => Err(LampError::NoEffect),
                },
                None => Err(LampError::Locked),
            },
    {
        match config {
            Some(held) => match held.effect() {
                Some(effect) => Ok(effect),
                None => Err(LampError::NoEffect),
            },
            None => Err(LampError::Locked),
        }
    }

    /// The effects of all modes, by mode number.
    pub fn all_mode_data(&self) -> (effects: BTreeMap<u8, AuraEffect>)
        ensures
            effects@ == self.config().builtins@,
    {
        self.0.config.builtins.clone()
    }

    /// The power states.
    pub fn led_power(&self) -> (power: LaptopAuraPower)
        ensures
            power.states@ == self.config().enabled.states@,
    {
        let states = self.0.config.enabled.states.clone();
        assert(states@ =~= self.config().enabled.states@);
        LaptopAuraPower { states }
    }

    /// Begins to set the brightness.
    pub fn set_brightness(&self, brightness: LedBrightness) -> (begun: Begun)
        ensures
            begun.requests@ == seq![LampRequest::SetBrightness(brightness)],
            begun.task == LampTask::Brightness(brightness),
            begun.requests@ == requests_of(begun.task),
    {
        Begun {
            requests: vec![LampRequest::SetBrightness(brightness)],
            task: LampTask::Brightness(brightness),
        }
    }

    /// Begins to switch to another mode, if the lamps support it; this lights lamps that are
    /// off. A mode that they do not support changes nothing.
    pub fn set_led_mode(&mut self, num: AuraModeNum) -> (result: Result<Begun, LampError>)
        ensures
            match result {
                Ok(begun) => {
                    &&& has_mode(old(self).config().support_data.basic_modes@, num.code)
                    &&& final(self).config() == (AuraConfig {
                        current_mode: num,
                        ..lit(old(self).config())
                    })
                    &&& begun.requests@ == seq![LampRequest::WriteCurrentMode]
                    &&& begun.task == LampTask::Mode(num, lit(old(self).config()).brightness)
                    &&& begun.requests@ == requests_of(begun.task)
                },
                Err(error) => {
                    &&& !has_mode(old(self).config().support_data.basic_modes@, num.code)
                    &&& *final(self) == *old(self)
                    &&& error == LampError::ModeNotSupported(num)
                },
            },
    {
        if !contains_mode(&self.0.config.support_data.basic_modes, num.code) {
            return Err(LampError::ModeNotSupported(num));
        }
        self.0.config.current_mode = num;
        if self.0.config.brightness == LedBrightness::Off {
            self.0.config.brightness = LedBrightness::Med;
        }
        Ok(
            Begun {
                requests: vec![LampRequest::WriteCurrentMode],
                task: LampTask::Mode(num, self.0.config.brightness),
            },
        )
    }

    /// Begins to show another effect, if the lamps support its mode and its zone; this lights
    /// lamps that are off. An effect that they do not support changes nothing.
    pub fn set_led_mode_data(&mut self, effect: AuraEffect) -> (result: Result<Begun, LampError>)
        ensures
            match result {
                Ok(begun) => {
                    &&& supports(old(self).config(), effect)
                    &&& final(self).config() == lit(old(self).config())
                    &&& begun.requests@ == seq![LampRequest::WriteEffect(effect)]
                    &&& begun.task == LampTask::ModeData(
                        effect,
                        lit(old(self).config()).brightness,
                    )
                    &&& begun.requests@ == requests_of(begun.task)
                },
                Err(error) => {
                    &&& !supports(old(self).config(), effect)
                    &&& *final(self) == *old(self)
                    &&& error == LampError::NotSupported(effect)
                },
            },
    {
        let support = &self.0.config.support_data;
        if !contains_mode(&support.basic_modes, effect.mode.code) || effect.zone
            != AuraZone::Unzoned && !contains_zone(&support.basic_zones, effect.zone) {
            return Err(LampError::NotSupported(effect));
        }
        if self.0.config.brightness == LedBrightness::Off {
            self.0.config.brightness = LedBrightness::Med;
        }
        Ok(
            Begun {
                requests: vec![LampRequest::WriteEffect(effect)],
                task: LampTask::ModeData(effect, self.0.config.brightness),
            },
        )
    }

    /// Begins to set power states: each option replaces the first state of its zone, and one
    /// for a zone that has no state is passed over. The settings are saved before the lamps
    /// are told.
    pub fn set_led_power(&mut self, options: &LaptopAuraPower) -> (begun: Begun)
        ensures
            final(self).config().enabled.states@ == merged(
                old(self).config().enabled.states@,
                options.states@,
            ),
            final(self).config() == (AuraConfig {
                enabled: final(self).config().enabled,
                ..old(self).config()
            }),
            begun.requests@ == seq![LampRequest::SaveConfig, LampRequest::SetAuraPower],
            begun.task == LampTask::Power,
            begun.requests@ == requests_of(begun.task),
    {
        let ghost before = self.config();
        for i in 0..options.states.len()
            invariant
                self.config().enabled.states@ == merged(
                    before.enabled.states@,
                    options.states@.subrange(0, i as int),
                ),
                self.config() == (AuraConfig { enabled: self.config().enabled, ..before }),
        {
            let ghost longer = options.states@.subrange(0, i + 1);
            assert(longer.drop_last() == options.states@.subrange(0, i as int));
            put_state(&mut self.0.config.enabled.states, options.states[i]);
        }
        assert(options.states@.subrange(0, options.states@.len() as int) == options.states@);
        Begun {
            requests: vec![LampRequest::SaveConfig, LampRequest::SetAuraPower],
            task: LampTask::Power,
        }
    }

    /// Lamps cannot be addressed one by one: nothing is done.
    pub fn direct_addressing_raw(_data: &Vec<Vec<u8>>) -> (requests: Vec<LampRequest>)
        ensures
            requests@ == Seq::<LampRequest>::empty(),
    {
        Vec::new()
    }

    /// Begins to show again what the settings say.
    pub fn reload(&self) -> (begun: Begun)
        ensures
            begun.requests@ == seq![LampRequest::WriteCurrentMode],
            begun.task == LampTask::Reload,
            begun.requests@ == requests_of(begun.task),
    {
        Begun { requests: vec![LampRequest::WriteCurrentMode], task: LampTask::Reload }
    }

    /// What to do when the machine goes to sleep or wakes: when it wakes, the current mode is
    /// shown again.
    pub fn on_sleep(sleeping: bool) -> (request: Option<LampRequest>)
        ensures
            request == if sleeping {
                None
            } else {
                Some(LampRequest::WriteCurrentMode)
            },
    {
        if sleeping {
            None
        } else {
            Some(LampRequest::WriteCurrentMode)
        }
    }

    /// What the host has to do after the last request of a change, before `settled`: nothing
    /// where that request failed, which ends the change and is what the client is told.
    pub fn shown(task: LampTask, succeeded: bool) -> (result: Result<Vec<LampRequest>, ()>)
        ensures
            match result {
                Ok(requests) => succeeded && requests@ == after_shown(task),
                Err(_) => !succeeded,
            },
    {
        if !succeeded {
            return Err(());
        }
        let requests: Vec<LampRequest> = match task {
            LampTask::Brightness(_) => Vec::new(),
            LampTask::Mode(_, _) => vec![LampRequest::ReadConfig],
            LampTask::ModeData(_, _) => vec![LampRequest::ReadConfig],
            LampTask::Power => Vec::new(),
            LampTask::Reload => vec![LampRequest::SetAuraPower],
        };
        Ok(requests)
    }

    /// What the requests that `shown` asked for amount to: an error ends the change before
    /// `store`. A reload has succeeded once the mode is shown, whatever became of the power
    /// states.
    pub fn settled(task: LampTask, succeeded: bool) -> (result: Result<(), ()>)
        ensures
            result is Ok <==> settles(task, succeeded),
    {
        match task {
            LampTask::Reload => Ok(()),
            _ => if succeeded {
                Ok(())
            } else {
                Err(())
            },
        }
    }

    /// Notes a change that was shown in the settings, and says what the host has to do for
    /// it to last.
    pub fn store(&mut self, task: LampTask) -> (requests: Vec<LampRequest>)
        ensures
            final(self).config() == stored(old(self).config(), task),
            requests@ == after_stored(task),
    {
        match task {
            LampTask::Brightness(brightness) => {
                self.0.config.brightness = brightness;
                vec![LampRequest::SaveConfig]
            },
            LampTask::Mode(num, brightness) => {
                self.0.config.current_mode = num;
                self.0.config.brightness = brightness;
                vec![LampRequest::SaveConfig]
            },
            LampTask::ModeData(effect, brightness) => {
                self.0.config.brightness = brightness;
                vec![LampRequest::SetBuiltin(effect), LampRequest::SaveConfig]
            },
            LampTask::Power => Vec::new(),
            LampTask::Reload => Vec::new(),
        }
    }
}

/// Where the file holds what the settings held, storing a mode or an effect that was begun
/// changes no more than beginning it did: the settings are then as they were shown.
pub proof fn law_storing_keeps_what_was_shown(
    config: AuraConfig,
    num: AuraModeNum,
    effect: AuraEffect,
)
    ensures
        ({
            let with_mode = AuraConfig { current_mode: num, ..lit(config) };
            stored(with_mode, LampTask::Mode(num, lit(config).brightness)) == with_mode
        }),
        stored(lit(config), LampTask::ModeData(effect, lit(config).brightness)) == lit(config),
{
}

/// A reload tells the power states after the mode, succeeds although that failed, and leaves
/// the settings and their file alone.
pub proof fn law_reload_needs_the_mode_alone(config: AuraConfig, power_told: bool)
    ensures
        after_shown(LampTask::Reload) == seq![LampRequest::SetAuraPower],
        settles(LampTask::Reload, power_told),
        stored(config, LampTask::Reload) == config,
        after_stored(LampTask::Reload) == Seq::<LampRequest>::empty(),
{
}

/// A brightness or a mode that was set is the one that is read, and the lights are then on
/// unless they were switched off.
pub proof fn law_what_is_set_is_read(
    config: AuraConfig,
    read_again: AuraConfig,
    brightness: LedBrightness,
    num: AuraModeNum,
)
    ensures
        stored(config, LampTask::Brightness(brightness)).brightness == brightness,
        ({
            let after = stored(read_again, LampTask::Mode(num, lit(config).brightness));
            after.current_mode == num && after.brightness != LedBrightness::Off
        }),
{
}

/// The last option for a zone.
pub open spec fn last_option(options: Seq<AuraPowerState>, zone: PowerZones) -> Option<
    AuraPowerState,
>
    decreases options.len(),
{
    if options.len() == 0 {
        None
    } else if options.last().zone == zone {
        Some(options.last())
    } else {
        last_option(options.drop_last(), zone)
    }
}

/// Which state comes first depends on the zones alone.
proof fn lemma_first_slot_by_zones(
    states: Seq<AuraPowerState>,
    other: Seq<AuraPowerState>,
    zone: PowerZones,
)
    requires
        states.len() == other.len(),
        forall|i: int| 0 <= i < states.len() ==> (#[trigger] states[i]).zone == other[i].zone,
    ensures
        first_slot(states, zone) == first_slot(other, zone),
    decreases states.len(),
{
    if states.len() > 0 {
        assert(forall|i: int|
            0 <= i < states.len() - 1 ==> (#[trigger] states.drop_last()[i]).zone
                == other.drop_last()[i].zone) by {
            assert(forall|i: int|
                0 <= i < states.len() - 1 ==> #[trigger] states.drop_last()[i] == states[i]);
        }
        lemma_first_slot_by_zones(states.drop_last(), other.drop_last(), zone);
    }
}

/// The first state of a zone is one of that zone.
proof fn lemma_first_slot_has_zone(states: Seq<AuraPowerState>, zone: PowerZones)
    ensures
        first_slot(states, zone) matches Some(i) ==> 0 <= i < states.len() && states[i].zone
            == zone,
    decreases states.len(),
{
    if states.len() > 0 {
        lemma_first_slot_has_zone(states.drop_last(), zone);
    }
}

/// Setting power states keeps every state in its place and zone. The first state of a zone
/// takes the last option for that zone, if there is one; every other state stays.
pub proof fn law_last_option_wins(states: Seq<AuraPowerState>, options: Seq<AuraPowerState>)
    ensures
        merged(states, options).len() == states.len(),
        forall|i: int|
            0 <= i < states.len() ==> (#[trigger] merged(states, options)[i]) == if first_slot(
                states,
                states[i].zone,
            ) == Some(i) && last_option(options, states[i].zone) is Some {
                last_option(options, states[i].zone)->0
            } else {
                states[i]
            },
        forall|i: int|
            0 <= i < states.len() ==> (#[trigger] merged(states, options)[i]).zone
                == states[i].zone,
    decreases options.len(),
{
    lemma_last_option_has_zone(options);
    if options.len() > 0 {
        let shorter = options.drop_last();
        let before = merged(states, shorter);
        law_last_option_wins(states, shorter);
        lemma_first_slot_by_zones(before, states, options.last().zone);
        lemma_first_slot_has_zone(states, options.last().zone);
    }
}

/// The last option for a zone is one for that zone.
proof fn lemma_last_option_has_zone(options: Seq<AuraPowerState>)
    ensures
        forall|zone: PowerZones| (#[trigger] last_option(options, zone)) matches Some(option)
            ==> option.zone == zone,
    decreases options.len(),
{
    if options.len() > 0 {
        let shorter = options.drop_last();
        lemma_last_option_has_zone(shorter);
        assert forall|zone: PowerZones| (#[trigger] last_option(options, zone)) is Some implies
            last_option(options, zone)->0.zone == zone by {
            assert(last_option(shorter, zone) matches Some(option) ==> option.zone == zone);
        }
    }
}

/// Setting the same power states again changes nothing.
pub proof fn law_setting_power_twice_is_once(
    states: Seq<AuraPowerState>,
    options: Seq<AuraPowerState>,
)
    ensures
        merged(merged(states, options), options) == merged(states, options),
{
    let once = merged(states, options);
    let twice = merged(once, options);
    law_last_option_wins(states, options);
    law_last_option_wins(once, options);
    assert forall|i: int| 0 <= i < once.len() implies once[i] == twice[i] by {
        assert(merged(states, options)[i].zone == states[i].zone);
        lemma_first_slot_by_zones(once, states, states[i].zone);
    }
    assert(once =~= twice);
}

/// Lighting lamps never leaves them off, and changes nothing where they are not off.
pub proof fn law_lights_come_on_once(config: AuraConfig)
    ensures
        lit(config).brightness != LedBrightness::Off,
        config.brightness != LedBrightness::Off ==> lit(config) == config,
        config.brightness == LedBrightness::Off ==> lit(config) == (AuraConfig {
            brightness: LedBrightness::Med,
            ..config
        }),
        lit(lit(config)) == lit(config),
{
}


/// Lamps support an effect exactly if its mode is one of theirs, by number, and it is for the
/// whole keyboard or for one of their zones. Nothing else about the effect matters.
pub proof fn law_support_is_by_mode_and_zone(config: AuraConfig, effect: AuraEffect, i: int, j: int)
    ensures
        ({
            let modes = config.support_data.basic_modes@;
            let zones = config.support_data.basic_zones@;
            let listed = 0 <= i < modes.len() && modes[i].code == effect.mode.code;
            let zoned = 0 <= j < zones.len() && zones[j] == effect.zone;
            &&& listed ==> has_mode(modes, effect.mode.code)
            &&& listed && effect.zone == AuraZone::Unzoned ==> supports(config, effect)
            &&& listed && zoned ==> supports(config, effect)
            &&& (forall|k: int|
                0 <= k < modes.len() ==> (#[trigger] modes[k]).code != effect.mode.code) ==> !has_mode(
                modes,
                effect.mode.code,
            ) && !supports(config, effect)
            &&& effect.zone != AuraZone::Unzoned && (forall|k: int|
                0 <= k < zones.len() ==> #[trigger] zones[k] != effect.zone) ==> !supports(
                config,
                effect,
            )
        }),
{
}

/// The first state of a zone is the one that no other of that zone comes before.
proof fn lemma_first_slot_is_first(states: Seq<AuraPowerState>, zone: PowerZones, i: int)
    requires
        0 <= i < states.len(),
        states[i].zone == zone,
        forall|j: int| 0 <= j < i ==> (#[trigger] states[j]).zone != zone,
    ensures
        first_slot(states, zone) == Some(i),
    decreases states.len(),
{
    let shorter = states.drop_last();
    if i < states.len() - 1 {
        assert(forall|j: int| 0 <= j < i ==> (#[trigger] shorter[j]).zone != zone) by {
            assert(forall|j: int| 0 <= j < i ==> #[trigger] shorter[j] == states[j]);
        }
        lemma_first_slot_is_first(shorter, zone, i);
    } else {
        lemma_first_slot_has_zone(shorter, zone);
        if let Some(k) = first_slot(shorter, zone) {
            assert(shorter[k] == states[k]);
        }
    }
}

/// The last option for a zone is the one that no other for that zone comes after.
proof fn lemma_last_option_is_last(options: Seq<AuraPowerState>, zone: PowerZones, k: int)
    requires
        -1 <= k < options.len(),
        k >= 0 ==> options[k].zone == zone,
        forall|j: int| k < j < options.len() ==> (#[trigger] options[j]).zone != zone,
    ensures
        k >= 0 ==> last_option(options, zone) == Some(options[k]),
        k < 0 ==> last_option(options, zone) is None,
    decreases options.len(),
{
    if options.len() > 0 && k < options.len() - 1 {
        let shorter = options.drop_last();
        assert(options[options.len() - 1].zone != zone);
        assert(forall|j: int| k < j < shorter.len() ==> (#[trigger] shorter[j]).zone != zone) by {
            assert(forall|j: int| 0 <= j < shorter.len() ==> #[trigger] shorter[j] == options[j]);
        }
        lemma_last_option_is_last(shorter, zone, k);
    }
}

/// What becomes of the state at a place: it stays, zone and bits, where another state of its
/// zone comes before it or no option is for its zone; else it is the last option for its zone.
pub proof fn law_power_states_take_their_options(
    states: Seq<AuraPowerState>,
    options: Seq<AuraPowerState>,
    i: int,
    earlier: int,
    k: int,
)
    requires
        0 <= i < states.len(),
    ensures
        merged(states, options).len() == states.len(),
        0 <= earlier < i && states[earlier].zone == states[i].zone ==> merged(states, options)[i]
            == states[i],
        (forall|j: int| 0 <= j < options.len() ==> (#[trigger] options[j]).zone != states[i].zone)
            ==> merged(states, options)[i] == states[i],
        (forall|j: int| 0 <= j < i ==> (#[trigger] states[j]).zone != states[i].zone) && 0 <= k
            < options.len() && options[k].zone == states[i].zone && (forall|j: int|
            k < j < options.len() ==> (#[trigger] options[j]).zone != states[i].zone) ==> merged(
            states,
            options,
        )[i] == options[k],
{
    law_last_option_wins(states, options);
    let zone = states[i].zone;
    let first = first_slot(states, zone);
    if 0 <= earlier < i && states[earlier].zone == zone {
        lemma_first_slot_before(states, zone, earlier);
    }
    if forall|j: int| 0 <= j < options.len() ==> (#[trigger] options[j]).zone != zone {
        lemma_last_option_is_last(options, zone, -1);
    }
    if (forall|j: int| 0 <= j < i ==> (#[trigger] states[j]).zone != zone) && 0 <= k
        < options.len() && options[k].zone == zone && (forall|j: int|
        k < j < options.len() ==> (#[trigger] options[j]).zone != zone) {
        lemma_first_slot_is_first(states, zone, i);
        lemma_last_option_is_last(options, zone, k);
    }
}

/// The first state of a zone comes no later than any other of that zone.
proof fn lemma_first_slot_before(states: Seq<AuraPowerState>, zone: PowerZones, i: int)
    requires
        0 <= i < states.len(),
        states[i].zone == zone,
    ensures
        first_slot(states, zone) matches Some(k) && k <= i,
    decreases states.len(),
{
    let shorter = states.drop_last();
    if i < states.len() - 1 {
        assert(shorter[i] == states[i]);
        lemma_first_slot_before(shorter, zone, i);
    } else {
        lemma_first_slot_has_zone(shorter, zone);
    }
}

/// What a change asks for once it is shown, and what it stores. A brightness and a mode are
/// stored with the brightness that was shown, an effect with its own request, and no other
/// setting changes; power states and a reload store nothing more.
pub proof fn law_changes_are_shown_then_stored(
    config: AuraConfig,
    brightness: LedBrightness,
    num: AuraModeNum,
    effect: AuraEffect,
)
    ensures
        ({
            let task = LampTask::Brightness(brightness);
            &&& after_shown(task).len() == 0
            &&& stored(config, task) == (AuraConfig { brightness, ..config })
            &&& after_stored(task) == seq![LampRequest::SaveConfig]
            &&& !settles(task, false) && settles(task, true)
        }),
        ({
            let task = LampTask::Mode(num, brightness);
            &&& after_shown(task) == seq![LampRequest::ReadConfig]
            &&& stored(config, task) == (AuraConfig { current_mode: num, brightness, ..config })
            &&& after_stored(task) == seq![LampRequest::SaveConfig]
            &&& !settles(task, false) && settles(task, true)
        }),
        ({
            let task = LampTask::ModeData(effect, brightness);
            &&& after_shown(task) == seq![LampRequest::ReadConfig]
            &&& stored(config, task) == (AuraConfig { brightness, ..config })
            &&& after_stored(task) == seq![LampRequest::SetBuiltin(effect), LampRequest::SaveConfig]
            &&& !settles(task, false) && settles(task, true)
        }),
        ({
            let task = LampTask::Power;
            &&& after_shown(task).len() == 0
            &&& stored(config, task) == config
            &&& after_stored(task).len() == 0
            &&& !settles(task, false) && settles(task, true)
        }),
{
}

/// What a client is told.
pub proof fn law_refusals_have_their_words(effect: AuraEffect, num: AuraModeNum)
    ensures
        LampError::Locked.text() == "LampArray control couldn't lock self"@,
        LampError::NoEffect.text() == "Could not get the current effect"@,
        LampError::NotSupported(effect).text() == "The Aura effect is not supported: "@,
        LampError::ModeNotSupported(num).text() == "The Aura mode is not supported: "@,
{
}


/// Each change is shown by its own request: the brightness and the effect that were asked for,
/// or the current mode. Power states are saved before they are told.
pub proof fn law_changes_ask_for_what_was_wanted(
    brightness: LedBrightness,
    shown: LedBrightness,
    num: AuraModeNum,
    effect: AuraEffect,
)
    ensures
        requests_of(LampTask::Brightness(brightness)).len() == 1,
        requests_of(LampTask::Brightness(brightness))[0] == LampRequest::SetBrightness(brightness),
        requests_of(LampTask::Mode(num, shown)).len() == 1,
        requests_of(LampTask::Mode(num, shown))[0] == LampRequest::WriteCurrentMode,
        requests_of(LampTask::ModeData(effect, shown)).len() == 1,
        requests_of(LampTask::ModeData(effect, shown))[0] == LampRequest::WriteEffect(effect),
        requests_of(LampTask::Power).len() == 2,
        requests_of(LampTask::Power)[0] == LampRequest::SaveConfig,
        requests_of(LampTask::Power)[1] == LampRequest::SetAuraPower,
        requests_of(LampTask::Reload).len() == 1,
        requests_of(LampTask::Reload)[0] == LampRequest::WriteCurrentMode,
{
}

} // verus!
