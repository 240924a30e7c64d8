//! The keyboard of a laptop: what has to be sent to it for an effect, a brightness or a
//! power state, over whichever of its interfaces it has.

use vstd::prelude::*;

use crate::aura::{
    AuraConfig, AuraDeviceType, AuraEffect, AuraModeNum, AuraPowerState, Colour, LedBrightness,
    ModeStyle, PowerZones, AURA_LAPTOP_LED_MSG_LEN,
};
use crate::lamp_array::{
    attributes_request, attributes_request_report, autonomous_off, autonomous_off_report, range_update,
    task_for,
};
use crate::script::{
    advanced, fresh, lemma_do_run, resumed, run, steps_view, AuraError, Command, CommandView, Outcome,
    ProgressView, Run, Script, ScriptView, Step, StepView,
};
use crate::text::copy_bytes;

verus! {

/// The size of the output report of a USB keyboard. Some controllers drop shorter ones.
pub const PADDED_LEN: usize = 64;

/// The type byte of a packet that lights each key on its own.
pub const PER_KEY_TYPE: u8 = 0xbc;

/// The interfaces that a keyboard has.
#[derive(Debug, Clone, Copy)]
pub struct Aura {
    /// It has a hidraw device.
    pub hid: bool,
    /// It has a backlight in sysfs.
    pub backlight: bool,
    /// It is driven as a HID lamp array, whatever else it has.
    pub is_lamparray: bool,
}

/// The fixed messages to a USB keyboard.
#[derive(Debug, Clone, Copy)]
pub struct LedMessages {
    /// Makes the effect that was sent the current one.
    pub set: [u8; AURA_LAPTOP_LED_MSG_LEN],
    /// Makes it last.
    pub apply: [u8; AURA_LAPTOP_LED_MSG_LEN],
}

/// The intensity of lamps at a brightness.
pub open spec fn intensity_at(brightness: LedBrightness) -> u8 {
    match brightness {
        LedBrightness::Off => 0,
        LedBrightness::Low => 64,
        LedBrightness::Med => 128,
        LedBrightness::High => 255,
    }
}

/// The brightness that a level stands for: levels above the highest count as the highest.
pub open spec fn brightness_at(level: u8) -> LedBrightness {
    if level == 0 {
        LedBrightness::Off
    } else if level == 1 {
        LedBrightness::Low
    } else if level == 2 {
        LedBrightness::Med
    } else {
        LedBrightness::High
    }
}

/// The brightness at which an effect is shown, where it may be that a caller further up holds
/// the settings.
pub open spec fn shown_brightness(known: Option<LedBrightness>) -> LedBrightness {
    match known {
        Some(level) => level,
        None => LedBrightness::Med,
    }
}

/// A message, filled up with zeros to the size of an output report.
pub open spec fn padded(message: Seq<u8>) -> Seq<u8> {
    message + Seq::new((PADDED_LEN - message.len()) as nat, |i: int| 0u8)
}

/// The steps before any report to the lamps: the host takes them over and learns how many
/// there are.
pub open spec fn claim_steps() -> Seq<StepView> {
    seq![
        StepView::Do(CommandView::SetFeature(autonomous_off())),
        StepView::Do(CommandView::GetFeature(attributes_request())),
    ]
}

/// What is left to do where there is no keyboard.
pub open spec fn no_keyboard() -> Seq<StepView> {
    seq![StepView::Refuse(AuraError::NoAuraKeyboard)]
}

/// The steps that abort a running animation.
pub open spec fn stop_steps() -> Seq<StepView> {
    seq![StepView::Do(CommandView::StopEffect)]
}

/// Writes an output report of the size that every controller accepts.
pub open spec fn padded_write(message: Seq<u8>) -> StepView {
    StepView::Do(CommandView::WriteBytes(padded(message)))
}

/// Whether one of the states has the lights of its zone powered at some time.
pub open spec fn any_powered(states: Seq<AuraPowerState>) -> bool {
    exists|i: int| 0 <= i < states.len() && (#[trigger] states[i]).bits != 0
}

impl Aura {
    /// Gives all lamps one colour.
    pub open spec fn push_steps(self, colour: Colour, intensity: u8) -> Seq<StepView> {
        if self.hid {
            claim_steps().push(StepView::PushColour(colour, intensity))
        } else {
            no_keyboard()
        }
    }

    /// Animates the lamps.
    pub open spec fn animate_steps(self, effect: AuraEffect, intensity: u8) -> Seq<StepView> {
        if self.hid {
            claim_steps().push(StepView::Animate(effect, intensity))
        } else {
            no_keyboard()
        }
    }

    /// Shows an effect on the lamps: what was running is aborted first, then an effect that
    /// moves is animated and any other is sent once.
    pub open spec fn lamp_effect_steps(self, effect: AuraEffect, brightness: LedBrightness) -> Seq<
        StepView,
    > {
        stop_steps() + if effect.mode.style.moves() {
            self.animate_steps(effect, intensity_at(brightness))
        } else {
            self.push_steps(effect.colour1, intensity_at(brightness))
        }
    }

    /// Shows an effect on a keyboard that animates by itself.
    pub open spec fn keyboard_effect_steps(
        self,
        dev_type: AuraDeviceType,
        effect: AuraEffect,
        messages: LedMessages,
    ) -> Seq<StepView> {
        if dev_type == AuraDeviceType::LaptopKeyboardTuf {
            if self.backlight {
                seq![
                    StepView::Do(
                        CommandView::SetKbdRgbMode(
                            seq![
                                1u8,
                                effect.mode.code,
                                effect.colour1.r,
                                effect.colour1.g,
                                effect.colour1.b,
                                effect.speed_code,
                            ],
                        ),
                    ),
                ]
            } else {
                Seq::empty()
            }
        } else if self.hid {
            seq![
                padded_write(effect.message@),
                padded_write(messages.set@),
                padded_write(messages.apply@),
            ]
        } else {
            no_keyboard()
        }
    }

    /// Shows an effect on a device of a type, with the brightness that is known.
    pub open spec fn apply_steps(
        self,
        dev_type: AuraDeviceType,
        effect: AuraEffect,
        brightness: Option<LedBrightness>,
        messages: LedMessages,
    ) -> Seq<StepView> {
        if self.is_lamparray {
            self.lamp_effect_steps(effect, shown_brightness(brightness))
        } else {
            self.keyboard_effect_steps(dev_type, effect, messages)
        }
    }

    /// Shows an effect with the brightness of the settings.
    pub open spec fn effect_steps(
        self,
        config: AuraConfig,
        effect: AuraEffect,
        messages: LedMessages,
    ) -> Seq<StepView> {
        if self.is_lamparray {
            self.lamp_effect_steps(effect, config.brightness)
        } else {
            self.keyboard_effect_steps(config.led_type, effect, messages)
        }
    }

    /// Shows the effects of several zones, one after the other.
    pub open spec fn zone_steps(
        self,
        config: AuraConfig,
        effects: Seq<AuraEffect>,
        messages: LedMessages,
    ) -> Seq<StepView>
        decreases effects.len(),
    {
        if effects.len() == 0 {
            Seq::empty()
        } else {
            self.zone_steps(config, effects.drop_last(), messages) + self.effect_steps(
                config,
                effects.last(),
                messages,
            )
        }
    }

    /// Shows the effects that the settings hold for the zones of a mode, if any.
    pub open spec fn mode_zone_steps(
        self,
        config: AuraConfig,
        mode: AuraModeNum,
        messages: LedMessages,
    ) -> Seq<StepView> {
        if has_zones(config, mode) {
            self.zone_steps(config, config.multizone->0@[mode.code]@, messages)
        } else {
            Seq::empty()
        }
    }

    /// Shows the effect that the settings hold for the current mode, if any.
    pub open spec fn builtin_steps(self, config: AuraConfig, messages: LedMessages) -> Seq<
        StepView,
    > {
        match config.current_effect() {
            Some(effect) => self.effect_steps(config, effect, messages),
            None => Seq::empty(),
        }
    }

    /// Shows the current mode of the settings, once they hold what its zones need.
    pub open spec fn current_steps(self, config: AuraConfig, messages: LedMessages) -> Seq<
        StepView,
    > {
        if config.multizone_on {
            self.mode_zone_steps(config, config.current_mode, messages)
        } else {
            self.builtin_steps(config, messages)
        }
    }

    /// Powers the lights of the lamps: all of them, as soon as one zone is powered.
    pub open spec fn lamp_power_steps(self, config: AuraConfig) -> Seq<StepView> {
        stop_steps() + self.push_steps(
            config.current_colour(),
            if any_powered(config.enabled.states@) {
                255
            } else {
                0
            },
        )
    }
}

/// Whether the settings hold effects for the zones of a mode.
pub open spec fn has_zones(config: AuraConfig, mode: AuraModeNum) -> bool {
    config.multizone is Some && config.multizone->0@.contains_key(mode.code)
}

/// Whether default effects have to be made up for the zones of the current mode.
pub open spec fn needs_default(config: AuraConfig) -> bool {
    config.multizone_on && !has_zones(config, config.current_mode)
}

/// How the current mode is shown.
pub enum CurrentMode {
    /// The settings hold no effects for the zones of this mode: the host has to make up
    /// default ones first, and then to call `write_zones`.
    NeedsDefault(AuraModeNum),
    Ready(Script),
}

/// Fills a message up with zeros to the size of an output report.
pub fn pad(message: &[u8; AURA_LAPTOP_LED_MSG_LEN]) -> (bytes: Vec<u8>)
    ensures
        bytes@ == padded(message@),
{
    let mut bytes = copy_bytes(message.as_slice());
    while bytes.len() < PADDED_LEN
        invariant
            AURA_LAPTOP_LED_MSG_LEN <= bytes@.len() <= PADDED_LEN,
            bytes@ == message@ + Seq::new(
                (bytes@.len() - AURA_LAPTOP_LED_MSG_LEN) as nat,
                |i: int| 0u8,
            ),
        decreases PADDED_LEN - bytes@.len(),
    {
        let ghost before = bytes@;
        bytes.push(0);
        assert(bytes@ == message@ + Seq::new(
            (bytes@.len() - AURA_LAPTOP_LED_MSG_LEN) as nat,
            |i: int| 0u8,
        ));
    }
    bytes
}

/// The step that writes a message, filled up.
fn write_padded(message: &[u8; AURA_LAPTOP_LED_MSG_LEN]) -> (step: Step)
    ensures
        step@ == padded_write(message@),
{
    Step::Do(Command::WriteBytes(pad(message)))
}

/// Joins two lists of steps.
proof fn lemma_steps_view_concat(head: Seq<Step>, tail: Seq<Step>)
    ensures
        steps_view(head + tail) == steps_view(head) + steps_view(tail),
{
    assert(steps_view(head + tail) =~= steps_view(head) + steps_view(tail));
}

/// Whether one of the states has the lights of its zone powered at some time.
fn any_on(states: &Vec<AuraPowerState>) -> (on: bool)
    ensures
        on == any_powered(states@),
{
    for i in 0..states.len()
        invariant
            forall|j: int| 0 <= j < i ==> (#[trigger] states@[j]).bits == 0,
    {
        if states[i].bits != 0 {
            return true;
        }
    }
    false
}

impl Aura {
    /// The intensity of lamps at a brightness.
    pub fn brightness_to_intensity(b: LedBrightness) -> (intensity: u8)
        ensures
            intensity == intensity_at(b),
    {
        match b {
            LedBrightness::Off => 0,
            LedBrightness::Low => 64,
            LedBrightness::Med => 128,
            LedBrightness::High => 255,
        }
    }

    /// Gives all lamps one colour at an intensity.
    fn lamparray_push_rgb_i(&self, colour: Colour, intensity: u8) -> (steps: Vec<Step>)
        ensures
            steps_view(steps@) == self.push_steps(colour, intensity),
    {
        let steps: Vec<Step> = if self.hid {
            vec![
                Step::Do(Command::SetFeature(autonomous_off_report())),
                Step::Do(Command::GetFeature(attributes_request_report())),
                Step::PushColour(colour, intensity),
            ]
        } else {
            vec![Step::Refuse(AuraError::NoAuraKeyboard)]
        };
        assert(steps_view(steps@) =~= self.push_steps(colour, intensity));
        steps
    }

    /// Animates the lamps, up to an intensity.
    fn lamparray_spawn_effect(&self, effect: &AuraEffect, intensity: u8) -> (steps: Vec<Step>)
        ensures
            steps_view(steps@) == self.animate_steps(*effect, intensity),
    {
        let steps: Vec<Step> = if self.hid {
            vec![
                Step::Do(Command::SetFeature(autonomous_off_report())),
                Step::Do(Command::GetFeature(attributes_request_report())),
                Step::Animate(*effect, intensity),
            ]
        } else {
            vec![Step::Refuse(AuraError::NoAuraKeyboard)]
        };
        assert(steps_view(steps@) =~= self.animate_steps(*effect, intensity));
        steps
    }

    /// Aborts what is running, then goes on with `rest`.
    fn stop_first(rest: Vec<Step>) -> (steps: Vec<Step>)
        ensures
            steps_view(steps@) == stop_steps() + steps_view(rest@),
    {
        let mut rest = rest;
        let ghost tail = rest@;
        let mut steps: Vec<Step> = vec![Step::Do(Command::StopEffect)];
        assert(steps_view(steps@) =~= stop_steps());
        proof {
            lemma_steps_view_concat(steps@, tail);
        }
        steps.append(&mut rest);
        steps
    }

    fn lamp_effect(&self, effect: &AuraEffect, brightness: LedBrightness) -> (steps: Vec<Step>)
        ensures
            steps_view(steps@) == self.lamp_effect_steps(*effect, brightness),
    {
        let intensity: u8 = Aura::brightness_to_intensity(brightness);
        match effect.mode.style {
            ModeStyle::Static | ModeStyle::Other => Aura::stop_first(
                self.lamparray_push_rgb_i(effect.colour1, intensity),
            ),
            _ => Aura::stop_first(self.lamparray_spawn_effect(effect, intensity)),
        }
    }

    /// Shows an effect on the lamps. The brightness is that of the settings, or `None` where
    /// a caller further up holds them: then it is taken to be medium.
    pub fn lamparray_write_effect(
        &self,
        effect: &AuraEffect,
        brightness: Option<LedBrightness>,
    ) -> (script: Script)
        ensures
            script@ == fresh(
                self.lamp_effect_steps(
                    *effect,
                    match brightness {
                        Some(level) => level,
                        None => LedBrightness::Med,
                    },
                ),
            ),
            script@ == fresh(self.lamp_effect_steps(*effect, shown_brightness(brightness))),
    {
        let level = match brightness {
            Some(level) => level,
            None => LedBrightness::Med,
        };
        Script::new(self.lamp_effect(effect, level))
    }

    /// Shows an effect on the lamps, for callers that hold the settings.
    pub fn lamparray_write_effect_locked(&self, config: &AuraConfig, effect: &AuraEffect) -> (script:
        Script)
        ensures
            script@ == fresh(self.lamp_effect_steps(*effect, config.brightness)),
    {
        Script::new(self.lamp_effect(effect, config.brightness))
    }

    fn keyboard_effect(
        &self,
        dev_type: AuraDeviceType,
        effect: &AuraEffect,
        messages: &LedMessages,
    ) -> (steps: Vec<Step>)
        ensures
            steps_view(steps@) == self.keyboard_effect_steps(dev_type, *effect, *messages),
    {
        let ghost shown = self.keyboard_effect_steps(dev_type, *effect, *messages);
        let steps: Vec<Step> = if dev_type == AuraDeviceType::LaptopKeyboardTuf {
            if self.backlight {
                let mode: Vec<u8> = vec![
                    1,
                    effect.mode.code,
                    effect.colour1.r,
                    effect.colour1.g,
                    effect.colour1.b,
                    effect.speed_code,
                ];
                vec![Step::Do(Command::SetKbdRgbMode(mode))]
            } else {
                Vec::new()
            }
        } else if self.hid {
            vec![
                write_padded(&effect.message),
                write_padded(&messages.set),
                write_padded(&messages.apply),
            ]
        } else {
            vec![Step::Refuse(AuraError::NoAuraKeyboard)]
        };
        assert(steps_view(steps@) =~= shown);
        steps
    }

    /// Shows an effect on a device of type `dev_type`, for callers that do not hold the
    /// settings. On lamps the brightness is that of the settings, or medium where it is
    /// `None`.
    pub fn write_effect_and_apply(
        &self,
        dev_type: AuraDeviceType,
        effect: &AuraEffect,
        brightness: Option<LedBrightness>,
        messages: &LedMessages,
    ) -> (script: Script)
        ensures
            script@ == fresh(
                if self.is_lamparray {
                    self.lamp_effect_steps(
                        *effect,
                        match brightness {
                            Some(level) => level,
                            None => LedBrightness::Med,
                        },
                    )
                } else {
                    self.keyboard_effect_steps(dev_type, *effect, *messages)
                },
            ),
            script@ == fresh(self.apply_steps(dev_type, *effect, brightness, *messages)),
    {
        if self.is_lamparray {
            self.lamparray_write_effect(effect, brightness)
        } else {
            Script::new(self.keyboard_effect(dev_type, effect, messages))
        }
    }

    fn effect(&self, config: &AuraConfig, effect: &AuraEffect, messages: &LedMessages) -> (steps:
        Vec<Step>)
        ensures
            steps_view(steps@) == self.effect_steps(*config, *effect, *messages),
    {
        if self.is_lamparray {
            self.lamp_effect(effect, config.brightness)
        } else {
            self.keyboard_effect(config.led_type, effect, messages)
        }
    }

    /// Shows the current mode of the settings: the effects of its zones where zones are on,
    /// else its one effect.
    pub fn write_current_config_mode(&self, config: &AuraConfig, messages: &LedMessages) -> (shown:
        CurrentMode)
        ensures
            match shown {
                CurrentMode::NeedsDefault(mode) => config.multizone_on && !has_zones(*config, mode)
                    && mode == config.current_mode,
                CurrentMode::Ready(script) => if config.multizone_on {
                    has_zones(*config, config.current_mode) && script@ == fresh(
                        self.mode_zone_steps(*config, config.current_mode, *messages),
                    )
                } else {
                    script@ == fresh(self.builtin_steps(*config, *messages))
                },
            },
            shown is NeedsDefault <==> needs_default(*config),
            shown matches CurrentMode::Ready(script) ==> script@ == fresh(
                self.current_steps(*config, *messages),
            ),
    {
        let mode = config.current_mode;
        if config.multizone_on {
            let held = match &config.multizone {
                None => false,
                Some(zones) => zones.contains_key(&mode.code),
            };
            if !held {
                return CurrentMode::NeedsDefault(mode);
            }
            CurrentMode::Ready(self.write_zones(config, mode, messages))
        } else {
            let steps: Vec<Step> = match config.effect() {
                Some(effect) => self.effect(config, &effect, messages),
                None => Vec::new(),
            };
            assert(steps_view(steps@) =~= self.builtin_steps(*config, *messages));
            CurrentMode::Ready(Script::new(steps))
        }
    }

    /// Shows the effects that the settings hold for the zones of a mode, if any.
    pub fn write_zones(&self, config: &AuraConfig, mode: AuraModeNum, messages: &LedMessages) -> (
    script: Script)
        ensures
            script@ == fresh(self.mode_zone_steps(*config, mode, *messages)),
    {
        let mut steps: Vec<Step> = Vec::new();
        assert(steps_view(steps@) =~= Seq::<StepView>::empty());
        if let Some(zones) = &config.multizone {
            if let Some(effects) = zones.get(&mode.code) {
                assert(has_zones(*config, mode));
                assert(effects@ == config.multizone->0@[mode.code]@);
                for i in 0..effects.len()
                    invariant
                        steps_view(steps@) == self.zone_steps(
                            *config,
                            effects@.subrange(0, i as int),
                            *messages,
                        ),
                {
                    let mut more = self.effect(config, &effects[i], messages);
                    proof {
                        lemma_steps_view_concat(steps@, more@);
                        let longer = effects@.subrange(0, i + 1);
                        assert(longer.drop_last() == effects@.subrange(0, i as int));
                        assert(longer.last() == effects@[i as int]);
                    }
                    steps.append(&mut more);
                }
                assert(effects@.subrange(0, effects@.len() as int) == effects@);
            }
        }
        Script::new(steps)
    }
}

/// Where the brightness comes from that the settings are to be saved with.
#[derive(Debug, Clone, Copy, PartialEq, Eq, Structural)]
pub enum BrightnessSource {
    /// The settings themselves.
    Settings,
    /// The backlight, which the host has to read.
    Backlight,
}

/// The brightness that the settings are to be saved with.
#[derive(Debug, Clone, Copy, PartialEq, Eq, Structural)]
pub enum BrightnessUpdate {
    /// The one that they had before their file was read again.
    Keep(LedBrightness),
    /// The one that this level of the backlight stands for.
    Level(u8),
}

/// What the host has to do to the settings, in order.
#[derive(Debug, Clone, Copy, PartialEq, Eq, Structural)]
pub enum ConfigRequest {
    /// Read them from their file again.
    Read,
    /// Set this brightness in them.
    SetBrightness(BrightnessUpdate),
    /// Write them to their file.
    Save,
}

/// The message that resets the power settings of an Ally.
pub open spec fn ally_reset() -> Seq<u8> {
    seq![0x5d, 0xbd, 0x01, 0xff, 0xff, 0xff, 0xff]
}

/// The message that sets the power state of an Ally; it has room for the low byte.
pub open spec fn ally_power(bits: u32) -> Seq<u8> {
    seq![0x5d, 0xd1, 0x09, 0x01, (bits % 256) as u8, 0x00, 0x00]
}

/// The message that sets the power states of a keyboard.
pub open spec fn keyboard_power(bytes: Seq<u8>) -> Seq<u8> {
    seq![0x5d, 0xbd, 0x01, bytes[0], bytes[1], bytes[2], bytes[3]]
}

/// Whether the first power state is that of an Ally.
pub open spec fn ally_first(states: Seq<AuraPowerState>) -> bool {
    states.len() > 0 && states[0].zone == PowerZones::Ally
}

/// The steps that write the rows of an effect, each as it is.
pub open spec fn row_writes(rows: Seq<Vec<u8>>) -> Seq<StepView> {
    rows.map_values(|row: Vec<u8>| StepView::Do(CommandView::WriteBytes(row@)))
}

/// The steps that show the rows of an effect on a backlight, which has one colour: it takes
/// that of each row in turn.
pub open spec fn row_colours(rows: Seq<Vec<u8>>) -> Seq<StepView> {
    rows.map_values(
        |row: Vec<u8>|
            StepView::Do(
                CommandView::SetKbdRgbMode(seq![0u8, 0u8, row@[9], row@[10], row@[11], 0u8]),
            ),
    )
}

impl Aura {
    /// What brings the settings up to date, given the level of the backlight.
    pub open spec fn config_update(self, config: AuraConfig, reading: Option<u8>) -> Seq<
        ConfigRequest,
    > {
        seq![
            ConfigRequest::Read,
            ConfigRequest::SetBrightness(
                if !self.is_lamparray && self.backlight {
                    BrightnessUpdate::Level(
                        match reading {
                            Some(level) => level,
                            None => 0,
                        },
                    )
                } else {
                    BrightnessUpdate::Keep(config.brightness)
                },
            ),
            ConfigRequest::Save,
        ]
    }

    /// Sets the brightness of the lamps or of the backlight.
    pub open spec fn brightness_steps(self, colour: Colour, value: u8) -> Seq<StepView> {
        if self.is_lamparray {
            self.push_steps(colour, intensity_at(brightness_at(value)))
        } else if self.backlight {
            seq![StepView::Do(CommandView::SetBacklight(value))]
        } else {
            seq![StepView::Refuse(AuraError::NoBacklight)]
        }
    }

    /// Sets the power states. `bytes` is how the device encodes those of the settings.
    pub open spec fn power_steps(self, config: AuraConfig, bytes: Seq<u8>) -> Seq<StepView> {
        if self.is_lamparray {
            self.lamp_power_steps(config)
        } else if config.led_type == AuraDeviceType::LaptopKeyboardTuf {
            if self.backlight {
                seq![StepView::Do(CommandView::SetKbdRgbState(bytes))]
            } else {
                Seq::empty()
            }
        } else if self.hid {
            if ally_first(config.enabled.states@) {
                seq![
                    StepView::Do(
                        CommandView::WriteBytes(ally_power(config.enabled.states@[0].bits)),
                    ),
                ]
            } else {
                seq![StepView::Do(CommandView::WriteBytes(keyboard_power(bytes)))]
            }
        } else {
            Seq::empty()
        }
    }

    /// Whether the power states go out as four bytes.
    pub open spec fn sends_power_bytes(self, config: AuraConfig) -> bool {
        &&& !self.is_lamparray
        &&& config.led_type != AuraDeviceType::LaptopKeyboardTuf
        &&& self.hid
        &&& !ally_first(config.enabled.states@)
    }

    /// Whether the rows of an effect go to a backlight.
    pub open spec fn sends_row_colours(self, config: AuraConfig) -> bool {
        &&& !self.hid
        &&& config.led_type == AuraDeviceType::LaptopKeyboardTuf
        &&& self.backlight
    }

    /// The settings while an effect block is shown: the lights are not off.
    pub open spec fn lit_config(self, config: AuraConfig) -> AuraConfig {
        AuraConfig {
            brightness: if config.brightness == LedBrightness::Off {
                LedBrightness::Med
            } else {
                config.brightness
            },
            ..config
        }
    }

    /// The steps that show an effect block.
    pub open spec fn block_steps(
        self,
        config: AuraConfig,
        rows: Seq<Vec<u8>>,
        init: Seq<u8>,
        messages: LedMessages,
    ) -> Seq<StepView> {
        let saved = if config.brightness == LedBrightness::Off {
            seq![StepView::Do(CommandView::SaveConfig)]
        } else {
            Seq::empty()
        };
        saved + if self.hid {
            if rows[0]@[1] != PER_KEY_TYPE {
                seq![
                    StepView::SetPerKeyMode(false),
                    StepView::Do(CommandView::WriteBytes(rows[0]@)),
                    StepView::Do(CommandView::WriteBytes(messages.set@)),
                ]
            } else if !config.per_key_mode_active {
                seq![
                    StepView::Do(CommandView::WriteBytes(init)),
                    StepView::SetPerKeyMode(true),
                ] + row_writes(rows)
            } else {
                row_writes(rows)
            }
        } else if self.sends_row_colours(config) {
            row_colours(rows)
        } else {
            Seq::empty()
        }
    }

    /// The steps that reset the power settings of an Ally, once.
    pub open spec fn ally_steps(self, config: AuraConfig) -> Seq<StepView> {
        if config.led_type == AuraDeviceType::Ally && self.hid {
            if config.ally_fix is None {
                seq![
                    StepView::Do(CommandView::WriteBytes(ally_reset())),
                    StepView::SetAllyFix,
                    StepView::Do(CommandView::SaveConfig),
                ]
            } else {
                seq![StepView::Do(CommandView::SaveConfig)]
            }
        } else {
            Seq::empty()
        }
    }
}

/// The steps that write the rows of an effect.
fn write_rows(rows: &Vec<Vec<u8>>) -> (steps: Vec<Step>)
    ensures
        steps_view(steps@) == row_writes(rows@),
{
    let mut steps: Vec<Step> = Vec::new();
    for i in 0..rows.len()
        invariant
            steps@.len() == i,
            forall|j: int| 0 <= j < i ==> (#[trigger] steps@[j])@ == row_writes(rows@)[j],
    {
        steps.push(Step::Do(Command::WriteBytes(copy_bytes(rows[i].as_slice()))));
    }
    assert(steps_view(steps@) =~= row_writes(rows@));
    steps
}

/// The steps that show the colour of each row on a backlight.
fn write_row_colours(rows: &Vec<Vec<u8>>) -> (steps: Vec<Step>)
    requires
        forall|i: int| 0 <= i < rows@.len() ==> (#[trigger] rows@[i])@.len() > 11,
    ensures
        steps_view(steps@) == row_colours(rows@),
{
    let mut steps: Vec<Step> = Vec::new();
    for i in 0..rows.len()
        invariant
            forall|i: int| 0 <= i < rows@.len() ==> (#[trigger] rows@[i])@.len() > 11,
            steps@.len() == i,
            forall|j: int| 0 <= j < i ==> (#[trigger] steps@[j])@ == row_colours(rows@)[j],
    {
        let row = &rows[i];
        let mode: Vec<u8> = vec![0, 0, row[9], row[10], row[11], 0];
        assert(mode@ =~= seq![0u8, 0u8, row@[9], row@[10], row@[11], 0u8]);
        steps.push(Step::Do(Command::SetKbdRgbMode(mode)));
    }
    assert(steps_view(steps@) =~= row_colours(rows@));
    steps
}

impl Aura {
    /// There is nothing to initialise.
    pub fn do_initialization(&self) -> (script: Script)
        ensures
            script@ == fresh(Seq::empty()),
    {
        let steps: Vec<Step> = Vec::new();
        assert(steps_view(steps@) =~= Seq::<StepView>::empty());
        Script::new(steps)
    }

    /// Where the brightness comes from that the settings are to be saved with. Lamps have no
    /// backlight: theirs is in the settings alone.
    pub fn brightness_source(&self) -> (source: BrightnessSource)
        ensures
            source == if !self.is_lamparray && self.backlight {
                BrightnessSource::Backlight
            } else {
                BrightnessSource::Settings
            },
    {
        if self.is_lamparray {
            BrightnessSource::Settings
        } else if self.backlight {
            BrightnessSource::Backlight
        } else {
            BrightnessSource::Settings
        }
    }

    /// Brings the settings up to date: their file is read again, they get the brightness that
    /// the keyboard has, and they are saved. `reading` is the level of the backlight, where it
    /// could be read; one that could not be read counts as zero.
    pub fn update_config(&self, config: &AuraConfig, reading: Option<u8>) -> (requests: Vec<
        ConfigRequest,
    >)
        ensures
            requests@ == seq![
                ConfigRequest::Read,
                ConfigRequest::SetBrightness(
                    if !self.is_lamparray && self.backlight {
                        BrightnessUpdate::Level(
                            match reading {
                                Some(level) => level,
                                None => 0,
                            },
                        )
                    } else {
                        BrightnessUpdate::Keep(config.brightness)
                    },
                ),
                ConfigRequest::Save,
            ],
            requests@ == self.config_update(*config, reading),
    {
        let update = match self.brightness_source() {
            BrightnessSource::Settings => BrightnessUpdate::Keep(config.brightness),
            BrightnessSource::Backlight => match reading {
                Some(level) => BrightnessUpdate::Level(level),
                None => BrightnessUpdate::Level(0),
            },
        };
        vec![ConfigRequest::Read, ConfigRequest::SetBrightness(update), ConfigRequest::Save]
    }

    fn level_to_brightness(value: u8) -> (level: LedBrightness)
        ensures
            level == brightness_at(value),
    {
        match value {
            0 => LedBrightness::Off,
            1 => LedBrightness::Low,
            2 => LedBrightness::Med,
            _ => LedBrightness::High,
        }
    }

    /// Sets the brightness of the lamps in the colour of the current mode, and notes it in
    /// the settings.
    pub fn lamparray_set_brightness(&self, config: &mut AuraConfig, value: u8) -> (script: Script)
        ensures
            *final(config) == (AuraConfig { brightness: brightness_at(value), ..*old(config) }),
            script@ == fresh(
                self.push_steps(
                    old(config).current_colour(),
                    intensity_at(brightness_at(value)),
                ),
            ),
    {
        let level = Aura::level_to_brightness(value);
        let colour = config.colour();
        config.brightness = level;
        Script::new(self.lamparray_push_rgb_i(colour, Aura::brightness_to_intensity(level)))
    }

    /// Sets the brightness of the lamps where a caller further up holds the settings: the
    /// colour is then not known, and white is taken.
    pub fn lamparray_set_brightness_unlocked(&self, value: u8) -> (script: Script)
        ensures
            script@ == fresh(
                self.push_steps(crate::aura::white(), intensity_at(brightness_at(value))),
            ),
    {
        let intensity: u8 = Aura::brightness_to_intensity(Aura::level_to_brightness(value));
        Script::new(
            self.lamparray_push_rgb_i(Colour { r: 0xff, g: 0xff, b: 0xff }, intensity),
        )
    }

    /// Sets the brightness of the backlight.
    fn backlight_brightness(&self, value: u8) -> (script: Script)
        requires
            !self.is_lamparray,
        ensures
            forall|colour: Colour| script@ == fresh(#[trigger] self.brightness_steps(colour, value)),
    {
        let steps: Vec<Step> = if self.backlight {
            vec![Step::Do(Command::SetBacklight(value))]
        } else {
            vec![Step::Refuse(AuraError::NoBacklight)]
        };
        assert(forall|colour: Colour|
            steps_view(steps@) =~= #[trigger] self.brightness_steps(colour, value));
        Script::new(steps)
    }

    /// Sets the brightness. Only that of lamps is noted in the settings.
    pub fn set_brightness(&self, config: &mut AuraConfig, value: u8) -> (script: Script)
        ensures
            *final(config) == if self.is_lamparray {
                AuraConfig { brightness: brightness_at(value), ..*old(config) }
            } else {
                *old(config)
            },
            script@ == fresh(self.brightness_steps(old(config).current_colour(), value)),
    {
        if self.is_lamparray {
            self.lamparray_set_brightness(config, value)
        } else {
            self.backlight_brightness(value)
        }
    }

    /// Sets the brightness where a caller further up holds the settings.
    pub fn set_brightness_unlocked(&self, value: u8) -> (script: Script)
        ensures
            script@ == fresh(self.brightness_steps(crate::aura::white(), value)),
    {
        if self.is_lamparray {
            self.lamparray_set_brightness_unlocked(value)
        } else {
            self.backlight_brightness(value)
        }
    }

    fn lamp_power(&self, config: &AuraConfig) -> (steps: Vec<Step>)
        ensures
            steps_view(steps@) == self.lamp_power_steps(*config),
    {
        let intensity: u8 = if any_on(&config.enabled.states) {
            255
        } else {
            0
        };
        Aura::stop_first(self.lamparray_push_rgb_i(config.colour(), intensity))
    }

    /// Powers the lamps: a running animation is aborted, and they are fully lit in the colour
    /// of the current mode if any zone is powered, else dark.
    pub fn lamparray_set_aura_power(&self, config: &AuraConfig) -> (script: Script)
        ensures
            script@ == fresh(self.lamp_power_steps(*config)),
    {
        Script::new(self.lamp_power(config))
    }

    /// Whether `set_power_states` sends the first four of the bytes that it is given.
    pub fn needs_power_bytes(&self, config: &AuraConfig) -> (needed: bool)
        ensures
            needed == self.sends_power_bytes(*config),
    {
        let states = &config.enabled.states;
        let ally = states.len() > 0 && states[0].zone == PowerZones::Ally;
        !self.is_lamparray && config.led_type != AuraDeviceType::LaptopKeyboardTuf && self.hid
            && !ally
    }

    /// Whether `write_effect_block` takes a colour from each row.
    pub fn needs_row_colours(&self, config: &AuraConfig) -> (needed: bool)
        ensures
            needed == self.sends_row_colours(*config),
    {
        !self.hid && config.led_type == AuraDeviceType::LaptopKeyboardTuf && self.backlight
    }

    /// Sets the power states of the settings. `bytes` is how the device encodes them.
    pub fn set_power_states(&self, config: &AuraConfig, bytes: &[u8]) -> (script: Script)
        requires
            self.sends_power_bytes(*config) ==> bytes@.len() >= 4,
        ensures
            script@ == fresh(self.power_steps(*config, bytes@)),
    {
        let ghost sent = self.power_steps(*config, bytes@);
        if self.is_lamparray {
            return self.lamparray_set_aura_power(config);
        }
        let mut steps: Vec<Step> = Vec::new();
        if config.led_type == AuraDeviceType::LaptopKeyboardTuf {
            if self.backlight {
                steps.push(Step::Do(Command::SetKbdRgbState(copy_bytes(bytes))));
            }
        } else if self.hid {
            let states = &config.enabled.states;
            if states.len() > 0 && states[0].zone == PowerZones::Ally {
                let bits: u32 = states[0].bits;
                assert(bits as u8 == bits % 256) by (bit_vector);
                let message: Vec<u8> = vec![0x5d, 0xd1, 0x09, 0x01, bits as u8, 0x00, 0x00];
                assert(message@ =~= ally_power(bits));
                steps.push(Step::Do(Command::WriteBytes(message)));
            } else {
                let message: Vec<u8> = vec![
                    0x5d,
                    0xbd,
                    0x01,
                    bytes[0],
                    bytes[1],
                    bytes[2],
                    bytes[3],
                ];
                assert(message@ =~= keyboard_power(bytes@));
                steps.push(Step::Do(Command::WriteBytes(message)));
            }
        }
        assert(steps_view(steps@) =~= sent);
        Script::new(steps)
    }

    /// Shows an effect block: the rows of an effect for single keys, or one raw message. Such
    /// a block lights a keyboard that is off.
    pub fn write_effect_block(
        &self,
        config: &mut AuraConfig,
        rows: &Vec<Vec<u8>>,
        init: &[u8],
        messages: &LedMessages,
    ) -> (script: Script)
        requires
            rows@.len() > 0,
            rows@[0]@.len() > 1,
            self.sends_row_colours(*old(config)) ==> forall|i: int|
                0 <= i < rows@.len() ==> (#[trigger] rows@[i])@.len() > 11,
        ensures
            *final(config) == self.lit_config(*old(config)),
            script@ == fresh(self.block_steps(*old(config), rows@, init@, *messages)),
    {
        let ghost shown = self.block_steps(*old(config), rows@, init@, *messages);
        let mut steps: Vec<Step> = Vec::new();
        if config.brightness == LedBrightness::Off {
            config.brightness = LedBrightness::Med;
            steps.push(Step::Do(Command::SaveConfig));
        }
        let ghost saved = steps@;
        let kind: u8 = rows[0][1];
        let mut more: Vec<Step> = Vec::new();
        if self.hid {
            if kind != PER_KEY_TYPE {
                more.push(Step::SetPerKeyMode(false));
                more.push(Step::Do(Command::WriteBytes(copy_bytes(rows[0].as_slice()))));
                more.push(Step::Do(Command::WriteBytes(copy_bytes(messages.set.as_slice()))));
            } else {
                if !config.per_key_mode_active {
                    more.push(Step::Do(Command::WriteBytes(copy_bytes(init))));
                    more.push(Step::SetPerKeyMode(true));
                }
                let mut written = write_rows(rows);
                proof {
                    lemma_steps_view_concat(more@, written@);
                }
                more.append(&mut written);
            }
        } else if self.needs_row_colours(config) {
            more = write_row_colours(rows);
        }
        proof {
            lemma_steps_view_concat(saved, more@);
        }
        assert(steps_view(saved) + steps_view(more@) =~= shown);
        steps.append(&mut more);
        Script::new(steps)
    }

    /// Resets the power settings of an Ally, unless the settings say that it was done.
    pub fn fix_ally_power(&self, config: &AuraConfig) -> (script: Script)
        ensures
            script@ == fresh(self.ally_steps(*config)),
    {
        let mut steps: Vec<Step> = Vec::new();
        if config.led_type == AuraDeviceType::Ally && self.hid {
            if config.ally_fix.is_none() {
                let message: Vec<u8> = vec![0x5d, 0xbd, 0x01, 0xff, 0xff, 0xff, 0xff];
                assert(message@ =~= ally_reset());
                steps.push(Step::Do(Command::WriteBytes(message)));
                steps.push(Step::SetAllyFix);
            }
            steps.push(Step::Do(Command::SaveConfig));
        }
        assert(steps_view(steps@) =~= self.ally_steps(*config));
        Script::new(steps)
    }
}

/// Brighter levels light the lamps more, and each level lights them differently.
pub proof fn law_intensity_follows_brightness(level: u8, higher: u8)
    requires
        level <= higher,
    ensures
        intensity_at(brightness_at(level)) <= intensity_at(brightness_at(higher)),
        level < higher <= 3 ==> intensity_at(brightness_at(level)) < intensity_at(
            brightness_at(higher),
        ),
{
}

/// A message keeps its bytes when it is filled up, and the report has the size that every
/// controller accepts.
pub proof fn law_padding_keeps_the_message(message: Seq<u8>)
    requires
        message.len() <= PADDED_LEN,
    ensures
        padded(message).len() == PADDED_LEN,
        padded(message).subrange(0, message.len() as int) == message,
        forall|i: int| message.len() <= i < PADDED_LEN ==> padded(message)[i] == 0,
{
    assert(padded(message).subrange(0, message.len() as int) =~= message);
}

/// The command that shows something on lamps whose number is known.
spec fn shown_on(lamps: nat, step: StepView) -> CommandView {
    match step {
        StepView::Animate(effect, intensity) => CommandView::StartEffect(
            task_for(effect, intensity, lamps),
        ),
        StepView::PushColour(colour, intensity) => CommandView::SetFeature(
            range_update(lamps, colour, intensity),
        ),
        _ => arbitrary(),
    }
}

/// What happens when the host takes the lamps over to show something: it is shown on all of
/// them, or refused where there are none.
proof fn lemma_claimed_run(config: AuraConfig, lamps: nat, step: StepView)
    requires
        step is PushColour || step is Animate,
    ensures
        run(fresh(claim_steps().push(step)), config, lamps, 4) == if lamps > 0 {
            Run {
                commands: seq![
                    CommandView::SetFeature(autonomous_off()),
                    CommandView::GetFeature(attributes_request()),
                    shown_on(lamps, step),
                ],
                end: ProgressView::Completed,
                config,
            }
        } else {
            Run {
                commands: seq![
                    CommandView::SetFeature(autonomous_off()),
                    CommandView::GetFeature(attributes_request()),
                ],
                end: ProgressView::Refused(AuraError::ZeroLamps),
                config,
            }
        },
{
    let steps = claim_steps().push(step);
    let two = steps.drop_first();
    let one = two.drop_first();
    let none = one.drop_first();
    let claimed = ScriptView { steps: one, lamps };
    assert(none =~= Seq::<StepView>::empty());
    assert(advanced(claimed, config).progress == if lamps > 0 {
        ProgressView::Do(shown_on(lamps, step))
    } else {
        ProgressView::Refused(AuraError::ZeroLamps)
    });
    if lamps > 0 {
        let last = run(ScriptView { steps: none, lamps }, config, lamps, 1);
        assert(last == (Run { commands: Seq::empty(), end: ProgressView::Completed, config }));
        assert(run(claimed, config, lamps, 2).commands =~= seq![shown_on(lamps, step)]);
    } else {
        assert(run(claimed, config, lamps, 2).commands =~= Seq::empty());
    }
    assert(advanced(fresh(two), config).script == fresh(one));
    let fetched = run(fresh(two), config, lamps, 3);
    assert(fetched.commands == seq![CommandView::GetFeature(attributes_request())] + run(
        claimed,
        config,
        lamps,
        2,
    ).commands);
    lemma_do_run(CommandView::SetFeature(autonomous_off()), steps, config, lamps, 3);
    assert(run(fresh(steps), config, lamps, 4).commands =~= if lamps > 0 {
        seq![
            CommandView::SetFeature(autonomous_off()),
            CommandView::GetFeature(attributes_request()),
            shown_on(lamps, step),
        ]
    } else {
        seq![
            CommandView::SetFeature(autonomous_off()),
            CommandView::GetFeature(attributes_request()),
        ]
    });
}

/// What the host does for an effect on lamps, if all goes well: it aborts what was running,
/// takes the lamps over, learns how many there are, and then either sends one update or
/// starts one animation. So two animations never run at once.
pub proof fn law_lamp_effect_stops_then_shows(
    aura: Aura,
    effect: AuraEffect,
    brightness: LedBrightness,
    config: AuraConfig,
    lamps: nat,
)
    requires
        aura.hid,
        lamps > 0,
    ensures
        run(fresh(aura.lamp_effect_steps(effect, brightness)), config, lamps, 5) == (Run {
            commands: seq![
                CommandView::StopEffect,
                CommandView::SetFeature(autonomous_off()),
                CommandView::GetFeature(attributes_request()),
                if effect.mode.style.moves() {
                    CommandView::StartEffect(task_for(effect, intensity_at(brightness), lamps))
                } else {
                    CommandView::SetFeature(
                        range_update(lamps, effect.colour1, intensity_at(brightness)),
                    )
                },
            ],
            end: ProgressView::Completed,
            config,
        }),
{
    let steps = aura.lamp_effect_steps(effect, brightness);
    lemma_claimed_run(
        config,
        lamps,
        if effect.mode.style.moves() {
            StepView::Animate(effect, intensity_at(brightness))
        } else {
            StepView::PushColour(effect.colour1, intensity_at(brightness))
        },
    );
    lemma_do_run(CommandView::StopEffect, steps, config, lamps, 4);
    assert(steps.drop_first() =~= claim_steps().push(steps[3]));
    assert(run(fresh(steps), config, lamps, 5).commands =~= seq![
        CommandView::StopEffect,
        CommandView::SetFeature(autonomous_off()),
        CommandView::GetFeature(attributes_request()),
        shown_on(lamps, steps[3]),
    ]);
}

/// A device that tells no lamps is refused once it has told so, and nothing is shown.
pub proof fn law_no_lamps_is_refused(
    aura: Aura,
    effect: AuraEffect,
    brightness: LedBrightness,
    config: AuraConfig,
)
    requires
        aura.hid,
    ensures
        run(fresh(aura.lamp_effect_steps(effect, brightness)), config, 0, 5) == (Run {
            commands: seq![
                CommandView::StopEffect,
                CommandView::SetFeature(autonomous_off()),
                CommandView::GetFeature(attributes_request()),
            ],
            end: ProgressView::Refused(AuraError::ZeroLamps),
            config,
        }),
{
    let steps = aura.lamp_effect_steps(effect, brightness);
    lemma_claimed_run(config, 0, steps[3]);
    lemma_do_run(CommandView::StopEffect, steps, config, 0, 4);
    assert(steps.drop_first() =~= claim_steps().push(steps[3]));
    assert(run(fresh(steps), config, 0, 5).commands =~= seq![
        CommandView::StopEffect,
        CommandView::SetFeature(autonomous_off()),
        CommandView::GetFeature(attributes_request()),
    ]);
}

/// Where there is no device, a running animation is aborted and the effect refused.
pub proof fn law_no_keyboard_is_refused(
    aura: Aura,
    effect: AuraEffect,
    brightness: LedBrightness,
    config: AuraConfig,
    lamps: nat,
)
    requires
        !aura.hid,
    ensures
        run(fresh(aura.lamp_effect_steps(effect, brightness)), config, lamps, 5) == (Run {
            commands: seq![CommandView::StopEffect],
            end: ProgressView::Refused(AuraError::NoAuraKeyboard),
            config,
        }),
{
    let steps = aura.lamp_effect_steps(effect, brightness);
    lemma_do_run(CommandView::StopEffect, steps, config, lamps, 4);
    assert(steps.drop_first() =~= no_keyboard());
    assert(run(fresh(steps), config, lamps, 5).commands =~= seq![CommandView::StopEffect]);
}

/// A mode for which the settings hold no effect shows nothing: the keyboard stays as it is.
pub proof fn law_mode_without_effect_shows_nothing(
    aura: Aura,
    config: AuraConfig,
    messages: LedMessages,
)
    requires
        !config.builtins@.contains_key(config.current_mode.code),
    ensures
        aura.builtin_steps(config, messages) == Seq::<StepView>::empty(),
{
}

/// Whether each animation comes three steps after an abort, with no other animation in
/// between: what was running is gone before another starts.
pub open spec fn starts_follow_stops(steps: Seq<StepView>) -> bool {
    forall|i: int|
        0 <= i < steps.len() && (#[trigger] steps[i]) is Animate ==> {
            &&& i >= 3
            &&& steps[i - 3] == StepView::Do(CommandView::StopEffect)
            &&& !(steps[i - 2] is Animate)
            &&& !(steps[i - 1] is Animate)
        }
}

/// Whatever is shown, one effect or those of several zones, two animations never run at
/// once.
pub proof fn law_animations_never_overlap(
    aura: Aura,
    config: AuraConfig,
    effect: AuraEffect,
    mode: AuraModeNum,
    messages: LedMessages,
)
    ensures
        starts_follow_stops(aura.effect_steps(config, effect, messages)),
        starts_follow_stops(aura.mode_zone_steps(config, mode, messages)),
        starts_follow_stops(aura.builtin_steps(config, messages)),
{
    lemma_effect_starts_follow_stops(aura, config, effect, messages);
    if has_zones(config, mode) {
        lemma_zone_starts_follow_stops(
            aura,
            config,
            config.multizone->0@[mode.code]@,
            messages,
        );
    }
    if let Some(current) = config.current_effect() {
        lemma_effect_starts_follow_stops(aura, config, current, messages);
    }
}

proof fn lemma_effect_starts_follow_stops(
    aura: Aura,
    config: AuraConfig,
    effect: AuraEffect,
    messages: LedMessages,
)
    ensures
        starts_follow_stops(aura.effect_steps(config, effect, messages)),
{
}

proof fn lemma_zone_starts_follow_stops(
    aura: Aura,
    config: AuraConfig,
    effects: Seq<AuraEffect>,
    messages: LedMessages,
)
    ensures
        starts_follow_stops(aura.zone_steps(config, effects, messages)),
    decreases effects.len(),
{
    if effects.len() > 0 {
        let head = aura.zone_steps(config, effects.drop_last(), messages);
        let tail = aura.effect_steps(config, effects.last(), messages);
        lemma_zone_starts_follow_stops(aura, config, effects.drop_last(), messages);
        lemma_effect_starts_follow_stops(aura, config, effects.last(), messages);
        assert forall|i: int| 0 <= i < (head + tail).len() && (#[trigger] (head + tail)[i]) is Animate
            implies {
            &&& i >= 3
            &&& (head + tail)[i - 3] == StepView::Do(CommandView::StopEffect)
            &&& !((head + tail)[i - 2] is Animate)
            &&& !((head + tail)[i - 1] is Animate)
        } by {
            if i < head.len() {
                assert(head[i] is Animate);
            } else {
                assert(tail[i - head.len()] is Animate);
            }
        }
    }
}

/// A change of the power states aborts a running animation, so that it cannot override the
/// update, and lights all lamps in the colour of the current mode or none.
pub proof fn law_lamp_power_stops_then_lights(aura: Aura, config: AuraConfig, lamps: nat)
    requires
        aura.hid,
        lamps > 0,
    ensures
        run(fresh(aura.lamp_power_steps(config)), config, lamps, 5) == (Run {
            commands: seq![
                CommandView::StopEffect,
                CommandView::SetFeature(autonomous_off()),
                CommandView::GetFeature(attributes_request()),
                CommandView::SetFeature(
                    range_update(
                        lamps,
                        config.current_colour(),
                        if any_powered(config.enabled.states@) {
                            255
                        } else {
                            0
                        },
                    ),
                ),
            ],
            end: ProgressView::Completed,
            config,
        }),
{
    let steps = aura.lamp_power_steps(config);
    lemma_claimed_run(config, lamps, steps[3]);
    lemma_do_run(CommandView::StopEffect, steps, config, lamps, 4);
    assert(steps.drop_first() =~= claim_steps().push(steps[3]));
    assert(run(fresh(steps), config, lamps, 5).commands =~= seq![
        CommandView::StopEffect,
        CommandView::SetFeature(autonomous_off()),
        CommandView::GetFeature(attributes_request()),
        shown_on(lamps, steps[3]),
    ]);
}

/// The keyboard counts as in the mode for single keys only once it has accepted the message
/// that starts it; the rows follow that message.
pub proof fn law_per_key_mode_needs_its_start(
    aura: Aura,
    config: AuraConfig,
    rows: Seq<Vec<u8>>,
    init: Seq<u8>,
    messages: LedMessages,
)
    requires
        aura.hid,
        config.brightness != LedBrightness::Off,
        !config.per_key_mode_active,
        rows.len() > 0,
        rows[0]@.len() > 1,
        rows[0]@[1] == PER_KEY_TYPE,
    ensures
        ({
            let begun = advanced(fresh(aura.block_steps(config, rows, init, messages)), config);
            let accepted = resumed(begun.script, begun.config, Outcome::Done);
            let refused = resumed(begun.script, begun.config, Outcome::Failed);
            &&& begun.progress == ProgressView::Do(CommandView::WriteBytes(init))
            &&& begun.config == config
            &&& refused.config == config
            &&& accepted.config == (AuraConfig { per_key_mode_active: true, ..config })
            &&& accepted.progress == ProgressView::Do(CommandView::WriteBytes(rows[0]@))
        }),
{
    reveal_with_fuel(advanced, 3);
    let steps = aura.block_steps(config, rows, init, messages);
    assert(steps =~= seq![
        StepView::Do(CommandView::WriteBytes(init)),
        StepView::SetPerKeyMode(true),
    ] + row_writes(rows));
    assert(steps.drop_first().drop_first()[0] == row_writes(rows)[0]);
}

/// The power settings of an Ally are reset once: when that has succeeded, the next time only
/// the settings are saved.
pub proof fn law_ally_is_reset_once(aura: Aura, config: AuraConfig)
    requires
        aura.hid,
        config.led_type == AuraDeviceType::Ally,
        config.ally_fix is None,
    ensures
        ({
            let begun = advanced(fresh(aura.ally_steps(config)), config);
            let accepted = resumed(begun.script, begun.config, Outcome::Done);
            let refused = resumed(begun.script, begun.config, Outcome::Failed);
            &&& begun.progress == ProgressView::Do(CommandView::WriteBytes(ally_reset()))
            &&& refused.config.ally_fix is None
            &&& accepted.progress == ProgressView::Do(CommandView::SaveConfig)
            &&& accepted.config == (AuraConfig { ally_fix: Some(true), ..config })
            &&& aura.ally_steps(accepted.config) == seq![StepView::Do(CommandView::SaveConfig)]
        }),
{
    reveal_with_fuel(advanced, 3);
}


/// Each level of brightness has its intensity, and each number its level: the highest one
/// stands for all above it.
pub proof fn law_levels_and_intensities(level: u8)
    ensures
        intensity_at(LedBrightness::Off) == 0,
        intensity_at(LedBrightness::Low) == 64,
        intensity_at(LedBrightness::Med) == 128,
        intensity_at(LedBrightness::High) == 255,
        brightness_at(0) == LedBrightness::Off,
        brightness_at(1) == LedBrightness::Low,
        brightness_at(2) == LedBrightness::Med,
        level >= 3 ==> brightness_at(level) == LedBrightness::High,
{
}

/// Whether steps claim the lamps: autonomous mode is switched off, and then the attributes are
/// asked for.
pub open spec fn claims(off: StepView, ask: StepView) -> bool {
    &&& off matches StepView::Do(CommandView::SetFeature(report)) && report == seq![0x46u8, 0x00u8]
    &&& ask matches StepView::Do(CommandView::GetFeature(request)) && request.len() == 23
        && request[0] == 0x41 && forall|i: int| 1 <= i < 23 ==> request[i] == 0
}

/// An effect on lamps takes four steps: what runs is aborted, the lamps are claimed, and the
/// effect is shown at the intensity of the brightness. A breathing, pulsing or rainbow effect
/// is animated, any other is sent once in its colour. Without a device the second step is a
/// refusal, and there is no other.
pub proof fn law_effect_on_lamps(aura: Aura, effect: AuraEffect, brightness: LedBrightness)
    ensures
        ({
            let steps = aura.lamp_effect_steps(effect, brightness);
            let intensity: u8 = match brightness {
                LedBrightness::Off => 0,
                LedBrightness::Low => 64,
                LedBrightness::Med => 128,
                LedBrightness::High => 255,
            };
            let style = effect.mode.style;
            let steady = style == ModeStyle::Static || style == ModeStyle::Other;
            &&& steps.len() == if aura.hid {
                4nat
            } else {
                2nat
            }
            &&& steps[0] == StepView::Do(CommandView::StopEffect)
            &&& aura.hid ==> claims(steps[1], steps[2])
            &&& aura.hid && steady ==> steps[3] == StepView::PushColour(effect.colour1, intensity)
            &&& aura.hid && !steady ==> steps[3] == StepView::Animate(effect, intensity)
            &&& !aura.hid ==> steps[1] == StepView::Refuse(AuraError::NoAuraKeyboard)
        }),
{
    assert(autonomous_off() =~= seq![0x46u8, 0x00u8]);
}

/// The message to a TUF keyboard: one, then the number of the mode, the colour and the speed
/// code of the effect. It goes to the backlight, whatever else there is; without a backlight
/// nothing is sent.
pub proof fn law_effect_on_a_tuf_keyboard(aura: Aura, effect: AuraEffect, messages: LedMessages)
    ensures
        ({
            let steps = aura.keyboard_effect_steps(
                AuraDeviceType::LaptopKeyboardTuf,
                effect,
                messages,
            );
            &&& !aura.backlight ==> steps.len() == 0
            &&& aura.backlight ==> steps.len() == 1 && (steps[0] matches StepView::Do(
                CommandView::SetKbdRgbMode(bytes),
            ) && bytes.len() == 6 && bytes[0] == 1 && bytes[1] == effect.mode.code && bytes[2]
                == effect.colour1.r && bytes[3] == effect.colour1.g && bytes[4] == effect.colour1.b
                && bytes[5] == effect.speed_code)
        }),
{
}

/// Whether a step writes a message, filled up with zeros to the size of an output report.
pub open spec fn writes_filled_up(step: StepView, message: [u8; AURA_LAPTOP_LED_MSG_LEN]) -> bool {
    step matches StepView::Do(CommandView::WriteBytes(bytes)) && bytes.len() == 64 && (forall|
        i: int,
    |
        0 <= i < 17 ==> bytes[i] == message@[i]) && forall|i: int| 17 <= i < 64 ==> bytes[i] == 0
}

/// Any other keyboard is sent three reports: the message of the effect, then the one that sets
/// it and the one that makes it last. Without a device the effect is refused.
pub proof fn law_effect_on_a_usb_keyboard(
    aura: Aura,
    dev_type: AuraDeviceType,
    effect: AuraEffect,
    messages: LedMessages,
)
    requires
        dev_type != AuraDeviceType::LaptopKeyboardTuf,
    ensures
        ({
            let steps = aura.keyboard_effect_steps(dev_type, effect, messages);
            &&& aura.hid ==> steps.len() == 3 && writes_filled_up(steps[0], effect.message)
                && writes_filled_up(steps[1], messages.set) && writes_filled_up(
                steps[2],
                messages.apply,
            )
            &&& !aura.hid ==> steps == seq![StepView::Refuse(AuraError::NoAuraKeyboard)]
        }),
{
    let steps = aura.keyboard_effect_steps(dev_type, effect, messages);
    if !aura.hid {
        assert(steps =~= seq![StepView::Refuse(AuraError::NoAuraKeyboard)]);
    }
}

/// An effect is shown as the settings say: on lamps at the brightness of the settings, and
/// else as the keyboard of the settings takes it. The effect of the current mode and those of
/// its zones are shown alike, and where none is stored nothing is.
pub proof fn law_settings_decide_how_effects_are_shown(
    aura: Aura,
    config: AuraConfig,
    effect: AuraEffect,
    messages: LedMessages,
)
    ensures
        ({
            let steps = aura.effect_steps(config, effect, messages);
            let intensity: u8 = match config.brightness {
                LedBrightness::Off => 0,
                LedBrightness::Low => 64,
                LedBrightness::Med => 128,
                LedBrightness::High => 255,
            };
            &&& aura.is_lamparray && aura.hid ==> steps.len() == 4 && steps[0] == StepView::Do(
                CommandView::StopEffect,
            ) && claims(steps[1], steps[2]) && (steps[3] == StepView::PushColour(
                effect.colour1,
                intensity,
            ) || steps[3] == StepView::Animate(effect, intensity))
            &&& aura.is_lamparray ==> steps == aura.lamp_effect_steps(effect, config.brightness)
            &&& !aura.is_lamparray ==> steps == aura.keyboard_effect_steps(
                config.led_type,
                effect,
                messages,
            )
            &&& config.builtins@.contains_pair(config.current_mode.code, effect)
                ==> aura.builtin_steps(config, messages) == steps
            &&& aura.zone_steps(config, seq![effect], messages) == steps
        }),
{
    law_effect_on_lamps(aura, effect, config.brightness);
    let one = seq![effect];
    reveal_with_fuel(Aura::zone_steps, 3);
    assert(one.drop_last() =~= Seq::<AuraEffect>::empty());
    assert(aura.zone_steps(config, one, messages) =~= aura.effect_steps(config, effect, messages));
}

/// The effects of a mode's zones are shown one after the other, in order, and all of them:
/// those of the first zones, then those of the rest. A mode without zones shows none, and only
/// the effects that are stored under its own number count.
pub proof fn law_zones_are_shown_in_turn(
    aura: Aura,
    config: AuraConfig,
    first: Seq<AuraEffect>,
    rest: Seq<AuraEffect>,
    messages: LedMessages,
)
    ensures
        aura.zone_steps(config, first + rest, messages) == aura.zone_steps(config, first, messages)
            + aura.zone_steps(config, rest, messages),
        aura.zone_steps(config, Seq::empty(), messages) == Seq::<StepView>::empty(),
    decreases rest.len(),
{
    let all = first + rest;
    if rest.len() > 0 {
        law_zones_are_shown_in_turn(aura, config, first, rest.drop_last(), messages);
        assert(all.drop_last() =~= first + rest.drop_last());
        assert(all.last() == rest.last());
        assert(aura.zone_steps(config, all, messages) =~= aura.zone_steps(config, first, messages)
            + aura.zone_steps(config, rest, messages));
    } else {
        assert(all =~= first);
        assert(aura.zone_steps(config, all, messages) =~= aura.zone_steps(config, first, messages)
            + aura.zone_steps(config, rest, messages));
    }
}

/// The zones of a mode are those that the settings store under its number.
pub proof fn law_zones_are_looked_up(
    aura: Aura,
    config: AuraConfig,
    mode: AuraModeNum,
    messages: LedMessages,
    effects: Vec<AuraEffect>,
)
    ensures
        config.multizone matches Some(zones) ==> (zones@.contains_pair(mode.code, effects) ==> {
            &&& has_zones(config, mode)
            &&& aura.mode_zone_steps(config, mode, messages) == aura.zone_steps(
                config,
                effects@,
                messages,
            )
        }),
        config.multizone matches Some(zones) ==> (!zones@.contains_key(mode.code) ==> !has_zones(
            config,
            mode,
        ) && aura.mode_zone_steps(config, mode, messages).len() == 0),
        config.multizone is None ==> !has_zones(config, mode) && aura.mode_zone_steps(
            config,
            mode,
            messages,
        ).len() == 0,
{
}

/// On lamps every zone is shown at the brightness of the settings: the fourth step of each of
/// them shows it, in the order of the zones.
pub proof fn law_zones_on_lamps_have_the_brightness(
    aura: Aura,
    config: AuraConfig,
    effects: Seq<AuraEffect>,
    messages: LedMessages,
    k: int,
)
    requires
        aura.is_lamparray,
        aura.hid,
        0 <= k < effects.len(),
    ensures
        ({
            let steps = aura.zone_steps(config, effects, messages);
            let intensity: u8 = match config.brightness {
                LedBrightness::Off => 0,
                LedBrightness::Low => 64,
                LedBrightness::Med => 128,
                LedBrightness::High => 255,
            };
            let style = effects[k].mode.style;
            &&& steps.len() == 4 * effects.len()
            &&& steps[4 * k] == StepView::Do(CommandView::StopEffect)
            &&& style == ModeStyle::Static || style == ModeStyle::Other ==> steps[4 * k + 3]
                == StepView::PushColour(effects[k].colour1, intensity)
            &&& style != ModeStyle::Static && style != ModeStyle::Other ==> steps[4 * k + 3]
                == StepView::Animate(effects[k], intensity)
        }),
    decreases effects.len(),
{
    let before = effects.drop_last();
    law_effect_on_lamps(aura, effects.last(), config.brightness);
    lemma_zones_on_lamps_take_four_steps(aura, config, before, messages);
    if k < effects.len() - 1 {
        law_zones_on_lamps_have_the_brightness(aura, config, before, messages, k);
        assert(before[k] == effects[k]);
    }
}

proof fn lemma_zones_on_lamps_take_four_steps(
    aura: Aura,
    config: AuraConfig,
    effects: Seq<AuraEffect>,
    messages: LedMessages,
)
    requires
        aura.is_lamparray,
        aura.hid,
    ensures
        aura.zone_steps(config, effects, messages).len() == 4 * effects.len(),
    decreases effects.len(),
{
    if effects.len() > 0 {
        lemma_zones_on_lamps_take_four_steps(aura, config, effects.drop_last(), messages);
        law_effect_on_lamps(aura, effects.last(), config.brightness);
    }
}

/// A brightness is set on lamps by one push of the colour at its intensity, and on any other
/// keyboard by its number, as it is, on the backlight; without one it is refused. A running
/// animation is not aborted.
pub proof fn law_brightness_is_set(aura: Aura, colour: Colour, value: u8)
    ensures
        ({
            let steps = aura.brightness_steps(colour, value);
            let intensity: u8 = if value == 0 {
                0
            } else if value == 1 {
                64
            } else if value == 2 {
                128
            } else {
                255
            };
            &&& aura.is_lamparray && aura.hid ==> steps.len() == 3 && claims(steps[0], steps[1])
                && steps[2] == StepView::PushColour(colour, intensity)
            &&& aura.is_lamparray && !aura.hid ==> steps == seq![
                StepView::Refuse(AuraError::NoAuraKeyboard),
            ]
            &&& !aura.is_lamparray && aura.backlight ==> steps == seq![
                StepView::Do(CommandView::SetBacklight(value)),
            ]
            &&& !aura.is_lamparray && !aura.backlight ==> steps == seq![
                StepView::Refuse(AuraError::NoBacklight),
            ]
        }),
{
    assert(autonomous_off() =~= seq![0x46u8, 0x00u8]);
    assert(no_keyboard() =~= seq![StepView::Refuse(AuraError::NoAuraKeyboard)]);
}

/// One push of a colour: the lamps are claimed, then lit.
pub proof fn law_push_claims_then_lights(aura: Aura, colour: Colour, intensity: u8)
    ensures
        aura.hid ==> ({
            let steps = aura.push_steps(colour, intensity);
            &&& steps.len() == 3
            &&& claims(steps[0], steps[1])
            &&& steps[2] == StepView::PushColour(colour, intensity)
        }),
        !aura.hid ==> aura.push_steps(colour, intensity) == seq![
            StepView::Refuse(AuraError::NoAuraKeyboard),
        ],
{
    assert(autonomous_off() =~= seq![0x46u8, 0x00u8]);
    assert(no_keyboard() =~= seq![StepView::Refuse(AuraError::NoAuraKeyboard)]);
}

/// Lamps are fully lit as soon as any zone is powered in any state of the machine, and dark
/// where none is, in the colour of the current mode; what was running is aborted first.
pub proof fn law_lamps_are_lit_if_any_zone_is(aura: Aura, config: AuraConfig, i: int)
    requires
        aura.hid,
    ensures
        ({
            let steps = aura.lamp_power_steps(config);
            let states = config.enabled.states@;
            &&& steps.len() == 4
            &&& steps[0] == StepView::Do(CommandView::StopEffect)
            &&& claims(steps[1], steps[2])
            &&& 0 <= i < states.len() && states[i].bits != 0 ==> steps[3] == StepView::PushColour(
                config.current_colour(),
                255,
            )
            &&& (forall|j: int| 0 <= j < states.len() ==> (#[trigger] states[j]).bits == 0)
                ==> steps[3] == StepView::PushColour(config.current_colour(), 0)
        }),
{
    assert(autonomous_off() =~= seq![0x46u8, 0x00u8]);
}

/// Power states on lamps without a device are refused, after what runs was aborted.
pub proof fn law_lamp_power_without_a_device(aura: Aura, config: AuraConfig)
    requires
        !aura.hid,
    ensures
        aura.lamp_power_steps(config) == seq![
            StepView::Do(CommandView::StopEffect),
            StepView::Refuse(AuraError::NoAuraKeyboard),
        ],
{
    assert(aura.lamp_power_steps(config) =~= seq![
        StepView::Do(CommandView::StopEffect),
        StepView::Refuse(AuraError::NoAuraKeyboard),
    ]);
}

/// The power states of a keyboard go out in one message: all bytes of a TUF keyboard to its
/// backlight; to any other device the low byte of an Ally's first state, or the first four
/// bytes. Where the interface is missing nothing is sent. Lamps have their own way.
pub proof fn law_power_messages(aura: Aura, config: AuraConfig, bytes: Seq<u8>)
    ensures
        ({
            let steps = aura.power_steps(config, bytes);
            let states = config.enabled.states@;
            let tuf = config.led_type == AuraDeviceType::LaptopKeyboardTuf;
            let ally = states.len() > 0 && states[0].zone == PowerZones::Ally;
            &&& aura.is_lamparray ==> steps == aura.lamp_power_steps(config)
            &&& !aura.is_lamparray && tuf && aura.backlight ==> steps == seq![
                StepView::Do(CommandView::SetKbdRgbState(bytes)),
            ]
            &&& !aura.is_lamparray && tuf && !aura.backlight ==> steps.len() == 0
            &&& !aura.is_lamparray && !tuf && !aura.hid ==> steps.len() == 0
            &&& !aura.is_lamparray && !tuf && aura.hid && ally ==> steps.len() == 1 && (
            steps[0] matches StepView::Do(CommandView::WriteBytes(sent)) && sent == seq![
                0x5du8,
                0xd1u8,
                0x09u8,
                0x01u8,
                (states[0].bits % 256) as u8,
                0x00u8,
                0x00u8,
            ])
            &&& !aura.is_lamparray && !tuf && aura.hid && !ally ==> steps.len() == 1 && (
            steps[0] matches StepView::Do(CommandView::WriteBytes(sent)) && sent.len() == 7
                && sent[0] == 0x5d && sent[1] == 0xbd && sent[2] == 0x01 && sent[3] == bytes[0]
                && sent[4] == bytes[1] && sent[5] == bytes[2] && sent[6] == bytes[3])
            &&& aura.sends_power_bytes(config) == (!aura.is_lamparray && !tuf && aura.hid && !ally)
        }),
{
    let states = config.enabled.states@;
    if states.len() > 0 {
        assert(ally_power(states[0].bits) =~= seq![
            0x5du8,
            0xd1u8,
            0x09u8,
            0x01u8,
            (states[0].bits % 256) as u8,
            0x00u8,
            0x00u8,
        ]);
    }
}

/// An effect block lights a keyboard that is off, which is saved first; no other setting
/// changes for that.
pub proof fn law_block_lights_the_keyboard(
    aura: Aura,
    config: AuraConfig,
    rows: Seq<Vec<u8>>,
    init: Seq<u8>,
    messages: LedMessages,
)
    ensures
        ({
            let steps = aura.block_steps(config, rows, init, messages);
            let on = AuraConfig { brightness: LedBrightness::Med, ..config };
            &&& config.brightness == LedBrightness::Off ==> {
                &&& aura.lit_config(config) == on
                &&& steps == seq![StepView::Do(CommandView::SaveConfig)] + aura.block_steps(
                    on,
                    rows,
                    init,
                    messages,
                )
            }
            &&& config.brightness != LedBrightness::Off ==> aura.lit_config(config) == config
        }),
{
    let on = AuraConfig { brightness: LedBrightness::Med, ..config };
    if config.brightness == LedBrightness::Off {
        assert(aura.block_steps(config, rows, init, messages) =~= seq![
            StepView::Do(CommandView::SaveConfig),
        ] + aura.block_steps(on, rows, init, messages));
    }
}

/// A block for single keys is written row by row, each as it is, behind the message that
/// starts that mode where the keyboard is not in it yet. Any other block leaves that mode: its
/// first row is written, and then the message that sets it.
pub proof fn law_blocks_to_a_device(
    aura: Aura,
    config: AuraConfig,
    rows: Seq<Vec<u8>>,
    init: Seq<u8>,
    messages: LedMessages,
    i: int,
)
    requires
        aura.hid,
        config.brightness != LedBrightness::Off,
        0 <= i < rows.len(),
        rows[0]@.len() > 1,
    ensures
        ({
            let steps = aura.block_steps(config, rows, init, messages);
            let row = StepView::Do(CommandView::WriteBytes(rows[i]@));
            &&& rows[0]@[1] != 0xbc ==> steps == seq![
                StepView::SetPerKeyMode(false),
                StepView::Do(CommandView::WriteBytes(rows[0]@)),
                StepView::Do(CommandView::WriteBytes(messages.set@)),
            ]
            &&& rows[0]@[1] == 0xbc && config.per_key_mode_active ==> steps.len() == rows.len()
                && steps[i] == row
            &&& rows[0]@[1] == 0xbc && !config.per_key_mode_active ==> {
                &&& steps.len() == rows.len() + 2
                &&& steps[0] == StepView::Do(CommandView::WriteBytes(init))
                &&& steps[1] == StepView::SetPerKeyMode(true)
                &&& steps[i + 2] == row
            }
        }),
{
    let steps = aura.block_steps(config, rows, init, messages);
    if rows[0]@[1] != 0xbc {
        assert(steps =~= seq![
            StepView::SetPerKeyMode(false),
            StepView::Do(CommandView::WriteBytes(rows[0]@)),
            StepView::Do(CommandView::WriteBytes(messages.set@)),
        ]);
    }
}

/// Without a device a block goes to the backlight of a TUF keyboard, which takes the colour of
/// each row in turn; on any other keyboard nothing is sent.
pub proof fn law_blocks_to_a_backlight(
    aura: Aura,
    config: AuraConfig,
    rows: Seq<Vec<u8>>,
    init: Seq<u8>,
    messages: LedMessages,
    i: int,
)
    requires
        !aura.hid,
        config.brightness != LedBrightness::Off,
    ensures
        ({
            let steps = aura.block_steps(config, rows, init, messages);
            let lights = aura.backlight && config.led_type == AuraDeviceType::LaptopKeyboardTuf;
            &&& aura.sends_row_colours(config) == lights
            &&& !lights ==> steps.len() == 0
            &&& lights ==> steps.len() == rows.len()
            &&& lights && 0 <= i < rows.len() ==> (steps[i] matches StepView::Do(
                CommandView::SetKbdRgbMode(bytes),
            ) && bytes == seq![0u8, 0u8, rows[i]@[9], rows[i]@[10], rows[i]@[11], 0u8])
        }),
{
}

/// A device that is written to takes no row colours.
pub proof fn law_devices_take_rows_whole(aura: Aura, config: AuraConfig)
    requires
        aura.hid,
    ensures
        !aura.sends_row_colours(config),
{
}

/// An Ally with a device is sent the reset unless the settings say that it was, in either way;
/// they are saved in any case. Nothing is done to any other keyboard.
pub proof fn law_ally_reset_message(aura: Aura, config: AuraConfig)
    ensures
        ({
            let steps = aura.ally_steps(config);
            let ally = config.led_type == AuraDeviceType::Ally && aura.hid;
            &&& !ally ==> steps.len() == 0
            &&& ally && config.ally_fix is Some ==> steps == seq![
                StepView::Do(CommandView::SaveConfig),
            ]
            &&& ally && config.ally_fix is None ==> steps == seq![
                StepView::Do(
                    CommandView::WriteBytes(
                        seq![0x5du8, 0xbdu8, 0x01u8, 0xffu8, 0xffu8, 0xffu8, 0xffu8],
                    ),
                ),
                StepView::SetAllyFix,
                StepView::Do(CommandView::SaveConfig),
            ]
        }),
{
    assert(ally_reset() =~= seq![0x5du8, 0xbdu8, 0x01u8, 0xffu8, 0xffu8, 0xffu8, 0xffu8]);
}

/// The settings are read, get the brightness that the keyboard has, and are saved. A backlight
/// that was read gives its level as it is, one that could not be read gives zero, and without
/// one, or on lamps, the brightness of the settings is kept.
pub proof fn law_settings_are_brought_up_to_date(aura: Aura, config: AuraConfig, level: u8)
    ensures
        ({
            let read = aura.config_update(config, Some(level));
            let unread = aura.config_update(config, None);
            let kept = ConfigRequest::SetBrightness(BrightnessUpdate::Keep(config.brightness));
            let lit = aura.backlight && !aura.is_lamparray;
            &&& read.len() == 3 && unread.len() == 3
            &&& read[0] == ConfigRequest::Read && unread[0] == ConfigRequest::Read
            &&& read[2] == ConfigRequest::Save && unread[2] == ConfigRequest::Save
            &&& lit ==> read[1] == ConfigRequest::SetBrightness(BrightnessUpdate::Level(level))
            &&& lit ==> unread[1] == ConfigRequest::SetBrightness(BrightnessUpdate::Level(0))
            &&& !lit ==> read[1] == kept && unread[1] == kept
        }),
{
}


/// An effect is shown at the brightness that is known, and at medium where none is; only lamps
/// take the brightness from there, and only other keyboards go by the type of the device.
pub proof fn law_effects_are_shown_at_the_known_brightness(
    aura: Aura,
    dev_type: AuraDeviceType,
    effect: AuraEffect,
    brightness: LedBrightness,
    messages: LedMessages,
)
    ensures
        shown_brightness(Some(brightness)) == brightness,
        shown_brightness(None) == LedBrightness::Med,
        aura.is_lamparray ==> aura.apply_steps(dev_type, effect, Some(brightness), messages)
            == aura.lamp_effect_steps(effect, brightness),
        aura.is_lamparray ==> aura.apply_steps(dev_type, effect, None, messages)
            == aura.lamp_effect_steps(effect, LedBrightness::Med),
        !aura.is_lamparray ==> aura.apply_steps(dev_type, effect, Some(brightness), messages)
            == aura.keyboard_effect_steps(dev_type, effect, messages),
        !aura.is_lamparray ==> aura.apply_steps(dev_type, effect, None, messages)
            == aura.keyboard_effect_steps(dev_type, effect, messages),
{
}

/// The current mode is shown by its zones exactly where zones are on, and defaults are needed
/// exactly where the settings hold no zones for it then. With zones off, lamps show the stored
/// effect at the brightness of the settings: the intensity is that of the brightness, whatever
/// the effect.
pub proof fn law_current_mode_is_shown(
    aura: Aura,
    config: AuraConfig,
    effect: AuraEffect,
    messages: LedMessages,
)
    ensures
        !config.multizone_on ==> !needs_default(config),
        config.multizone is None && config.multizone_on ==> needs_default(config),
        config.multizone matches Some(zones) ==> (config.multizone_on ==> needs_default(config)
            == !zones@.contains_key(config.current_mode.code)),
        config.multizone_on ==> aura.current_steps(config, messages) == aura.mode_zone_steps(
            config,
            config.current_mode,
            messages,
        ),
        !config.multizone_on && !config.builtins@.contains_key(config.current_mode.code)
            ==> aura.current_steps(config, messages).len() == 0,
        !config.multizone_on && config.builtins@.contains_pair(config.current_mode.code, effect)
            && aura.is_lamparray && aura.hid ==> ({
            let last = aura.current_steps(config, messages)[3];
            let intensity: u8 = match config.brightness {
                LedBrightness::Off => 0,
                LedBrightness::Low => 64,
                LedBrightness::Med => 128,
                LedBrightness::High => 255,
            };
            let style = effect.mode.style;
            let steady = style == ModeStyle::Static || style == ModeStyle::Other;
            &&& aura.current_steps(config, messages).len() == 4
            &&& steady ==> last == StepView::PushColour(effect.colour1, intensity)
            &&& !steady ==> last == StepView::Animate(effect, intensity)
        }),
        !config.multizone_on && config.builtins@.contains_pair(config.current_mode.code, effect)
            && !aura.is_lamparray ==> aura.current_steps(config, messages)
            == aura.keyboard_effect_steps(config.led_type, effect, messages),
{
    law_effect_on_lamps(aura, effect, config.brightness);
}

} // verus!
