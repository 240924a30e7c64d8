//! Keyboard lighting: effects, brightness, power states and the settings that hold them.

use std::collections::BTreeMap;

use vstd::prelude::*;

verus! {

/// The length of an effect message to a USB keyboard, and of those that set and apply it.
pub const AURA_LAPTOP_LED_MSG_LEN: usize = 17;

/// A colour.
#[derive(Debug, Clone, Copy, PartialEq, Eq, Structural)]
pub struct Colour {
    pub r: u8,
    pub g: u8,
    pub b: u8,
}

/// The brightness levels of a keyboard.
#[derive(Debug, Clone, Copy, PartialEq, Eq, Structural)]
pub enum LedBrightness {
    Off,
    Low,
    Med,
    High,
}

/// How fast an effect runs.
#[derive(Debug, Clone, Copy, PartialEq, Eq, Structural)]
pub enum Speed {
    Low,
    Med,
    High,
}

/// How a lighting mode moves. `Other` is for the modes that only a keyboard with its own
/// animations can show.
#[derive(Debug, Clone, Copy, PartialEq, Eq, Structural)]
pub enum ModeStyle {
    Static,
    Breathe,
    Pulse,
    RainbowCycle,
    RainbowWave,
    Other,
}

impl ModeStyle {
    /// Whether the host animates lamps for this style. The others are steady.
    pub open spec fn moves(self) -> bool {
        match self {
            ModeStyle::Breathe
            | ModeStyle::Pulse
            | ModeStyle::RainbowCycle
            | ModeStyle::RainbowWave => true,
            ModeStyle::Static | ModeStyle::Other => false,
        }
    }
}

/// A lighting mode: the number by which the hardware and the settings know it, and how it
/// moves. Modes are told apart and ordered by number.
#[derive(Debug, Clone, Copy, PartialEq, Eq, Structural)]
pub struct AuraModeNum {
    pub code: u8,
    pub style: ModeStyle,
}

/// A zone of the keyboard that an effect is for.
#[derive(Debug, Clone, Copy, PartialEq, Eq, Structural)]
pub enum AuraZone {
    /// The whole keyboard.
    Unzoned,
    Zone(u8),
}

/// A zone whose lights are powered together.
#[derive(Debug, Clone, Copy, PartialEq, Eq, Structural)]
pub enum PowerZones {
    Ally,
    Zone(u8),
}

/// The kind of keyboard.
#[derive(Debug, Clone, Copy, PartialEq, Eq, Structural)]
pub enum AuraDeviceType {
    LaptopKeyboardTuf,
    Ally,
    Other(u8),
}

/// A lighting effect, with what the hardware calls its speed and with its message to a USB
/// keyboard.
#[derive(Debug, Clone, Copy)]
pub struct AuraEffect {
    pub mode: AuraModeNum,
    pub zone: AuraZone,
    pub colour1: Colour,
    pub speed: Speed,
    pub speed_code: u8,
    pub message: [u8; AURA_LAPTOP_LED_MSG_LEN],
}

/// When the lights of a zone are powered: one bit for each state of the machine in which
/// they are.
#[derive(Debug, Clone, Copy, PartialEq, Eq, Structural)]
pub struct AuraPowerState {
    pub zone: PowerZones,
    pub bits: u32,
}

/// The power states of all zones.
#[derive(Debug)]
pub struct LaptopAuraPower {
    pub states: Vec<AuraPowerState>,
}

/// What a keyboard can do.
#[derive(Debug)]
pub struct LedSupport {
    pub basic_modes: Vec<AuraModeNum>,
    pub basic_zones: Vec<AuraZone>,
    pub power_zones: Vec<PowerZones>,
}

/// The settings of a keyboard. The effects are kept by mode number.
#[derive(Debug)]
pub struct AuraConfig {
    pub led_type: AuraDeviceType,
    pub support_data: LedSupport,
    pub brightness: LedBrightness,
    pub current_mode: AuraModeNum,
    pub builtins: BTreeMap<u8, AuraEffect>,
    /// For each mode the effects of its zones.
    pub multizone: Option<BTreeMap<u8, Vec<AuraEffect>>>,
    pub multizone_on: bool,
    pub enabled: LaptopAuraPower,
    pub per_key_mode_active: bool,
    /// Set once the power settings of an Ally were reset.
    pub ally_fix: Option<bool>,
}

/// White.
pub open spec fn white() -> Colour {
    Colour { r: 0xff, g: 0xff, b: 0xff }
}

impl AuraConfig {
    /// The effect that is stored for the current mode, if any.
    pub open spec fn current_effect(self) -> Option<AuraEffect> {
        if self.builtins@.contains_key(self.current_mode.code) {
            Some(self.builtins@[self.current_mode.code])
        } else {
            None
        }
    }

    /// The colour of the current mode; white where no effect is stored for it.
    pub open spec fn current_colour(self) -> Colour {
        match self.current_effect() {
            Some(effect) => effect.colour1,
            None => white(),
        }
    }

    /// The effect that is stored for the current mode.
    pub fn effect(&self) -> (effect: Option<AuraEffect>)
        ensures
            effect == self.current_effect(),
    {
        match self.builtins.get(&self.current_mode.code) {
            Some(effect) => Some(*effect),
            None => None,
        }
    }

    /// The colour of the current mode.
    pub fn colour(&self) -> (colour: Colour)
        ensures
            colour == self.current_colour(),
    {
        match self.effect() {
            Some(effect) => effect.colour1,
            None => Colour { r: 0xff, g: 0xff, b: 0xff },
        }
    }
}


/// The current effect is the one that is stored under the number of the current mode, and the
/// current colour is its colour; without one there is no effect, and the colour is white.
/// Nothing else in the settings matters.
pub proof fn law_current_mode_is_looked_up(config: AuraConfig, effect: AuraEffect)
    ensures
        config.builtins@.contains_pair(config.current_mode.code, effect) ==> {
            &&& config.current_effect() == Some(effect)
            &&& config.current_colour().r == effect.colour1.r
            &&& config.current_colour().g == effect.colour1.g
            &&& config.current_colour().b == effect.colour1.b
        },
        !config.builtins@.contains_key(config.current_mode.code) ==> {
            &&& config.current_effect() is None
            &&& config.current_colour().r == 0xff
            &&& config.current_colour().g == 0xff
            &&& config.current_colour().b == 0xff
        },
{
}

} // verus!
