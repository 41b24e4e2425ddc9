pub mod blink;
pub mod breathe;
pub mod neon;
pub mod steady;

use vstd::prelude::*;

use crate::protocol::error::ProtocolError;

verus! {

/// The effect nested in a composite LED mode.
#[derive(Debug, Clone, Copy, PartialEq, Eq, Structural)]
pub enum Effect {
    Respiration(breathe::Speed),
    Steady(steady::Brightnes),
    Neon(neon::Speed),
}

impl Default for Effect {
    fn default() -> (r: Self)
        ensures
            r == Effect::Respiration(breathe::Speed::S4),
    {
        Effect::Respiration(breathe::Speed::default())
    }
}

/// The LED behaviour, as selected by the mode byte of the raw report.
#[derive(Debug, Clone, Copy, PartialEq, Eq, Structural)]
pub enum Config {
    Steady(steady::Brightnes),
    Breathe(breathe::Speed),
    BlinkEffect(blink::Frequency, blink::Times, Effect),
    SteadyEffect(steady::EffectTime, Effect),
}

impl Default for Config {
    fn default() -> (r: Self)
        ensures
            r == Config::Breathe(breathe::Speed::S4),
    {
        Config::Breathe(breathe::Speed::default())
    }
}

/// Mode byte of a plain steady glow.
pub const MODE_STEADY: u8 = 0x28;

/// Mode byte of a plain breathing effect.
pub const MODE_BREATHE: u8 = 0x22;

/// High bits of the mode byte of a blink effect; the low bits give its nested effect.
pub const MODE_BLINK: u8 = 0x40;

/// High bits of the mode byte of a steady effect; the low bits give its nested effect.
pub const MODE_STEADY_EFFECT: u8 = 0x80;

/// Whether `mode` is one of the mode bytes that the device defines.
pub open spec fn is_known_mode(mode: u8) -> bool {
    mode == 0x28 || mode == 0x22 || mode == 0x42 || mode == 0x44 || mode == 0x48 || mode == 0x82
        || mode == 0x84 || mode == 0x88
}

impl Effect {
    /// Low bits of the mode byte that select this kind of nested effect.
    pub open spec fn code(self) -> u8 {
        match self {
            Effect::Respiration(_) => 0x02,
            Effect::Steady(_) => 0x04,
            Effect::Neon(_) => 0x08,
        }
    }

    /// The effect's parameter as it is stored in the third LED argument byte.
    pub open spec fn arg(self) -> u8 {
        match self {
            Effect::Respiration(s) => s.raw(),
            Effect::Neon(s) => s.raw(),
            Effect::Steady(b) => b.raw(),
        }
    }

    /// The nested effect named by `code`, with its parameter decoded from
    /// `arg`: 0x02 a respiration (breathe speed), 0x04 a steady glow
    /// (brightness), 0x08 neon (neon speed).
    pub open spec fn spec_from_raw(code: u8, arg: u8) -> Result<Effect, ProtocolError> {
        if code == 0x02 {
            match breathe::Speed::spec_from_raw(arg) {
                Ok(s) => Ok(Effect::Respiration(s)),
                Err(e) => Err(e),
            }
        } else if code == 0x04 {
            match steady::Brightnes::spec_from_raw(arg) {
                Ok(b) => Ok(Effect::Steady(b)),
                Err(e) => Err(e),
            }
        } else if code == 0x08 {
            match neon::Speed::spec_from_raw(arg) {
                Ok(s) => Ok(Effect::Neon(s)),
                Err(e) => Err(e),
            }
        } else {
            Err(ProtocolError::InvalidRawInput)
        }
    }

    /// Decodes a nested effect from its selector bits and its parameter byte.
    pub fn from_raw(code: u8, arg: u8) -> (r: Result<Self, ProtocolError>)
        ensures
            r == Self::spec_from_raw(code, arg),
    {
        if code == 0x02 {
            Ok(Effect::Respiration(breathe::Speed::from_raw(arg)?))
        } else if code == 0x04 {
            Ok(Effect::Steady(steady::Brightnes::from_raw(arg)?))
        } else if code == 0x08 {
            Ok(Effect::Neon(neon::Speed::from_raw(arg)?))
        } else {
            Err(ProtocolError::InvalidRawInput)
        }
    }

    /// Encodes the nested effect as its selector bits and its parameter byte.
    pub fn to_raw(&self) -> (r: (u8, u8))
        ensures
            r == (self.code(), self.arg()),
    {
        match self {
            Effect::Respiration(s) => (0x02, s.to_raw()),
            Effect::Steady(b) => (0x04, b.to_raw()),
            Effect::Neon(s) => (0x08, s.to_raw()),
        }
    }

    /// Decoding the encoding of a nested effect gives it back.
    pub proof fn lemma_raw_round_trip(self)
        ensures
            Self::spec_from_raw(self.code(), self.arg()) == Ok::<Effect, ProtocolError>(self),
    {
        match self {
            Effect::Respiration(s) => s.lemma_raw_round_trip(),
            Effect::Neon(s) => s.lemma_raw_round_trip(),
            Effect::Steady(b) => b.lemma_raw_round_trip(),
        }
    }
}

impl Config {
    /// The four LED bytes (mode, arg1, arg2, arg3) that encode this configuration;
    /// argument slots that the mode does not use are zero.
    pub open spec fn spec_to_raw(self) -> (u8, u8, u8, u8) {
        match self {
            Config::Steady(b) => (MODE_STEADY, 0, 0, b.raw()),
            Config::Breathe(s) => (MODE_BREATHE, 0, 0, s.raw()),
            Config::BlinkEffect(f, t, e) => ((MODE_BLINK + e.code()) as u8, f.raw(), t.raw(), e.arg()),
            Config::SteadyEffect(t, e) => ((MODE_STEADY_EFFECT + e.code()) as u8, t.raw(), 0, e.arg()),
        }
    }

    /// The configuration that the four LED bytes encode. The mode byte selects
    /// the variant and, for the composite ones, the nested effect; any other
    /// mode byte, or an argument outside its scale, is `InvalidRawInput`.
    pub open spec fn spec_from_raw(mode: u8, arg1: u8, arg2: u8, arg3: u8) -> Result<
        Config,
        ProtocolError,
    > {
        if mode == MODE_STEADY {
            match steady::Brightnes::spec_from_raw(arg3) {
                Ok(b) => Ok(Config::Steady(b)),
                Err(e) => Err(e),
            }
        } else if mode == MODE_BREATHE {
            match breathe::Speed::spec_from_raw(arg3) {
                Ok(s) => Ok(Config::Breathe(s)),
                Err(e) => Err(e),
            }
        } else if mode == 0x42 || mode == 0x44 || mode == 0x48 {
            match (
                blink::Frequency::spec_from_raw(arg1),
                blink::Times::spec_from_raw(arg2),
                Effect::spec_from_raw((mode - MODE_BLINK) as u8, arg3),
            ) {
                (Ok(f), Ok(t), Ok(e)) => Ok(Config::BlinkEffect(f, t, e)),
                _ => Err(ProtocolError::InvalidRawInput),
            }
        } else if mode == 0x82 || mode == 0x84 || mode == 0x88 {
            match (
                steady::EffectTime::spec_from_raw(arg1),
                Effect::spec_from_raw((mode - MODE_STEADY_EFFECT) as u8, arg3),
            ) {
                (Ok(t), Ok(e)) => Ok(Config::SteadyEffect(t, e)),
                _ => Err(ProtocolError::InvalidRawInput),
            }
        } else {
            Err(ProtocolError::InvalidRawInput)
        }
    }

    /// Decodes the four LED bytes of the raw report.
    pub fn from_raw(led_mode: u8, led_arg1: u8, led_arg2: u8, led_arg3: u8) -> (r: Result<
        Self,
        ProtocolError,
    >)
        ensures
            r == Self::spec_from_raw(led_mode, led_arg1, led_arg2, led_arg3),
            !is_known_mode(led_mode) ==> r == Err::<Config, ProtocolError>(
                ProtocolError::InvalidRawInput,
            ),
    {
        if led_mode == MODE_STEADY {
            Ok(Config::Steady(steady::Brightnes::from_raw(led_arg3)?))
        } else if led_mode == MODE_BREATHE {
            Ok(Config::Breathe(breathe::Speed::from_raw(led_arg3)?))
        } else if led_mode == 0x42 || led_mode == 0x44 || led_mode == 0x48 {
            let frequency = blink::Frequency::from_raw(led_arg1)?;
            let times = blink::Times::from_raw(led_arg2)?;
            let effect = Effect::from_raw(led_mode - MODE_BLINK, led_arg3)?;
            Ok(Config::BlinkEffect(frequency, times, effect))
        } else if led_mode == 0x82 || led_mode == 0x84 || led_mode == 0x88 {
            let time = steady::EffectTime::from_raw(led_arg1)?;
            let effect = Effect::from_raw(led_mode - MODE_STEADY_EFFECT, led_arg3)?;
            Ok(Config::SteadyEffect(time, effect))
        } else {
            Err(ProtocolError::InvalidRawInput)
        }
    }

    /// Encodes the configuration as the four LED bytes (mode, arg1, arg2, arg3).
    pub fn to_raw(&self) -> (r: (u8, u8, u8, u8))
        ensures
            r == self.spec_to_raw(),
            is_known_mode(r.0),
    {
        match self {
            Config::Steady(b) => (MODE_STEADY, 0x0, 0x0, b.to_raw()),
            Config::Breathe(s) => (MODE_BREATHE, 0x0, 0x0, s.to_raw()),
            Config::BlinkEffect(f, t, e) => {
                let (code, arg) = e.to_raw();
                (MODE_BLINK + code, f.to_raw(), t.to_raw(), arg)
            },
            Config::SteadyEffect(t, e) => {
                let (code, arg) = e.to_raw();
                (MODE_STEADY_EFFECT + code, t.to_raw(), 0x0, arg)
            },
        }
    }

    /// Decoding the LED bytes of any configuration gives that configuration back,
    /// and its mode byte is one that the device defines.
    pub proof fn lemma_raw_round_trip(self)
        ensures
            ({
                let (m, a1, a2, a3) = self.spec_to_raw();
                &&& Self::spec_from_raw(m, a1, a2, a3) == Ok::<Config, ProtocolError>(self)
                &&& is_known_mode(m)
            }),
    {
        match self {
            Config::Steady(b) => b.lemma_raw_round_trip(),
            Config::Breathe(s) => s.lemma_raw_round_trip(),
            Config::BlinkEffect(f, t, e) => {
                f.lemma_raw_round_trip();
                t.lemma_raw_round_trip();
                e.lemma_raw_round_trip();
            },
            Config::SteadyEffect(t, e) => {
                t.lemma_raw_round_trip();
                e.lemma_raw_round_trip();
            },
        }
    }
}

} // verus!
