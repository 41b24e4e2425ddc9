use vstd::prelude::*;

use crate::protocol::error::ProtocolError;

verus! {

/// Brightness of a steady glow, in ten levels from 5% to 100%.
#[derive(Debug, Clone, Copy, PartialEq, Eq, Structural)]
pub enum Brightnes {
    P5,
    P15,
    P25,
    P35,
    P45,
    P55,
    P65,
    P75,
    P85,
    P100,
}

impl Default for Brightnes {
    fn default() -> (r: Self)
        ensures
            r == Brightnes::P85,
    {
        Brightnes::P85
    }
}

impl Brightnes {
    /// The 1-based ordinal of the level.
    pub open spec fn id(self) -> u8 {
        match self {
            Brightnes::P5 => 1,
            Brightnes::P15 => 2,
            Brightnes::P25 => 3,
            Brightnes::P35 => 4,
            Brightnes::P45 => 5,
            Brightnes::P55 => 6,
            Brightnes::P65 => 7,
            Brightnes::P75 => 8,
            Brightnes::P85 => 9,
            Brightnes::P100 => 10,
        }
    }

    /// Wire byte of the level: `id * 0x10 + 0x02`.
    pub open spec fn raw(self) -> u8 {
        (self.id() * 0x10 + 0x02) as u8
    }

    /// Level of a raw byte: its ordinal is `(raw - 0x02) / 0x10`; bytes below
    /// 0x02 have none.
    pub open spec fn spec_from_raw(raw: u8) -> Result<Brightnes, ProtocolError> {
        if raw < 0x02 {
            Err(ProtocolError::InvalidRawInput)
        } else {
            Self::spec_from_id(((raw - 0x02) / 0x10) as u8)
        }
    }

    /// Level with the given ordinal, if there is one.
    pub open spec fn spec_from_id(id: u8) -> Result<Brightnes, ProtocolError> {
        match id {
            1 => Ok(Brightnes::P5),
            2 => Ok(Brightnes::P15),
            3 => Ok(Brightnes::P25),
            4 => Ok(Brightnes::P35),
            5 => Ok(Brightnes::P45),
            6 => Ok(Brightnes::P55),
            7 => Ok(Brightnes::P65),
            8 => Ok(Brightnes::P75),
            9 => Ok(Brightnes::P85),
            10 => Ok(Brightnes::P100),
            _ => Err(ProtocolError::InvalidRawInput),
        }
    }

    /// Decodes a wire byte; fails with `InvalidRawInput` where it names no level.
    pub fn from_raw(raw: u8) -> (r: Result<Self, ProtocolError>)
        ensures
            r == Self::spec_from_raw(raw),
            r is Ok <==> raw >= 0x02 && 1 <= (raw - 0x02) / 0x10 <= 10,
            r is Ok ==> r->Ok_0.id() == (raw - 0x02) / 0x10,
    {
        if raw < 0x02 {
            return Err(ProtocolError::InvalidRawInput);
        }
        let id: u8 = (raw - 0x02) / 0x10;
        Self::from_id(id)
    }

    /// The level with ordinal `id`; fails with `InvalidRawInput` outside 1..=10.
    pub fn from_id(id: u8) -> (r: Result<Self, ProtocolError>)
        ensures
            r == Self::spec_from_id(id),
            r is Ok <==> 1 <= id <= 10,
            r is Ok ==> r->Ok_0.id() == id,
    {
        let r = match id {
            1 => Brightnes::P5,
            2 => Brightnes::P15,
            3 => Brightnes::P25,
            4 => Brightnes::P35,
            5 => Brightnes::P45,
            6 => Brightnes::P55,
            7 => Brightnes::P65,
            8 => Brightnes::P75,
            9 => Brightnes::P85,
            10 => Brightnes::P100,
            _ => return Err(ProtocolError::InvalidRawInput),
        };
        Ok(r)
    }

    /// Encodes the level as its wire byte.
    pub fn to_raw(&self) -> (r: u8)
        ensures
            r == self.raw(),
            r as int == self.id() * 0x10 + 0x02,
    {
        match self {
            Brightnes::P5 => 0x12,
            Brightnes::P15 => 0x22,
            Brightnes::P25 => 0x32,
            Brightnes::P35 => 0x42,
            Brightnes::P45 => 0x52,
            Brightnes::P55 => 0x62,
            Brightnes::P65 => 0x72,
            Brightnes::P75 => 0x82,
            Brightnes::P85 => 0x92,
            Brightnes::P100 => 0xa2,
        }
    }

    /// The 1-based ordinal of the level.
    pub fn ordinal(&self) -> (r: u8)
        ensures
            r == self.id(),
    {
        match self {
            Brightnes::P5 => 1,
            Brightnes::P15 => 2,
            Brightnes::P25 => 3,
            Brightnes::P35 => 4,
            Brightnes::P45 => 5,
            Brightnes::P55 => 6,
            Brightnes::P65 => 7,
            Brightnes::P75 => 8,
            Brightnes::P85 => 9,
            Brightnes::P100 => 10,
        }
    }

    /// Decoding the wire byte of a level gives that level back.
    pub proof fn lemma_raw_round_trip(self)
        ensures
            Self::spec_from_raw(self.raw()) == Ok::<Brightnes, ProtocolError>(self),
    {
    }
}

/// How long a steady effect holds, in ten steps of half a second from 0.5 s to 5 s.
#[derive(Debug, Clone, Copy, PartialEq, Eq, Structural)]
pub enum EffectTime {
    S0_5,
    S1,
    S1_5,
    S2,
    S2_5,
    S3,
    S3_5,
    S4,
    S4_5,
    S5,
}

impl EffectTime {
    /// The 1-based ordinal of the level.
    pub open spec fn id(self) -> u8 {
        match self {
            EffectTime::S0_5 => 1,
            EffectTime::S1 => 2,
            EffectTime::S1_5 => 3,
            EffectTime::S2 => 4,
            EffectTime::S2_5 => 5,
            EffectTime::S3 => 6,
            EffectTime::S3_5 => 7,
            EffectTime::S4 => 8,
            EffectTime::S4_5 => 9,
            EffectTime::S5 => 10,
        }
    }

    /// Wire byte of the level: the ordinal itself.
    pub open spec fn raw(self) -> u8 {
        self.id()
    }

    /// Level whose ordinal is the raw byte itself.
    pub open spec fn spec_from_raw(raw: u8) -> Result<EffectTime, ProtocolError> {
        Self::spec_from_id(raw)
    }

    /// Level with the given ordinal, if there is one.
    pub open spec fn spec_from_id(id: u8) -> Result<EffectTime, ProtocolError> {
        match id {
            1 => Ok(EffectTime::S0_5),
            2 => Ok(EffectTime::S1),
            3 => Ok(EffectTime::S1_5),
            4 => Ok(EffectTime::S2),
            5 => Ok(EffectTime::S2_5),
            6 => Ok(EffectTime::S3),
            7 => Ok(EffectTime::S3_5),
            8 => Ok(EffectTime::S4),
            9 => Ok(EffectTime::S4_5),
            10 => Ok(EffectTime::S5),
            _ => Err(ProtocolError::InvalidRawInput),
        }
    }

    /// Decodes a wire byte; fails with `InvalidRawInput` where it names no level.
    pub fn from_raw(raw: u8) -> (r: Result<Self, ProtocolError>)
        ensures
            r == Self::spec_from_raw(raw),
            r is Ok <==> 1 <= raw <= 10,
            r is Ok ==> r->Ok_0.id() == raw,
    {
        Self::from_id(raw)
    }

    /// The level with ordinal `id`; fails with `InvalidRawInput` outside 1..=10.
    pub fn from_id(id: u8) -> (r: Result<Self, ProtocolError>)
        ensures
            r == Self::spec_from_id(id),
            r is Ok <==> 1 <= id <= 10,
            r is Ok ==> r->Ok_0.id() == id,
    {
        let r = match id {
            1 => EffectTime::S0_5,
            2 => EffectTime::S1,
            3 => EffectTime::S1_5,
            4 => EffectTime::S2,
            5 => EffectTime::S2_5,
            6 => EffectTime::S3,
            7 => EffectTime::S3_5,
            8 => EffectTime::S4,
            9 => EffectTime::S4_5,
            10 => EffectTime::S5,
            _ => return Err(ProtocolError::InvalidRawInput),
        };
        Ok(r)
    }

    /// Encodes the level as its wire byte.
    pub fn to_raw(&self) -> (r: u8)
        ensures
            r == self.raw(),
            r == self.id(),
    {
        match self {
            EffectTime::S0_5 => 0x01,
            EffectTime::S1 => 0x02,
            EffectTime::S1_5 => 0x03,
            EffectTime::S2 => 0x04,
            EffectTime::S2_5 => 0x05,
            EffectTime::S3 => 0x06,
            EffectTime::S3_5 => 0x07,
            EffectTime::S4 => 0x08,
            EffectTime::S4_5 => 0x09,
            EffectTime::S5 => 0x0a,
        }
    }

    /// The 1-based ordinal of the level.
    pub fn ordinal(&self) -> (r: u8)
        ensures
            r == self.id(),
    {
        match self {
            EffectTime::S0_5 => 1,
            EffectTime::S1 => 2,
            EffectTime::S1_5 => 3,
            EffectTime::S2 => 4,
            EffectTime::S2_5 => 5,
            EffectTime::S3 => 6,
            EffectTime::S3_5 => 7,
            EffectTime::S4 => 8,
            EffectTime::S4_5 => 9,
            EffectTime::S5 => 10,
        }
    }

    /// Decoding the wire byte of a level gives that level back.
    pub proof fn lemma_raw_round_trip(self)
        ensures
            Self::spec_from_raw(self.raw()) == Ok::<EffectTime, ProtocolError>(self),
    {
    }
}
} // verus!
