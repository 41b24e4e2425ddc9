use vstd::prelude::*;

use crate::protocol::error::ProtocolError;

verus! {

/// Speed of a breathing effect, in five levels.
#[derive(Debug, Clone, Copy, PartialEq, Eq, Structural)]
pub enum Speed {
    S4,
    S5,
    S6,
    S7,
    S8,
}

impl Default for Speed {
    fn default() -> (r: Self)
        ensures
            r == Speed::S4,
    {
        Speed::S4
    }
}

impl Speed {
    /// The 1-based ordinal of the level.
    pub open spec fn id(self) -> u8 {
        match self {
            Speed::S4 => 1,
            Speed::S5 => 2,
            Speed::S6 => 3,
            Speed::S7 => 4,
            Speed::S8 => 5,
        }
    }

    /// Wire byte of the level: `id * 0x10 + 0x02`.
    pub open spec fn raw(self) -> u8 {
        (self.id() * 0x10 + 0x02) as u8
    }

    /// Level of a raw byte: its ordinal is `(raw - 0x02) / 0x10`; bytes below
    /// 0x02 have none.
    pub open spec fn spec_from_raw(raw: u8) -> Result<Speed, ProtocolError> {
        if raw < 0x02 {
            Err(ProtocolError::InvalidRawInput)
        } else {
            Self::spec_from_id(((raw - 0x02) / 0x10) as u8)
        }
    }

    /// Level with the given ordinal, if there is one.
    pub open spec fn spec_from_id(id: u8) -> Result<Speed, ProtocolError> {
        match id {
            1 => Ok(Speed::S4),
            2 => Ok(Speed::S5),
            3 => Ok(Speed::S6),
            4 => Ok(Speed::S7),
            5 => Ok(Speed::S8),
            _ => Err(ProtocolError::InvalidRawInput),
        }
    }

    /// Decodes a wire byte; fails with `InvalidRawInput` where it names no level.
    pub fn from_raw(raw: u8) -> (r: Result<Self, ProtocolError>)
        ensures
            r == Self::spec_from_raw(raw),
            r is Ok <==> raw >= 0x02 && 1 <= (raw - 0x02) / 0x10 <= 5,
            r is Ok ==> r->Ok_0.id() == (raw - 0x02) / 0x10,
    {
        if raw < 0x02 {
            return Err(ProtocolError::InvalidRawInput);
        }
        let id: u8 = (raw - 0x02) / 0x10;
        Self::from_id(id)
    }

    /// The level with ordinal `id`; fails with `InvalidRawInput` outside 1..=5.
    pub fn from_id(id: u8) -> (r: Result<Self, ProtocolError>)
        ensures
            r == Self::spec_from_id(id),
            r is Ok <==> 1 <= id <= 5,
            r is Ok ==> r->Ok_0.id() == id,
    {
        let r = match id {
            1 => Speed::S4,
            2 => Speed::S5,
            3 => Speed::S6,
            4 => Speed::S7,
            5 => Speed::S8,
            _ => return Err(ProtocolError::InvalidRawInput),
        };
        Ok(r)
    }

    /// Encodes the level as its wire byte.
    pub fn to_raw(&self) -> (r: u8)
        ensures
            r == self.raw(),
            r as int == self.id() * 0x10 + 0x02,
    {
        match self {
            Speed::S4 => 0x12,
            Speed::S5 => 0x22,
            Speed::S6 => 0x32,
            Speed::S7 => 0x42,
            Speed::S8 => 0x52,
        }
    }

    /// The 1-based ordinal of the level.
    pub fn ordinal(&self) -> (r: u8)
        ensures
            r == self.id(),
    {
        match self {
            Speed::S4 => 1,
            Speed::S5 => 2,
            Speed::S6 => 3,
            Speed::S7 => 4,
            Speed::S8 => 5,
        }
    }

    /// Decoding the wire byte of a level gives that level back.
    pub proof fn lemma_raw_round_trip(self)
        ensures
            Self::spec_from_raw(self.raw()) == Ok::<Speed, ProtocolError>(self),
    {
    }
}
} // verus!
