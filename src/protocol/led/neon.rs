use vstd::prelude::*;

use crate::protocol::error::ProtocolError;

verus! {

/// Cycle time of the neon effect, in fifteen steps of half a second from 0.5 s to 7.5 s.
#[derive(Debug, Clone, Copy, PartialEq, Eq, Structural)]
pub enum Speed {
    S0_5,
    S1,
    S1_5,
    S2,
    S2_5,
    S3,
    S3_5,
    S4,
    S4_5,
    S5,
    S5_5,
    S6,
    S6_5,
    S7,
    S7_5,
}

impl Default for Speed {
    fn default() -> (r: Self)
        ensures
            r == Speed::S2,
    {
        Speed::S2
    }
}

impl Speed {
    /// The 1-based ordinal of the level.
    pub open spec fn id(self) -> u8 {
        match self {
            Speed::S0_5 => 1,
            Speed::S1 => 2,
            Speed::S1_5 => 3,
            Speed::S2 => 4,
            Speed::S2_5 => 5,
            Speed::S3 => 6,
            Speed::S3_5 => 7,
            Speed::S4 => 8,
            Speed::S4_5 => 9,
            Speed::S5 => 10,
            Speed::S5_5 => 11,
            Speed::S6 => 12,
            Speed::S6_5 => 13,
            Speed::S7 => 14,
            Speed::S7_5 => 15,
        }
    }

    /// Wire byte of the level: `id * 0x10`.
    pub open spec fn raw(self) -> u8 {
        (self.id() * 0x10) as u8
    }

    /// Level of a raw byte: its ordinal is `raw / 0x10`.
    pub open spec fn spec_from_raw(raw: u8) -> Result<Speed, ProtocolError> {
        Self::spec_from_id(raw / 0x10)
    }

    /// Level with the given ordinal, if there is one.
    pub open spec fn spec_from_id(id: u8) -> Result<Speed, ProtocolError> {
        match id {
            1 => Ok(Speed::S0_5),
            2 => Ok(Speed::S1),
            3 => Ok(Speed::S1_5),
            4 => Ok(Speed::S2),
            5 => Ok(Speed::S2_5),
            6 => Ok(Speed::S3),
            7 => Ok(Speed::S3_5),
            8 => Ok(Speed::S4),
            9 => Ok(Speed::S4_5),
            10 => Ok(Speed::S5),
            11 => Ok(Speed::S5_5),
            12 => Ok(Speed::S6),
            13 => Ok(Speed::S6_5),
            14 => Ok(Speed::S7),
            15 => Ok(Speed::S7_5),
            _ => Err(ProtocolError::InvalidRawInput),
        }
    }

    /// Decodes a wire byte; fails with `InvalidRawInput` where it names no level.
    pub fn from_raw(raw: u8) -> (r: Result<Self, ProtocolError>)
        ensures
            r == Self::spec_from_raw(raw),
            r is Ok <==> 1 <= raw / 0x10 <= 15,
            r is Ok ==> r->Ok_0.id() == raw / 0x10,
    {
        let id: u8 = raw / 0x10;
        Self::from_id(id)
    }

    /// The level with ordinal `id`; fails with `InvalidRawInput` outside 1..=15.
    pub fn from_id(id: u8) -> (r: Result<Self, ProtocolError>)
        ensures
            r == Self::spec_from_id(id),
            r is Ok <==> 1 <= id <= 15,
            r is Ok ==> r->Ok_0.id() == id,
    {
        let r = match id {
            1 => Speed::S0_5,
            2 => Speed::S1,
            3 => Speed::S1_5,
            4 => Speed::S2,
            5 => Speed::S2_5,
            6 => Speed::S3,
            7 => Speed::S3_5,
            8 => Speed::S4,
            9 => Speed::S4_5,
            10 => Speed::S5,
            11 => Speed::S5_5,
            12 => Speed::S6,
            13 => Speed::S6_5,
            14 => Speed::S7,
            15 => Speed::S7_5,
            _ => return Err(ProtocolError::InvalidRawInput),
        };
        Ok(r)
    }

    /// Encodes the level as its wire byte.
    pub fn to_raw(&self) -> (r: u8)
        ensures
            r == self.raw(),
            r as int == self.id() * 0x10,
    {
        match self {
            Speed::S0_5 => 0x10,
            Speed::S1 => 0x20,
            Speed::S1_5 => 0x30,
            Speed::S2 => 0x40,
            Speed::S2_5 => 0x50,
            Speed::S3 => 0x60,
            Speed::S3_5 => 0x70,
            Speed::S4 => 0x80,
            Speed::S4_5 => 0x90,
            Speed::S5 => 0xa0,
            Speed::S5_5 => 0xb0,
            Speed::S6 => 0xc0,
            Speed::S6_5 => 0xd0,
            Speed::S7 => 0xe0,
            Speed::S7_5 => 0xf0,
        }
    }

    /// The 1-based ordinal of the level.
    pub fn ordinal(&self) -> (r: u8)
        ensures
            r == self.id(),
    {
        match self {
            Speed::S0_5 => 1,
            Speed::S1 => 2,
            Speed::S1_5 => 3,
            Speed::S2 => 4,
            Speed::S2_5 => 5,
            Speed::S3 => 6,
            Speed::S3_5 => 7,
            Speed::S4 => 8,
            Speed::S4_5 => 9,
            Speed::S5 => 10,
            Speed::S5_5 => 11,
            Speed::S6 => 12,
            Speed::S6_5 => 13,
            Speed::S7 => 14,
            Speed::S7_5 => 15,
        }
    }

    /// Decoding the wire byte of a level gives that level back.
    pub proof fn lemma_raw_round_trip(self)
        ensures
            Self::spec_from_raw(self.raw()) == Ok::<Speed, ProtocolError>(self),
    {
    }
}
} // verus!
