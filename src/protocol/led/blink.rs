use vstd::prelude::*;

use crate::protocol::error::ProtocolError;

verus! {

/// Blink frequency, from 1 Hz to 10 Hz.
#[derive(Debug, Clone, Copy, PartialEq, Eq, Structural)]
pub enum Frequency {
    Hz1,
    Hz2,
    Hz3,
    Hz4,
    Hz5,
    Hz6,
    Hz7,
    Hz8,
    Hz9,
    Hz10,
}

impl Default for Frequency {
    fn default() -> (r: Self)
        ensures
            r == Frequency::Hz1,
    {
        Frequency::Hz1
    }
}

impl Frequency {
    /// The 1-based ordinal of the level.
    pub open spec fn id(self) -> u8 {
        match self {
            Frequency::Hz1 => 1,
            Frequency::Hz2 => 2,
            Frequency::Hz3 => 3,
            Frequency::Hz4 => 4,
            Frequency::Hz5 => 5,
            Frequency::Hz6 => 6,
            Frequency::Hz7 => 7,
            Frequency::Hz8 => 8,
            Frequency::Hz9 => 9,
            Frequency::Hz10 => 10,
        }
    }

    /// Wire byte of the level: the ordinal itself.
    pub open spec fn raw(self) -> u8 {
        self.id()
    }

    /// Level whose ordinal is the raw byte itself.
    pub open spec fn spec_from_raw(raw: u8) -> Result<Frequency, ProtocolError> {
        Self::spec_from_id(raw)
    }

    /// Level with the given ordinal, if there is one.
    pub open spec fn spec_from_id(id: u8) -> Result<Frequency, ProtocolError> {
        match id {
            1 => Ok(Frequency::Hz1),
            2 => Ok(Frequency::Hz2),
            3 => Ok(Frequency::Hz3),
            4 => Ok(Frequency::Hz4),
            5 => Ok(Frequency::Hz5),
            6 => Ok(Frequency::Hz6),
            7 => Ok(Frequency::Hz7),
            8 => Ok(Frequency::Hz8),
            9 => Ok(Frequency::Hz9),
            10 => Ok(Frequency::Hz10),
            _ => Err(ProtocolError::InvalidRawInput),
        }
    }

    /// Decodes a wire byte; fails with `InvalidRawInput` where it names no level.
    pub fn from_raw(raw: u8) -> (r: Result<Self, ProtocolError>)
        ensures
            r == Self::spec_from_raw(raw),
            r is Ok <==> 1 <= raw <= 10,
            r is Ok ==> r->Ok_0.id() == raw,
    {
        Self::from_id(raw)
    }

    /// The level with ordinal `id`; fails with `InvalidRawInput` outside 1..=10.
    pub fn from_id(id: u8) -> (r: Result<Self, ProtocolError>)
        ensures
            r == Self::spec_from_id(id),
            r is Ok <==> 1 <= id <= 10,
            r is Ok ==> r->Ok_0.id() == id,
    {
        let r = match id {
            1 => Frequency::Hz1,
            2 => Frequency::Hz2,
            3 => Frequency::Hz3,
            4 => Frequency::Hz4,
            5 => Frequency::Hz5,
            6 => Frequency::Hz6,
            7 => Frequency::Hz7,
            8 => Frequency::Hz8,
            9 => Frequency::Hz9,
            10 => Frequency::Hz10,
            _ => return Err(ProtocolError::InvalidRawInput),
        };
        Ok(r)
    }

    /// Encodes the level as its wire byte.
    pub fn to_raw(&self) -> (r: u8)
        ensures
            r == self.raw(),
            r == self.id(),
    {
        match self {
            Frequency::Hz1 => 0x01,
            Frequency::Hz2 => 0x02,
            Frequency::Hz3 => 0x03,
            Frequency::Hz4 => 0x04,
            Frequency::Hz5 => 0x05,
            Frequency::Hz6 => 0x06,
            Frequency::Hz7 => 0x07,
            Frequency::Hz8 => 0x08,
            Frequency::Hz9 => 0x09,
            Frequency::Hz10 => 0x0a,
        }
    }

    /// The 1-based ordinal of the level.
    pub fn ordinal(&self) -> (r: u8)
        ensures
            r == self.id(),
    {
        match self {
            Frequency::Hz1 => 1,
            Frequency::Hz2 => 2,
            Frequency::Hz3 => 3,
            Frequency::Hz4 => 4,
            Frequency::Hz5 => 5,
            Frequency::Hz6 => 6,
            Frequency::Hz7 => 7,
            Frequency::Hz8 => 8,
            Frequency::Hz9 => 9,
            Frequency::Hz10 => 10,
        }
    }

    /// Decoding the wire byte of a level gives that level back.
    pub proof fn lemma_raw_round_trip(self)
        ensures
            Self::spec_from_raw(self.raw()) == Ok::<Frequency, ProtocolError>(self),
    {
    }
}

/// Number of blinks in a burst, from 1 to 10.
#[derive(Debug, Clone, Copy, PartialEq, Eq, Structural)]
pub enum Times {
    T1,
    T2,
    T3,
    T4,
    T5,
    T6,
    T7,
    T8,
    T9,
    T10,
}

impl Default for Times {
    fn default() -> (r: Self)
        ensures
            r == Times::T3,
    {
        Times::T3
    }
}

impl Times {
    /// The 1-based ordinal of the level.
    pub open spec fn id(self) -> u8 {
        match self {
            Times::T1 => 1,
            Times::T2 => 2,
            Times::T3 => 3,
            Times::T4 => 4,
            Times::T5 => 5,
            Times::T6 => 6,
            Times::T7 => 7,
            Times::T8 => 8,
            Times::T9 => 9,
            Times::T10 => 10,
        }
    }

    /// Wire byte of the level: the ordinal itself.
    pub open spec fn raw(self) -> u8 {
        self.id()
    }

    /// Level whose ordinal is the raw byte itself.
    pub open spec fn spec_from_raw(raw: u8) -> Result<Times, ProtocolError> {
        Self::spec_from_id(raw)
    }

    /// Level with the given ordinal, if there is one.
    pub open spec fn spec_from_id(id: u8) -> Result<Times, ProtocolError> {
        match id {
            1 => Ok(Times::T1),
            2 => Ok(Times::T2),
            3 => Ok(Times::T3),
            4 => Ok(Times::T4),
            5 => Ok(Times::T5),
            6 => Ok(Times::T6),
            7 => Ok(Times::T7),
            8 => Ok(Times::T8),
            9 => Ok(Times::T9),
            10 => Ok(Times::T10),
            _ => Err(ProtocolError::InvalidRawInput),
        }
    }

    /// Decodes a wire byte; fails with `InvalidRawInput` where it names no level.
    pub fn from_raw(raw: u8) -> (r: Result<Self, ProtocolError>)
        ensures
            r == Self::spec_from_raw(raw),
            r is Ok <==> 1 <= raw <= 10,
            r is Ok ==> r->Ok_0.id() == raw,
    {
        Self::from_id(raw)
    }

    /// The level with ordinal `id`; fails with `InvalidRawInput` outside 1..=10.
    pub fn from_id(id: u8) -> (r: Result<Self, ProtocolError>)
        ensures
            r == Self::spec_from_id(id),
            r is Ok <==> 1 <= id <= 10,
            r is Ok ==> r->Ok_0.id() == id,
    {
        let r = match id {
            1 => Times::T1,
            2 => Times::T2,
            3 => Times::T3,
            4 => Times::T4,
            5 => Times::T5,
            6 => Times::T6,
            7 => Times::T7,
            8 => Times::T8,
            9 => Times::T9,
            10 => Times::T10,
            _ => return Err(ProtocolError::InvalidRawInput),
        };
        Ok(r)
    }

    /// Encodes the level as its wire byte.
    pub fn to_raw(&self) -> (r: u8)
        ensures
            r == self.raw(),
            r == self.id(),
    {
        match self {
            Times::T1 => 0x01,
            Times::T2 => 0x02,
            Times::T3 => 0x03,
            Times::T4 => 0x04,
            Times::T5 => 0x05,
            Times::T6 => 0x06,
            Times::T7 => 0x07,
            Times::T8 => 0x08,
            Times::T9 => 0x09,
            Times::T10 => 0x0a,
        }
    }

    /// The 1-based ordinal of the level.
    pub fn ordinal(&self) -> (r: u8)
        ensures
            r == self.id(),
    {
        match self {
            Times::T1 => 1,
            Times::T2 => 2,
            Times::T3 => 3,
            Times::T4 => 4,
            Times::T5 => 5,
            Times::T6 => 6,
            Times::T7 => 7,
            Times::T8 => 8,
            Times::T9 => 9,
            Times::T10 => 10,
        }
    }

    /// Decoding the wire byte of a level gives that level back.
    pub proof fn lemma_raw_round_trip(self)
        ensures
            Self::spec_from_raw(self.raw()) == Ok::<Times, ProtocolError>(self),
    {
    }
}
} // verus!
