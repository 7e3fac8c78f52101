//! A boolean that travels on the wire as the integer `0` or `1`.
use vstd::prelude::*;
use vstd::string::StringExecFns;

verus! {

/// A boolean carried on the wire as the integer `0` (false) or `1` (true).
#[derive(Clone, Copy, Debug, PartialEq, Eq, Hash, Structural)]
pub struct TinyInt(pub bool);

/// Decoding failure: the wire integer was neither `0` nor `1`.
#[derive(Clone, Copy, Debug, PartialEq, Eq, Structural)]
#[non_exhaustive]
pub enum TinyIntError {
    InvalidValue(u64),
}

/// The boolean a wire integer stands for, if any.
pub open spec fn tinyint_meaning(n: int) -> Option<bool> {
    if n == 0 {
        Some(false)
    } else if n == 1 {
        Some(true)
    } else {
        None
    }
}

/// The wire integer of a boolean.
pub open spec fn tinyint_wire(b: bool) -> int {
    if b {
        1
    } else {
        0
    }
}

/// The text a boolean displays as.
pub open spec fn bool_text(b: bool) -> Seq<char> {
    if b {
        "true"@
    } else {
        "false"@
    }
}

impl TinyInt {
    /// Decodes a wire integer: `0` is false, `1` is true, anything else is an
    /// error that carries the integer.
    pub fn decode(value: u64) -> (r: Result<TinyInt, TinyIntError>)
        ensures
            match tinyint_meaning(value as int) {
                Some(b) => r == Ok::<TinyInt, TinyIntError>(TinyInt(b)),
                None => r == Err::<TinyInt, TinyIntError>(TinyIntError::InvalidValue(value)),
            },
    {
        if value == 0 {
            Ok(TinyInt(false))
        } else if value == 1 {
            Ok(TinyInt(true))
        } else {
            Err(TinyIntError::InvalidValue(value))
        }
    }

    /// Decodes a one-byte wire integer.
    pub fn try_from_u8(value: u8) -> (r: Result<TinyInt, TinyIntError>)
        ensures
            match tinyint_meaning(value as int) {
                Some(b) => r == Ok::<TinyInt, TinyIntError>(TinyInt(b)),
                None => r == Err::<TinyInt, TinyIntError>(TinyIntError::InvalidValue(value as u64)),
            },
    {
        TinyInt::decode(value as u64)
    }

    /// Wraps a native boolean.
    pub fn from_bool(b: bool) -> (r: TinyInt)
        ensures
            r.0 == b,
    {
        TinyInt(b)
    }

    /// The canonical wire integer: `1` for true, `0` for false.
    pub fn encode(&self) -> (r: u8)
        ensures
            r as int == tinyint_wire(self.0),
    {
        if self.0 {
            1
        } else {
            0
        }
    }

    /// The display form: the boolean's text, not the integer.
    pub fn to_string(&self) -> (r: String)
        ensures
            r@ == bool_text(self.0),
    {
        if self.0 {
            String::from_str("true")
        } else {
            String::from_str("false")
        }
    }
}

/// Decoding the encoding of any value gives the value back.
pub proof fn lemma_tinyint_round_trip(t: TinyInt)
    ensures
        tinyint_meaning(tinyint_wire(t.0)) == Some(t.0),
{
}

/// Only `0` and `1` decode; every other integer is refused.
pub proof fn lemma_tinyint_strict(n: int)
    ensures
        tinyint_meaning(n) is Some <==> (n == 0 || n == 1),
        tinyint_meaning(0) == Some(false),
        tinyint_meaning(1) == Some(true),
{
}

} // verus!
