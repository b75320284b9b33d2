use vstd::prelude::*;

verus! {

/// How many further bytes a decoder needs before it can decide.
#[derive(Clone, Copy, Debug, PartialEq, Eq, Structural)]
pub enum Needed {
    /// The amount is not known.
    Unknown,
    /// At least this many further bytes; never zero.
    Size(usize),
}

/// The grammar rule that an input broke.
#[derive(Clone, Copy, Debug, PartialEq, Eq, Structural)]
pub enum ErrorKind {
    /// The leading bytes are not the expected constant.
    Tag,
    /// A fixed constraint of the grammar does not hold: a marker extension
    /// declares a payload, a body of fixed length has another length, a
    /// list of versions or of named groups has an odd length.
    Verify,
}

/// Why a decoder returned no value.
#[derive(Clone, Copy, Debug, PartialEq, Eq, Structural)]
pub enum ParseError {
    /// The input ends before the grammar does: decode again with more bytes.
    Incomplete(Needed),
    /// A verification failure: the input breaks the grammar, and more bytes
    /// will not help.
    Error(ErrorKind),
}

impl Needed {
    /// The request for `n` further bytes as a value: unknown where `n` is
    /// zero or beyond what the machine can count.
    pub open spec fn of(n: int) -> Needed {
        if n <= 0 || n > usize::MAX {
            Needed::Unknown
        } else {
            Needed::Size(n as usize)
        }
    }

    /// The request for `n` further bytes, unknown where `n` is zero.
    pub fn new(n: usize) -> (r: Needed)
        ensures
            r == Needed::of(n as int),
    {
        if n == 0 {
            Needed::Unknown
        } else {
            Needed::Size(n)
        }
    }
}

} // verus!
