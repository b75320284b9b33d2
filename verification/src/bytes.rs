use vstd::prelude::*;
use vstd::slice::slice_subrange;
use crate::error::{ErrorKind, Needed, ParseError};

verus! {

/// The 16-bit number that two bytes spell, most significant byte first.
pub open spec fn spec_u16(hi: u8, lo: u8) -> u16 {
    (hi as int * 256 + lo as int) as u16
}

/// The 32-bit number that four bytes spell, most significant byte first.
pub open spec fn spec_u32(b0: u8, b1: u8, b2: u8, b3: u8) -> u32 {
    (b0 as int * 16777216 + b1 as int * 65536 + b2 as int * 256 + b3 as int) as u32
}

/// One byte, and the input behind it.
pub open spec fn spec_be_u8(s: Seq<u8>) -> Result<(Seq<u8>, u8), ParseError> {
    if s.len() < 1 {
        Err(ParseError::Incomplete(Needed::of(1 - s.len())))
    } else {
        Ok((s.skip(1), s[0]))
    }
}

/// A big-endian 16-bit number, and the input behind it.
pub open spec fn spec_be_u16(s: Seq<u8>) -> Result<(Seq<u8>, u16), ParseError> {
    if s.len() < 2 {
        Err(ParseError::Incomplete(Needed::of(2 - s.len())))
    } else {
        Ok((s.skip(2), spec_u16(s[0], s[1])))
    }
}

/// A big-endian 32-bit number, and the input behind it.
pub open spec fn spec_be_u32(s: Seq<u8>) -> Result<(Seq<u8>, u32), ParseError> {
    if s.len() < 4 {
        Err(ParseError::Incomplete(Needed::of(4 - s.len())))
    } else {
        Ok((s.skip(4), spec_u32(s[0], s[1], s[2], s[3])))
    }
}

/// The first `n` bytes, and the input behind them.
pub open spec fn spec_take(s: Seq<u8>, n: nat) -> Result<(Seq<u8>, Seq<u8>), ParseError> {
    if s.len() < n {
        Err(ParseError::Incomplete(Needed::of(n - s.len())))
    } else {
        Ok((s.skip(n as int), s.take(n as int)))
    }
}

/// A byte range whose length stands before it in one byte.
pub open spec fn spec_length_data_u8(s: Seq<u8>) -> Result<(Seq<u8>, Seq<u8>), ParseError> {
    match spec_be_u8(s) {
        Err(e) => Err(e),
        Ok((rest, n)) => spec_take(rest, n as nat),
    }
}

/// A byte range whose length stands before it as a big-endian 16-bit number.
pub open spec fn spec_length_data_u16(s: Seq<u8>) -> Result<(Seq<u8>, Seq<u8>), ParseError> {
    match spec_be_u16(s) {
        Err(e) => Err(e),
        Ok((rest, n)) => spec_take(rest, n as nat),
    }
}

/// The two constant bytes `hi`, `lo` at the head of the input. A byte that
/// differs is an error even where the input is too short to hold both.
pub open spec fn spec_tag2(s: Seq<u8>, hi: u8, lo: u8) -> Result<(Seq<u8>, ()), ParseError> {
    if s.len() >= 1 && s[0] != hi {
        Err(ParseError::Error(ErrorKind::Tag))
    } else if s.len() >= 2 && s[1] != lo {
        Err(ParseError::Error(ErrorKind::Tag))
    } else if s.len() < 2 {
        Err(ParseError::Incomplete(Needed::of(2 - s.len())))
    } else {
        Ok((s.skip(2), ()))
    }
}

/// What a decoder's outcome says in terms of byte sequences: the value as it
/// is, the remaining input by its contents.
pub open spec fn value_result<T>(r: Result<(&[u8], T), ParseError>) -> Result<
    (Seq<u8>, T),
    ParseError,
> {
    match r {
        Ok((rest, v)) => Ok((rest@, v)),
        Err(e) => Err(e),
    }
}

/// The outcome of a decoder that hands out a byte range.
pub open spec fn bytes_result(r: Result<(&[u8], &[u8]), ParseError>) -> Result<
    (Seq<u8>, Seq<u8>),
    ParseError,
> {
    match r {
        Ok((rest, v)) => Ok((rest@, v@)),
        Err(e) => Err(e),
    }
}

/// Reads one byte.
pub fn be_u8<'a>(i: &'a [u8]) -> (r: Result<(&'a [u8], u8), ParseError>)
    ensures
        value_result(r) == spec_be_u8(i@),
{
    let n: usize = i.len();
    if n < 1 {
        Err(ParseError::Incomplete(Needed::new(1 - n)))
    } else {
        Ok((slice_subrange(i, 1, n), i[0]))
    }
}

/// Reads a big-endian 16-bit number.
pub fn be_u16<'a>(i: &'a [u8]) -> (r: Result<(&'a [u8], u16), ParseError>)
    ensures
        value_result(r) == spec_be_u16(i@),
{
    let n: usize = i.len();
    if n < 2 {
        Err(ParseError::Incomplete(Needed::new(2 - n)))
    } else {
        let v: u16 = (i[0] as u16) * 256 + (i[1] as u16);
        Ok((slice_subrange(i, 2, n), v))
    }
}

/// Reads a big-endian 32-bit number.
pub fn be_u32<'a>(i: &'a [u8]) -> (r: Result<(&'a [u8], u32), ParseError>)
    ensures
        value_result(r) == spec_be_u32(i@),
{
    let n: usize = i.len();
    if n < 4 {
        Err(ParseError::Incomplete(Needed::new(4 - n)))
    } else {
        let v: u32 = (i[0] as u32) * 16777216 + (i[1] as u32) * 65536 + (i[2] as u32) * 256 + (
        i[3] as u32);
        Ok((slice_subrange(i, 4, n), v))
    }
}

/// Splits off the first `count` bytes; says how many are missing where the
/// input is shorter.
pub fn take<'a>(i: &'a [u8], count: usize) -> (r: Result<(&'a [u8], &'a [u8]), ParseError>)
    ensures
        bytes_result(r) == spec_take(i@, count as nat),
{
    let n: usize = i.len();
    if n < count {
        Err(ParseError::Incomplete(Needed::new(count - n)))
    } else {
        Ok((slice_subrange(i, count, n), slice_subrange(i, 0, count)))
    }
}

/// Reads a byte range whose length stands before it in one byte.
pub fn length_data_u8<'a>(i: &'a [u8]) -> (r: Result<(&'a [u8], &'a [u8]), ParseError>)
    ensures
        bytes_result(r) == spec_length_data_u8(i@),
{
    match be_u8(i) {
        Err(e) => Err(e),
        Ok((rest, n)) => take(rest, n as usize),
    }
}

/// Reads a byte range whose length stands before it as a big-endian 16-bit
/// number.
pub fn length_data_u16<'a>(i: &'a [u8]) -> (r: Result<(&'a [u8], &'a [u8]), ParseError>)
    ensures
        bytes_result(r) == spec_length_data_u16(i@),
{
    match be_u16(i) {
        Err(e) => Err(e),
        Ok((rest, n)) => take(rest, n as usize),
    }
}

/// Reads the two constant bytes `hi`, `lo`.
pub fn tag2<'a>(i: &'a [u8], hi: u8, lo: u8) -> (r: Result<(&'a [u8], ()), ParseError>)
    ensures
        value_result(r) == spec_tag2(i@, hi, lo),
{
    let n: usize = i.len();
    if n >= 1 && i[0] != hi {
        Err(ParseError::Error(ErrorKind::Tag))
    } else if n >= 2 && i[1] != lo {
        Err(ParseError::Error(ErrorKind::Tag))
    } else if n < 2 {
        Err(ParseError::Incomplete(Needed::new(2 - n)))
    } else {
        Ok((slice_subrange(i, 2, n), ()))
    }
}

} // verus!
