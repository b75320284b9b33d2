use vstd::prelude::*;
use crate::bytes::{be_u16, spec_be_u16, spec_u16};
use crate::error::{ErrorKind, ParseError};
use crate::tls::{list_result, spec_u16_list};

verus! {

/// The code of a named group: an elliptic curve or a finite field group.
#[derive(Clone, Copy, Debug, PartialEq, Eq, Structural)]
pub struct NamedGroup(pub u16);

/// One named group, and the input behind it.
pub open spec fn spec_parse_named_group(s: Seq<u8>) -> Result<(Seq<u8>, NamedGroup), ParseError> {
    match spec_be_u16(s) {
        Err(e) => Err(e),
        Ok((rest, v)) => Ok((rest, NamedGroup(v))),
    }
}

/// The groups that a list of whole byte pairs holds, in wire order; a list
/// of odd length holds none and is an error.
pub open spec fn spec_parse_named_groups(s: Seq<u8>) -> Result<
    (Seq<u8>, Seq<NamedGroup>),
    ParseError,
> {
    if s.len() % 2 == 1 {
        Err(ParseError::Error(ErrorKind::Verify))
    } else {
        Ok((s.skip(s.len() as int), spec_u16_list(s).map_values(|v: u16| NamedGroup(v))))
    }
}

impl NamedGroup {
    /// Decodes one named group: a big-endian 16-bit number.
    pub fn parse<'a>(i: &'a [u8]) -> (r: Result<(&'a [u8], NamedGroup), ParseError>)
        ensures
            crate::bytes::value_result(r) == spec_parse_named_group(i@),
    {
        match be_u16(i) {
            Err(e) => Err(e),
            Ok((rest, v)) => Ok((rest, NamedGroup(v))),
        }
    }
}

/// Decodes a list of named groups that fills the whole input.
pub fn parse_named_groups<'a>(i: &'a [u8]) -> (r: Result<(&'a [u8], Vec<NamedGroup>), ParseError>)
    ensures
        list_result(r) == spec_parse_named_groups(i@),
{
    let n: usize = i.len();
    if n % 2 == 1 {
        return Err(ParseError::Error(ErrorKind::Verify));
    }
    let mut v: Vec<NamedGroup> = Vec::new();
    let mut k: usize = 0;
    while k < n / 2
        invariant
            n == i@.len(),
            k <= n / 2,
            v@.len() == k,
            forall|j: int| 0 <= j < k ==> v@[j] == NamedGroup(spec_u16(i@[2 * j], i@[2 * j + 1])),
        decreases n / 2 - k,
    {
        let x: u16 = (i[2 * k] as u16) * 256 + (i[2 * k + 1] as u16);
        v.push(NamedGroup(x));
        k = k + 1;
    }
    assert(v@ =~= spec_u16_list(i@).map_values(|v: u16| NamedGroup(v)));
    Ok((vstd::slice::slice_subrange(i, n, n), v))
}

} // verus!
