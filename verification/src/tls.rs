use vstd::prelude::*;
use crate::bytes::spec_u16;
use crate::error::{ErrorKind, ParseError};

verus! {

/// A protocol version as it stands on the wire, such as 0x0303.
#[derive(Clone, Copy, Debug, PartialEq, Eq, Structural)]
pub struct TlsVersion(pub u16);

/// The code of a cipher suite.
#[derive(Clone, Copy, Debug, PartialEq, Eq, Structural)]
pub struct TlsCipherSuiteID(pub u16);

/// The big-endian 16-bit numbers that the byte pairs of `s` spell, in order.
/// A last odd byte belongs to no pair.
pub open spec fn spec_u16_list(s: Seq<u8>) -> Seq<u16> {
    Seq::new((s.len() / 2) as nat, |k: int| spec_u16(s[2 * k], s[2 * k + 1]))
}

/// The versions that a list of whole byte pairs holds, in wire order; a list
/// of odd length holds none and is an error.
pub open spec fn spec_parse_tls_versions(s: Seq<u8>) -> Result<
    (Seq<u8>, Seq<TlsVersion>),
    ParseError,
> {
    if s.len() % 2 == 1 {
        Err(ParseError::Error(ErrorKind::Verify))
    } else {
        Ok((s.skip(s.len() as int), spec_u16_list(s).map_values(|v: u16| TlsVersion(v))))
    }
}

/// A decoder's outcome with a list for its value, by contents.
pub open spec fn list_result<T>(r: Result<(&[u8], Vec<T>), ParseError>) -> Result<
    (Seq<u8>, Seq<T>),
    ParseError,
> {
    match r {
        Ok((rest, v)) => Ok((rest@, v@)),
        Err(e) => Err(e),
    }
}

/// Decodes the big-endian 16-bit numbers of `i`, pair by pair.
pub fn parse_u16_list(i: &[u8]) -> (r: Vec<u16>)
    ensures
        r@ == spec_u16_list(i@),
{
    let n: usize = i.len() / 2;
    let mut v: Vec<u16> = Vec::new();
    let mut k: usize = 0;
    while k < n
        invariant
            n == i@.len() / 2,
            i@.len() <= usize::MAX,
            k <= n,
            v@.len() == k,
            forall|j: int| 0 <= j < k ==> v@[j] == spec_u16(i@[2 * j], i@[2 * j + 1]),
        decreases n - k,
    {
        let x: u16 = (i[2 * k] as u16) * 256 + (i[2 * k + 1] as u16);
        v.push(x);
        k = k + 1;
    }
    assert(v@ =~= spec_u16_list(i@));
    v
}

/// Decodes a list of versions that fills the whole input.
pub fn parse_tls_versions<'a>(i: &'a [u8]) -> (r: Result<(&'a [u8], Vec<TlsVersion>), ParseError>)
    ensures
        list_result(r) == spec_parse_tls_versions(i@),
{
    let n: usize = i.len();
    if n % 2 == 1 {
        return Err(ParseError::Error(ErrorKind::Verify));
    }
    let mut v: Vec<TlsVersion> = Vec::new();
    let mut k: usize = 0;
    while k < n / 2
        invariant
            n == i@.len(),
            k <= n / 2,
            v@.len() == k,
            forall|j: int| 0 <= j < k ==> v@[j] == TlsVersion(spec_u16(i@[2 * j], i@[2 * j + 1])),
        decreases n / 2 - k,
    {
        let x: u16 = (i[2 * k] as u16) * 256 + (i[2 * k + 1] as u16);
        v.push(TlsVersion(x));
        k = k + 1;
    }
    assert(v@ =~= spec_u16_list(i@).map_values(|v: u16| TlsVersion(v)));
    Ok((vstd::slice::slice_subrange(i, n, n), v))
}

} // verus!
