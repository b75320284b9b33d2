use nom::bytes::streaming::{tag, take};
use nom::multi::length_data;
use nom::number::streaming::{be_u16, be_u32, be_u8};
use tls_extensions::bytes;
use tls_extensions::error::{ErrorKind, Needed, ParseError};
use tls_extensions::tls::{parse_tls_versions, parse_u16_list};
use tls_extensions::tls_ec::parse_named_groups;
use tls_extensions::{NamedGroup, TlsVersion};

fn from_nom<'a, T>(r: nom::IResult<&'a [u8], T>) -> Result<(&'a [u8], T), ParseError> {
    match r {
        Ok(p) => Ok(p),
        Err(nom::Err::Incomplete(nom::Needed::Size(n))) => {
            Err(ParseError::Incomplete(Needed::Size(n.get())))
        }
        Err(nom::Err::Incomplete(nom::Needed::Unknown)) => {
            Err(ParseError::Incomplete(Needed::Unknown))
        }
        Err(nom::Err::Error(e)) | Err(nom::Err::Failure(e)) => match e.code {
            nom::error::ErrorKind::Tag => Err(ParseError::Error(ErrorKind::Tag)),
            nom::error::ErrorKind::Verify => Err(ParseError::Error(ErrorKind::Verify)),
            k => panic!("unexpected kind {:?}", k),
        },
    }
}

fn samples() -> Vec<Vec<u8>> {
    let mut v: Vec<Vec<u8>> = Vec::new();
    let full: Vec<u8> = vec![0x00, 0x03, 0x01, 0x02, 0x03, 0xff, 0x00, 0x2b, 0x10, 0x00];
    for start in 0..full.len() {
        for end in start..=full.len() {
            v.push(full[start..end].to_vec());
        }
    }
    v.push(vec![0x05, 1, 2, 3, 4, 5, 6]);
    v.push(vec![0x05, 1, 2, 3, 4]);
    v.push(vec![0x00, 0x05, 1, 2, 3, 4, 5, 6]);
    v.push(vec![0x01, 0x00, 1, 2, 3]);
    v.push(vec![0xff, 0xff]);
    v
}

#[test]
fn integers_agree_with_nom() {
    for s in samples() {
        let i: &[u8] = &s;
        assert_eq!(bytes::be_u8(i), from_nom(be_u8(i)));
        assert_eq!(bytes::be_u16(i), from_nom(be_u16(i)));
        assert_eq!(bytes::be_u32(i), from_nom(be_u32(i)));
    }
}

#[test]
fn take_agrees_with_nom() {
    for s in samples() {
        let i: &[u8] = &s;
        for n in [0usize, 1, 2, 3, 9, 10, 11, 300, 65535] {
            assert_eq!(bytes::take(i, n), from_nom(take(n)(i)));
        }
    }
}

#[test]
fn length_data_agrees_with_nom() {
    for s in samples() {
        let i: &[u8] = &s;
        assert_eq!(bytes::length_data_u8(i), from_nom(length_data(be_u8)(i)));
        assert_eq!(bytes::length_data_u16(i), from_nom(length_data(be_u16)(i)));
    }
}

#[test]
fn tag_agrees_with_nom() {
    for s in samples() {
        let i: &[u8] = &s;
        for (hi, lo) in [(0x00u8, 0x03u8), (0x00, 0x00), (0x03, 0x01), (0xff, 0x00), (0x00, 0x2b)] {
            let expected = from_nom(tag([hi, lo])(i)).map(|(rest, _)| (rest, ()));
            assert_eq!(bytes::tag2(i, hi, lo), expected);
        }
    }
}

#[test]
fn integers_exact_values() {
    let i: &[u8] = &[0x12, 0x34, 0x56, 0x78, 0x9a];
    assert_eq!(bytes::be_u8(i), Ok((&i[1..], 0x12)));
    assert_eq!(bytes::be_u16(i), Ok((&i[2..], 0x1234)));
    assert_eq!(bytes::be_u32(i), Ok((&i[4..], 0x12345678)));
    let max: &[u8] = &[0xff, 0xff, 0xff, 0xff];
    assert_eq!(bytes::be_u16(max), Ok((&max[2..], 0xffff)));
    assert_eq!(bytes::be_u32(max), Ok((&max[4..], 0xffff_ffff)));
}

#[test]
fn short_input_says_how_much_is_missing() {
    let empty: &[u8] = &[];
    let one: &[u8] = &[1];
    assert_eq!(bytes::be_u8(empty), Err(ParseError::Incomplete(Needed::Size(1))));
    assert_eq!(bytes::be_u16(empty), Err(ParseError::Incomplete(Needed::Size(2))));
    assert_eq!(bytes::be_u16(one), Err(ParseError::Incomplete(Needed::Size(1))));
    assert_eq!(bytes::be_u32(one), Err(ParseError::Incomplete(Needed::Size(3))));
    assert_eq!(bytes::take(one, 10), Err(ParseError::Incomplete(Needed::Size(9))));
    assert_eq!(bytes::take(one, 1), Ok((empty, one)));
    assert_eq!(bytes::take(one, 0), Ok((one, empty)));
    assert_eq!(Needed::new(0), Needed::Unknown);
    assert_eq!(Needed::new(3), Needed::Size(3));
}

#[test]
fn tag_mismatch_and_shortage() {
    let empty: &[u8] = &[];
    assert_eq!(bytes::tag2(empty, 0, 5), Err(ParseError::Incomplete(Needed::Size(2))));
    assert_eq!(bytes::tag2(&[0], 0, 5), Err(ParseError::Incomplete(Needed::Size(1))));
    assert_eq!(bytes::tag2(&[1], 0, 5), Err(ParseError::Error(ErrorKind::Tag)));
    assert_eq!(bytes::tag2(&[0, 6], 0, 5), Err(ParseError::Error(ErrorKind::Tag)));
    let ok: &[u8] = &[0, 5, 9];
    assert_eq!(bytes::tag2(ok, 0, 5), Ok((&ok[2..], ())));
}

#[test]
fn u16_lists() {
    let empty: &[u8] = &[];
    assert_eq!(parse_u16_list(empty), Vec::<u16>::new());
    assert_eq!(parse_u16_list(&[0x04, 0x03]), vec![0x0403]);
    assert_eq!(parse_u16_list(&[0x04, 0x03, 0x08, 0x04, 0x01]), vec![0x0403, 0x0804]);
    assert_eq!(parse_u16_list(&[0x04]), Vec::<u16>::new());
}

#[test]
fn version_lists() {
    let empty: &[u8] = &[];
    assert_eq!(parse_tls_versions(empty), Ok((empty, vec![])));
    assert_eq!(
        parse_tls_versions(&[0x03, 0x04, 0x03, 0x03]),
        Ok((empty, vec![TlsVersion(0x0304), TlsVersion(0x0303)]))
    );
    assert_eq!(parse_tls_versions(&[0x03]), Err(ParseError::Error(ErrorKind::Verify)));
    assert_eq!(
        parse_tls_versions(&[0x03, 0x04, 0x03]),
        Err(ParseError::Error(ErrorKind::Verify))
    );
}

#[test]
fn named_group_lists() {
    let empty: &[u8] = &[];
    assert_eq!(parse_named_groups(empty), Ok((empty, vec![])));
    assert_eq!(
        parse_named_groups(&[0x00, 0x1d, 0x00, 0x17, 0x00, 0x17]),
        Ok((empty, vec![NamedGroup(0x001d), NamedGroup(0x0017), NamedGroup(0x0017)]))
    );
    assert_eq!(parse_named_groups(&[0x00, 0x1d, 0x00]), Err(ParseError::Error(ErrorKind::Verify)));
    let two: &[u8] = &[0x01, 0x00, 0xff];
    assert_eq!(NamedGroup::parse(two), Ok((&two[2..], NamedGroup(0x0100))));
    assert_eq!(NamedGroup::parse(&two[2..]), Err(ParseError::Incomplete(Needed::Size(1))));
}
