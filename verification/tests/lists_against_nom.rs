use nom::bytes::streaming::take;
use nom::combinator::{complete, map_parser, opt};
use nom::multi::{length_data, many0};
use nom::number::streaming::{be_u16, be_u8};
use nom::IResult;
use tls_extensions::content::{
    parse_tls_extension_alpn_content, parse_tls_extension_oid_filters,
    parse_tls_extension_signature_algorithms_content,
    parse_tls_extension_signed_certificate_timestamp_content, parse_tls_extension_sni_content,
};
use tls_extensions::{Needed, OidFilter, ParseError, SNIType, TlsExtension};

fn outcome<'a, T>(r: IResult<&'a [u8], T>) -> Result<(&'a [u8], T), ParseError> {
    match r {
        Ok(p) => Ok(p),
        Err(nom::Err::Incomplete(nom::Needed::Size(n))) => {
            Err(ParseError::Incomplete(Needed::Size(n.get())))
        }
        Err(e) => panic!("unexpected {:?}", e),
    }
}

fn inputs() -> Vec<Vec<u8>> {
    let mut out: Vec<Vec<u8>> = Vec::new();
    let mut state: u32 = 0x2545_f491;
    for round in 0..4000u32 {
        let mut v: Vec<u8> = Vec::new();
        state = state.wrapping_mul(1664525).wrapping_add(1013904223);
        let len = (state >> 24) % 14;
        v.push(0);
        state = state.wrapping_mul(1664525).wrapping_add(1013904223);
        v.push(((state >> 24) % 16) as u8);
        for _ in 0..len {
            state = state.wrapping_mul(1664525).wrapping_add(1013904223);
            let small = if round % 2 == 0 { 4 } else { 3 };
            v.push(((state >> 24) % small) as u8);
        }
        out.push(v);
    }
    out.push(vec![]);
    out.push(vec![0]);
    out
}

fn sni_entry(i: &[u8]) -> IResult<&[u8], (u8, &[u8])> {
    let (i, t) = be_u8(i)?;
    let (i, v) = length_data(be_u16)(i)?;
    Ok((i, (t, v)))
}

fn sni_list(i: &[u8]) -> IResult<&[u8], Vec<(u8, &[u8])>> {
    let (i, list_len) = be_u16(i)?;
    map_parser(take(list_len), many0(complete(sni_entry)))(i)
}

fn name(i: &[u8]) -> IResult<&[u8], &[u8]> {
    length_data(be_u8)(i)
}

fn filter(i: &[u8]) -> IResult<&[u8], (&[u8], &[u8])> {
    let (i, oid) = length_data(be_u8)(i)?;
    let (i, val) = length_data(be_u16)(i)?;
    Ok((i, (oid, val)))
}

#[test]
fn server_name_lists_agree_with_nom() {
    let mut with_entries = 0;
    for s in inputs() {
        let i: &[u8] = &s;
        let expected = outcome(sni_list(i)).map(|(rest, v)| {
            (rest, TlsExtension::SNI(v.into_iter().map(|(t, d)| (SNIType(t), d)).collect()))
        });
        if let Ok((_, TlsExtension::SNI(v))) = &expected {
            if v.len() >= 2 {
                with_entries += 1;
            }
        }
        assert_eq!(parse_tls_extension_sni_content(i), expected);
    }
    assert!(with_entries > 0);
}

#[test]
fn protocol_name_lists_agree_with_nom() {
    for s in inputs() {
        let i: &[u8] = &s;
        let expected = outcome(map_parser(length_data(be_u16), many0(complete(name)))(i))
            .map(|(rest, v)| (rest, TlsExtension::ALPN(v)));
        assert_eq!(parse_tls_extension_alpn_content(i), expected);
    }
}

#[test]
fn oid_filter_lists_agree_with_nom() {
    for s in inputs() {
        let i: &[u8] = &s;
        let expected = outcome(map_parser(length_data(be_u16), many0(complete(filter)))(i)).map(
            |(rest, v)| {
                (
                    rest,
                    TlsExtension::OidFilters(
                        v.into_iter()
                            .map(|(o, w)| OidFilter { cert_ext_oid: o, cert_ext_val: w })
                            .collect(),
                    ),
                )
            },
        );
        assert_eq!(parse_tls_extension_oid_filters(i), expected);
    }
}

#[test]
fn signature_algorithm_lists_agree_with_nom() {
    for s in inputs() {
        let i: &[u8] = &s;
        let expected = outcome(map_parser(length_data(be_u16), many0(complete(be_u16)))(i))
            .map(|(rest, v)| (rest, TlsExtension::SignatureAlgorithms(v)));
        assert_eq!(parse_tls_extension_signature_algorithms_content(i), expected);
    }
}

#[test]
fn optional_blob_agrees_with_nom() {
    for s in inputs() {
        let i: &[u8] = &s;
        let expected = outcome(opt(complete(length_data(be_u16)))(i))
            .map(|(rest, v)| (rest, TlsExtension::SignedCertificateTimestamp(v)));
        assert_eq!(parse_tls_extension_signed_certificate_timestamp_content(i), expected);
    }
}
