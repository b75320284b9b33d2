use vstd::prelude::*;
use crate::bytes::{
    be_u16, be_u32, be_u8, length_data_u16, length_data_u8, spec_be_u16, spec_be_u32,
    spec_be_u8, spec_length_data_u16, spec_length_data_u8, spec_take, take,
};
use crate::error::{ErrorKind, ParseError};
use crate::lists::{
    parse_oid_filter_list, parse_protocol_name_list, parse_sni_list, spec_oid_filter_list,
    spec_protocol_name_list, spec_sni_list,
};
use crate::model::{ExtensionValue, TlsExtension};
use crate::registry::CertificateStatusType;
use crate::tls::{
    parse_tls_versions, parse_u16_list, spec_parse_tls_versions, spec_u16_list,
    TlsCipherSuiteID, TlsVersion,
};
use crate::tls_ec::{
    parse_named_groups, spec_parse_named_group, spec_parse_named_groups, NamedGroup,
};

verus! {

/// A decoder's outcome by contents: the decoded extension's value and the
/// bytes that remain, or the error.
pub open spec fn ext_result<'a>(r: Result<(&'a [u8], TlsExtension<'a>), ParseError>) -> Result<
    (Seq<u8>, ExtensionValue),
    ParseError,
> {
    match r {
        Ok((rest, ext)) => Ok((rest@, ext@)),
        Err(e) => Err(e),
    }
}

/// The outcome of a decoder of bytes, its byte range made into a value.
pub open spec fn spec_map_bytes(
    r: Result<(Seq<u8>, Seq<u8>), ParseError>,
    f: spec_fn(Seq<u8>) -> ExtensionValue,
) -> Result<(Seq<u8>, ExtensionValue), ParseError> {
    match r {
        Err(e) => Err(e),
        Ok((rest, d)) => Ok((rest, f(d))),
    }
}

/// A marker extension: it has no payload, and a declared length other than
/// zero is an error.
pub open spec fn spec_marker_content(s: Seq<u8>, ext_len: u16, v: ExtensionValue) -> Result<
    (Seq<u8>, ExtensionValue),
    ParseError,
> {
    if ext_len != 0 {
        Err(ParseError::Error(ErrorKind::Verify))
    } else {
        Ok((s, v))
    }
}

/// A server name list behind its 16-bit length in bytes.
pub open spec fn spec_sni_content(s: Seq<u8>) -> Result<(Seq<u8>, ExtensionValue), ParseError> {
    spec_map_bytes(
        spec_length_data_u16(s),
        |list: Seq<u8>| ExtensionValue::SNI(spec_sni_list(list)),
    )
}

/// One byte, which must be the whole body.
pub open spec fn spec_max_fragment_length_content(s: Seq<u8>) -> Result<
    (Seq<u8>, ExtensionValue),
    ParseError,
> {
    match spec_be_u8(s) {
        Err(e) => Err(e),
        Ok((rest, v)) => if rest.len() != 0 {
            Err(ParseError::Error(ErrorKind::Verify))
        } else {
            Ok((rest, ExtensionValue::MaxFragmentLength(v)))
        },
    }
}

/// Nothing where the declared length is zero; else the status type in one
/// byte and a request of the declared length less one.
pub open spec fn spec_status_request_content(s: Seq<u8>, ext_len: u16) -> Result<
    (Seq<u8>, ExtensionValue),
    ParseError,
> {
    if ext_len == 0 {
        Ok((s, ExtensionValue::StatusRequest(None)))
    } else {
        match spec_be_u8(s) {
            Err(e) => Err(e),
            Ok((s1, t)) => spec_map_bytes(
                spec_take(s1, (ext_len - 1) as nat),
                |d: Seq<u8>| ExtensionValue::StatusRequest(Some((CertificateStatusType(t), d))),
            ),
        }
    }
}

/// A list of named groups behind its 16-bit length in bytes.
pub open spec fn spec_elliptic_curves_content(s: Seq<u8>) -> Result<
    (Seq<u8>, ExtensionValue),
    ParseError,
> {
    match spec_length_data_u16(s) {
        Err(e) => Err(e),
        Ok((rest, list)) => match spec_parse_named_groups(list) {
            Err(e) => Err(e),
            Ok((_, groups)) => Ok((rest, ExtensionValue::EllipticCurves(groups))),
        },
    }
}

/// The point formats, undecoded, behind their one-byte length.
pub open spec fn spec_ec_point_formats_content(s: Seq<u8>) -> Result<
    (Seq<u8>, ExtensionValue),
    ParseError,
> {
    spec_map_bytes(spec_length_data_u8(s), |d: Seq<u8>| ExtensionValue::EcPointFormats(d))
}

/// A list of 16-bit codes behind its 16-bit length in bytes; a last odd
/// byte of the list is left out.
pub open spec fn spec_signature_algorithms_content(s: Seq<u8>) -> Result<
    (Seq<u8>, ExtensionValue),
    ParseError,
> {
    spec_map_bytes(
        spec_length_data_u16(s),
        |list: Seq<u8>| ExtensionValue::SignatureAlgorithms(spec_u16_list(list)),
    )
}

/// One byte, which must be the whole body.
pub open spec fn spec_heartbeat_content(s: Seq<u8>) -> Result<
    (Seq<u8>, ExtensionValue),
    ParseError,
> {
    match spec_be_u8(s) {
        Err(e) => Err(e),
        Ok((rest, v)) => if rest.len() != 0 {
            Err(ParseError::Error(ErrorKind::Verify))
        } else {
            Ok((rest, ExtensionValue::Heartbeat(v)))
        },
    }
}

/// A list of protocol names behind its 16-bit length in bytes.
pub open spec fn spec_alpn_content(s: Seq<u8>) -> Result<(Seq<u8>, ExtensionValue), ParseError> {
    spec_map_bytes(
        spec_length_data_u16(s),
        |list: Seq<u8>| ExtensionValue::ALPN(spec_protocol_name_list(list)),
    )
}

/// Filler of the declared length.
pub open spec fn spec_padding_content(s: Seq<u8>, ext_len: u16) -> Result<
    (Seq<u8>, ExtensionValue),
    ParseError,
> {
    spec_map_bytes(spec_take(s, ext_len as nat), |d: Seq<u8>| ExtensionValue::Padding(d))
}

/// A blob behind its 16-bit length where a whole one stands; else nothing,
/// with no byte consumed.
pub open spec fn spec_signed_certificate_timestamp_content(s: Seq<u8>) -> Result<
    (Seq<u8>, ExtensionValue),
    ParseError,
> {
    match spec_length_data_u16(s) {
        Ok((rest, d)) => Ok((rest, ExtensionValue::SignedCertificateTimestamp(Some(d)))),
        Err(_) => Ok((s, ExtensionValue::SignedCertificateTimestamp(None))),
    }
}

/// One big-endian 16-bit limit.
pub open spec fn spec_record_size_limit(s: Seq<u8>) -> Result<
    (Seq<u8>, ExtensionValue),
    ParseError,
> {
    match spec_be_u16(s) {
        Err(e) => Err(e),
        Ok((rest, v)) => Ok((rest, ExtensionValue::RecordSizeLimit(v))),
    }
}

/// A ticket of the declared length.
pub open spec fn spec_session_ticket_content(s: Seq<u8>, ext_len: u16) -> Result<
    (Seq<u8>, ExtensionValue),
    ParseError,
> {
    spec_map_bytes(spec_take(s, ext_len as nat), |d: Seq<u8>| ExtensionValue::SessionTicket(d))
}

/// A key share in its early code point, undecoded, of the declared length.
pub open spec fn spec_key_share_old_content(s: Seq<u8>, ext_len: u16) -> Result<
    (Seq<u8>, ExtensionValue),
    ParseError,
> {
    spec_map_bytes(spec_take(s, ext_len as nat), |d: Seq<u8>| ExtensionValue::KeyShareOld(d))
}

/// A key share, undecoded, of the declared length.
pub open spec fn spec_key_share_content(s: Seq<u8>, ext_len: u16) -> Result<
    (Seq<u8>, ExtensionValue),
    ParseError,
> {
    spec_map_bytes(spec_take(s, ext_len as nat), |d: Seq<u8>| ExtensionValue::KeyShare(d))
}

/// A pre-shared key offer, undecoded, of the declared length.
pub open spec fn spec_pre_shared_key_content(s: Seq<u8>, ext_len: u16) -> Result<
    (Seq<u8>, ExtensionValue),
    ParseError,
> {
    spec_map_bytes(spec_take(s, ext_len as nat), |d: Seq<u8>| ExtensionValue::PreSharedKey(d))
}

/// Nothing where the declared length is zero; else one big-endian 32-bit
/// size.
pub open spec fn spec_early_data_content(s: Seq<u8>, ext_len: u16) -> Result<
    (Seq<u8>, ExtensionValue),
    ParseError,
> {
    if ext_len > 0 {
        match spec_be_u32(s) {
            Err(e) => Err(e),
            Ok((rest, v)) => Ok((rest, ExtensionValue::EarlyData(Some(v)))),
        }
    } else {
        Ok((s, ExtensionValue::EarlyData(None)))
    }
}

/// The supported versions. The declared length decides between the two
/// forms: two bytes are one selected version; any other length is one byte
/// that counts the bytes of a list, which is read and not used, then a list
/// of versions in the declared length less one. A declared length of zero
/// is an error.
pub open spec fn spec_supported_versions_content(s: Seq<u8>, ext_len: u16) -> Result<
    (Seq<u8>, ExtensionValue),
    ParseError,
> {
    if ext_len == 2 {
        match spec_be_u16(s) {
            Err(e) => Err(e),
            Ok((rest, v)) => Ok((rest, ExtensionValue::SupportedVersions(seq![TlsVersion(v)]))),
        }
    } else if ext_len == 0 {
        Err(ParseError::Error(ErrorKind::Verify))
    } else {
        match spec_be_u8(s) {
            Err(e) => Err(e),
            Ok((s1, _)) => match spec_take(s1, (ext_len - 1) as nat) {
                Err(e) => Err(e),
                Ok((rest, d)) => match spec_parse_tls_versions(d) {
                    Err(e) => Err(e),
                    Ok((_, l)) => Ok((rest, ExtensionValue::SupportedVersions(l))),
                },
            },
        }
    }
}

/// A cookie of the declared length.
pub open spec fn spec_cookie_content(s: Seq<u8>, ext_len: u16) -> Result<
    (Seq<u8>, ExtensionValue),
    ParseError,
> {
    spec_map_bytes(spec_take(s, ext_len as nat), |d: Seq<u8>| ExtensionValue::Cookie(d))
}

/// The key exchange modes, one byte each, behind their one-byte count.
pub open spec fn spec_psk_key_exchange_modes_content(s: Seq<u8>) -> Result<
    (Seq<u8>, ExtensionValue),
    ParseError,
> {
    spec_map_bytes(spec_length_data_u8(s), |d: Seq<u8>| ExtensionValue::PskExchangeModes(d))
}

/// The renegotiated connection's verify data behind its one-byte length.
pub open spec fn spec_renegotiation_info_content(s: Seq<u8>) -> Result<
    (Seq<u8>, ExtensionValue),
    ParseError,
> {
    spec_map_bytes(spec_length_data_u8(s), |d: Seq<u8>| ExtensionValue::RenegotiationInfo(d))
}

/// An encrypted server name: cipher suite, named group, then the key share,
/// the record digest and the encrypted name, each behind a 16-bit length.
pub open spec fn spec_encrypted_server_name(s: Seq<u8>) -> Result<
    (Seq<u8>, ExtensionValue),
    ParseError,
> {
    match spec_be_u16(s) {
        Err(e) => Err(e),
        Ok((s1, cs)) => match spec_parse_named_group(s1) {
            Err(e) => Err(e),
            Ok((s2, group)) => match spec_length_data_u16(s2) {
                Err(e) => Err(e),
                Ok((s3, key_share)) => match spec_length_data_u16(s3) {
                    Err(e) => Err(e),
                    Ok((s4, record_digest)) => match spec_length_data_u16(s4) {
                        Err(e) => Err(e),
                        Ok((rest, encrypted_sni)) => Ok(
                            (
                                rest,
                                ExtensionValue::EncryptedServerName {
                                    ciphersuite: TlsCipherSuiteID(cs),
                                    group,
                                    key_share,
                                    record_digest,
                                    encrypted_sni,
                                },
                            ),
                        ),
                    },
                },
            },
        },
    }
}

/// A list of OID filters behind its 16-bit length in bytes.
pub open spec fn spec_oid_filters(s: Seq<u8>) -> Result<(Seq<u8>, ExtensionValue), ParseError> {
    spec_map_bytes(
        spec_length_data_u16(s),
        |list: Seq<u8>| ExtensionValue::OidFilters(spec_oid_filter_list(list)),
    )
}

/// Decodes the body of a server name indication extension: a server name list
/// behind its 16-bit length in bytes.
pub fn parse_tls_extension_sni_content<'a>(i: &'a [u8]) -> (r: Result<
    (&'a [u8], TlsExtension<'a>),
    ParseError,
>)
    ensures
        ext_result(r) == spec_sni_content(i@),
{
    match length_data_u16(i) {
        Err(e) => Err(e),
        Ok((rest, list)) => Ok((rest, TlsExtension::SNI(parse_sni_list(list)))),
    }
}

/// Decodes the body of a maximum fragment length extension: one byte, which
/// must be the whole body.
pub fn parse_tls_extension_max_fragment_length_content<'a>(i: &'a [u8]) -> (r: Result<
    (&'a [u8], TlsExtension<'a>),
    ParseError,
>)
    ensures
        ext_result(r) == spec_max_fragment_length_content(i@),
{
    match be_u8(i) {
        Err(e) => Err(e),
        Ok((rest, v)) => if rest.len() != 0 {
            Err(ParseError::Error(ErrorKind::Verify))
        } else {
            Ok((rest, TlsExtension::MaxFragmentLength(v)))
        },
    }
}

/// Decodes the body of a certificate status request extension: nothing where
/// the declared length is zero; else the status type in one byte and a
/// request of the declared length less one.
pub fn parse_tls_extension_status_request_content<'a>(i: &'a [u8], ext_len: u16) -> (r: Result<
    (&'a [u8], TlsExtension<'a>),
    ParseError,
>)
    ensures
        ext_result(r) == spec_status_request_content(i@, ext_len),
{
    if ext_len == 0 {
        Ok((i, TlsExtension::StatusRequest(None)))
    } else {
        match be_u8(i) {
            Err(e) => Err(e),
            Ok((i1, status_type)) => match take(i1, (ext_len - 1) as usize) {
                Err(e) => Err(e),
                Ok((rest, request)) => Ok(
                    (
                        rest,
                        TlsExtension::StatusRequest(
                            Some((CertificateStatusType(status_type), request)),
                        ),
                    ),
                ),
            },
        }
    }
}

/// Decodes the body of the supported groups extension: a list of named groups
/// behind its 16-bit length in bytes.
pub fn parse_tls_extension_elliptic_curves_content<'a>(i: &'a [u8]) -> (r: Result<
    (&'a [u8], TlsExtension<'a>),
    ParseError,
>)
    ensures
        ext_result(r) == spec_elliptic_curves_content(i@),
{
    match length_data_u16(i) {
        Err(e) => Err(e),
        Ok((rest, list)) => match parse_named_groups(list) {
            Err(e) => Err(e),
            Ok((_, groups)) => Ok((rest, TlsExtension::EllipticCurves(groups))),
        },
    }
}

/// Decodes the body of the supported point formats extension: the point
/// formats, undecoded, behind their one-byte length.
pub fn parse_tls_extension_ec_point_formats_content<'a>(i: &'a [u8]) -> (r: Result<
    (&'a [u8], TlsExtension<'a>),
    ParseError,
>)
    ensures
        ext_result(r) == spec_ec_point_formats_content(i@),
{
    match length_data_u8(i) {
        Err(e) => Err(e),
        Ok((rest, d)) => Ok((rest, TlsExtension::EcPointFormats(d))),
    }
}

/// Decodes the body of the signature algorithms extension: a list of 16-bit
/// codes behind its 16-bit length in bytes; a last odd byte of the list is
/// left out.
pub fn parse_tls_extension_signature_algorithms_content<'a>(i: &'a [u8]) -> (r: Result<
    (&'a [u8], TlsExtension<'a>),
    ParseError,
>)
    ensures
        ext_result(r) == spec_signature_algorithms_content(i@),
{
    match length_data_u16(i) {
        Err(e) => Err(e),
        Ok((rest, list)) => Ok((rest, TlsExtension::SignatureAlgorithms(parse_u16_list(list)))),
    }
}

/// Decodes the body of the heartbeat mode extension: one byte, which must be
/// the whole body.
pub fn parse_tls_extension_heartbeat_content<'a>(i: &'a [u8]) -> (r: Result<
    (&'a [u8], TlsExtension<'a>),
    ParseError,
>)
    ensures
        ext_result(r) == spec_heartbeat_content(i@),
{
    match be_u8(i) {
        Err(e) => Err(e),
        Ok((rest, v)) => if rest.len() != 0 {
            Err(ParseError::Error(ErrorKind::Verify))
        } else {
            Ok((rest, TlsExtension::Heartbeat(v)))
        },
    }
}

/// Decodes the body of an application layer protocol negotiation extension: a
/// list of protocol names behind its 16-bit length in bytes.
pub fn parse_tls_extension_alpn_content<'a>(i: &'a [u8]) -> (r: Result<
    (&'a [u8], TlsExtension<'a>),
    ParseError,
>)
    ensures
        ext_result(r) == spec_alpn_content(i@),
{
    match length_data_u16(i) {
        Err(e) => Err(e),
        Ok((rest, list)) => Ok((rest, TlsExtension::ALPN(parse_protocol_name_list(list)))),
    }
}

/// Decodes the body of a padding extension: filler of the declared length.
pub fn parse_tls_extension_padding_content<'a>(i: &'a [u8], ext_len: u16) -> (r: Result<
    (&'a [u8], TlsExtension<'a>),
    ParseError,
>)
    ensures
        ext_result(r) == spec_padding_content(i@, ext_len),
{
    match take(i, ext_len as usize) {
        Err(e) => Err(e),
        Ok((rest, d)) => Ok((rest, TlsExtension::Padding(d))),
    }
}

/// Decodes the body of a signed certificate timestamp extension: a blob
/// behind its 16-bit length where a whole one stands; else nothing, with no
/// byte consumed.
pub fn parse_tls_extension_signed_certificate_timestamp_content<'a>(i: &'a [u8]) -> (r: Result<
    (&'a [u8], TlsExtension<'a>),
    ParseError,
>)
    ensures
        ext_result(r) == spec_signed_certificate_timestamp_content(i@),
        r.is_ok(),
{
    match length_data_u16(i) {
        Ok((rest, d)) => Ok((rest, TlsExtension::SignedCertificateTimestamp(Some(d)))),
        Err(_) => Ok((i, TlsExtension::SignedCertificateTimestamp(None))),
    }
}

/// Decodes the encrypt-then-MAC marker: it has no payload, and a declared
/// length other than zero fails verification.
pub fn parse_tls_extension_encrypt_then_mac_content<'a>(i: &'a [u8], ext_len: u16) -> (r: Result<
    (&'a [u8], TlsExtension<'a>),
    ParseError,
>)
    ensures
        ext_result(r) == spec_marker_content(i@, ext_len, ExtensionValue::EncryptThenMac),
{
    if ext_len != 0 {
        return Err(ParseError::Error(ErrorKind::Verify));
    }
    Ok((i, TlsExtension::EncryptThenMac))
}

/// Decodes the extended master secret marker: it has no payload, and a declared
/// length other than zero fails verification.
pub fn parse_tls_extension_extended_master_secret_content<'a>(
    i: &'a [u8],
    ext_len: u16,
) -> (r: Result<(&'a [u8], TlsExtension<'a>), ParseError>)
    ensures
        ext_result(r) == spec_marker_content(i@, ext_len, ExtensionValue::ExtendedMasterSecret),
{
    if ext_len != 0 {
        return Err(ParseError::Error(ErrorKind::Verify));
    }
    Ok((i, TlsExtension::ExtendedMasterSecret))
}

/// Decodes the body of a record size limit extension: one big-endian 16-bit
/// limit.
pub fn parse_tls_extension_record_size_limit<'a>(i: &'a [u8]) -> (r: Result<
    (&'a [u8], TlsExtension<'a>),
    ParseError,
>)
    ensures
        ext_result(r) == spec_record_size_limit(i@),
{
    match be_u16(i) {
        Err(e) => Err(e),
        Ok((rest, v)) => Ok((rest, TlsExtension::RecordSizeLimit(v))),
    }
}

/// Decodes the body of a session ticket extension: a ticket of the declared
/// length.
pub fn parse_tls_extension_session_ticket_content<'a>(i: &'a [u8], ext_len: u16) -> (r: Result<
    (&'a [u8], TlsExtension<'a>),
    ParseError,
>)
    ensures
        ext_result(r) == spec_session_ticket_content(i@, ext_len),
{
    match take(i, ext_len as usize) {
        Err(e) => Err(e),
        Ok((rest, d)) => Ok((rest, TlsExtension::SessionTicket(d))),
    }
}

/// Decodes the body of an early key share extension: a key
/// share in its early code point, undecoded, of the declared length.
pub fn parse_tls_extension_key_share_old_content<'a>(i: &'a [u8], ext_len: u16) -> (r: Result<
    (&'a [u8], TlsExtension<'a>),
    ParseError,
>)
    ensures
        ext_result(r) == spec_key_share_old_content(i@, ext_len),
{
    match take(i, ext_len as usize) {
        Err(e) => Err(e),
        Ok((rest, d)) => Ok((rest, TlsExtension::KeyShareOld(d))),
    }
}

/// Decodes the body of a key share extension: a key share, undecoded, of the
/// declared length.
pub fn parse_tls_extension_key_share_content<'a>(i: &'a [u8], ext_len: u16) -> (r: Result<
    (&'a [u8], TlsExtension<'a>),
    ParseError,
>)
    ensures
        ext_result(r) == spec_key_share_content(i@, ext_len),
{
    match take(i, ext_len as usize) {
        Err(e) => Err(e),
        Ok((rest, d)) => Ok((rest, TlsExtension::KeyShare(d))),
    }
}

/// Decodes the body of a pre-shared key offer extension: a pre-shared key
/// offer, undecoded, of the declared length.
pub fn parse_tls_extension_pre_shared_key_content<'a>(i: &'a [u8], ext_len: u16) -> (r: Result<
    (&'a [u8], TlsExtension<'a>),
    ParseError,
>)
    ensures
        ext_result(r) == spec_pre_shared_key_content(i@, ext_len),
{
    match take(i, ext_len as usize) {
        Err(e) => Err(e),
        Ok((rest, d)) => Ok((rest, TlsExtension::PreSharedKey(d))),
    }
}

/// Decodes the body of an early data indication extension: nothing where the
/// declared length is zero; else one big-endian 32-bit size.
pub fn parse_tls_extension_early_data_content<'a>(i: &'a [u8], ext_len: u16) -> (r: Result<
    (&'a [u8], TlsExtension<'a>),
    ParseError,
>)
    ensures
        ext_result(r) == spec_early_data_content(i@, ext_len),
{
    if ext_len > 0 {
        match be_u32(i) {
            Err(e) => Err(e),
            Ok((rest, v)) => Ok((rest, TlsExtension::EarlyData(Some(v)))),
        }
    } else {
        Ok((i, TlsExtension::EarlyData(None)))
    }
}

/// Decodes the body of the supported versions extension. The declared length
/// decides between the two forms: two bytes are one selected version; any
/// other length is one byte that counts the bytes of a list, which is read
/// and not used, then a list of versions in the declared length less one. A
/// declared length of zero is an error.
pub fn parse_tls_extension_supported_versions_content<'a>(
    i: &'a [u8],
    ext_len: u16,
) -> (r: Result<(&'a [u8], TlsExtension<'a>), ParseError>)
    ensures
        ext_result(r) == spec_supported_versions_content(i@, ext_len),
{
    if ext_len == 2 {
        match be_u16(i) {
            Err(e) => Err(e),
            Ok((rest, x)) => {
                let mut l: Vec<TlsVersion> = Vec::new();
                l.push(TlsVersion(x));
                assert(l@ =~= seq![TlsVersion(x)]);
                Ok((rest, TlsExtension::SupportedVersions(l)))
            },
        }
    } else if ext_len == 0 {
        Err(ParseError::Error(ErrorKind::Verify))
    } else {
        match be_u8(i) {
            Err(e) => Err(e),
            Ok((i1, _)) => match take(i1, (ext_len - 1) as usize) {
                Err(e) => Err(e),
                Ok((rest, d)) => match parse_tls_versions(d) {
                    Err(e) => Err(e),
                    Ok((_, l)) => Ok((rest, TlsExtension::SupportedVersions(l))),
                },
            },
        }
    }
}

/// Decodes the body of a cookie extension: a cookie of the declared length.
pub fn parse_tls_extension_cookie_content<'a>(i: &'a [u8], ext_len: u16) -> (r: Result<
    (&'a [u8], TlsExtension<'a>),
    ParseError,
>)
    ensures
        ext_result(r) == spec_cookie_content(i@, ext_len),
{
    match take(i, ext_len as usize) {
        Err(e) => Err(e),
        Ok((rest, d)) => Ok((rest, TlsExtension::Cookie(d))),
    }
}

/// Decodes the body of the pre-shared key exchange modes extension: the key
/// exchange modes, one byte each, behind their one-byte count.
pub fn parse_tls_extension_psk_key_exchange_modes_content<'a>(i: &'a [u8]) -> (r: Result<
    (&'a [u8], TlsExtension<'a>),
    ParseError,
>)
    ensures
        ext_result(r) == spec_psk_key_exchange_modes_content(i@),
{
    match length_data_u8(i) {
        Err(e) => Err(e),
        Ok((rest, d)) => Ok(
            (rest, TlsExtension::PskExchangeModes(vstd::slice::slice_to_vec(d))),
        ),
    }
}

/// Decodes the next protocol negotiation marker: it has no payload, and a declared
/// length other than zero fails verification.
pub fn parse_tls_extension_npn_content<'a>(i: &'a [u8], ext_len: u16) -> (r: Result<
    (&'a [u8], TlsExtension<'a>),
    ParseError,
>)
    ensures
        ext_result(r) == spec_marker_content(
            i@,
            ext_len,
            ExtensionValue::NextProtocolNegotiation,
        ),
{
    if ext_len != 0 {
        return Err(ParseError::Error(ErrorKind::Verify));
    }
    Ok((i, TlsExtension::NextProtocolNegotiation))
}

/// Decodes the body of a renegotiation info extension: the renegotiated
/// connection's verify data behind its one-byte length.
pub fn parse_tls_extension_renegotiation_info_content<'a>(i: &'a [u8]) -> (r: Result<
    (&'a [u8], TlsExtension<'a>),
    ParseError,
>)
    ensures
        ext_result(r) == spec_renegotiation_info_content(i@),
{
    match length_data_u8(i) {
        Err(e) => Err(e),
        Ok((rest, d)) => Ok((rest, TlsExtension::RenegotiationInfo(d))),
    }
}

/// Decodes the body of an encrypted server name extension: an encrypted
/// server name: cipher suite, named group, then the key share, the record
/// digest and the encrypted name, each behind a 16-bit length.
pub fn parse_tls_extension_encrypted_server_name<'a>(i: &'a [u8]) -> (r: Result<
    (&'a [u8], TlsExtension<'a>),
    ParseError,
>)
    ensures
        ext_result(r) == spec_encrypted_server_name(i@),
{
    let (i1, cs) = match be_u16(i) {
        Err(e) => { return Err(e); },
        Ok(p) => p,
    };
    let (i2, group) = match NamedGroup::parse(i1) {
        Err(e) => { return Err(e); },
        Ok(p) => p,
    };
    let (i3, key_share) = match length_data_u16(i2) {
        Err(e) => { return Err(e); },
        Ok(p) => p,
    };
    let (i4, record_digest) = match length_data_u16(i3) {
        Err(e) => { return Err(e); },
        Ok(p) => p,
    };
    let (rest, encrypted_sni) = match length_data_u16(i4) {
        Err(e) => { return Err(e); },
        Ok(p) => p,
    };
    let esn = TlsExtension::EncryptedServerName {
        ciphersuite: TlsCipherSuiteID(cs),
        group,
        key_share,
        record_digest,
        encrypted_sni,
    };
    Ok((rest, esn))
}

/// Decodes the body of the OID filters extension: a list of OID filters
/// behind its 16-bit length in bytes.
pub fn parse_tls_extension_oid_filters<'a>(i: &'a [u8]) -> (r: Result<
    (&'a [u8], TlsExtension<'a>),
    ParseError,
>)
    ensures
        ext_result(r) == spec_oid_filters(i@),
{
    match length_data_u16(i) {
        Err(e) => Err(e),
        Ok((rest, list)) => Ok((rest, TlsExtension::OidFilters(parse_oid_filter_list(list)))),
    }
}

/// Decodes the post-handshake authentication marker: it has no payload, and a declared
/// length other than zero fails verification.
pub fn parse_tls_extension_post_handshake_auth_content<'a>(
    i: &'a [u8],
    ext_len: u16,
) -> (r: Result<(&'a [u8], TlsExtension<'a>), ParseError>)
    ensures
        ext_result(r) == spec_marker_content(i@, ext_len, ExtensionValue::PostHandshakeAuth),
{
    if ext_len != 0 {
        return Err(ParseError::Error(ErrorKind::Verify));
    }
    Ok((i, TlsExtension::PostHandshakeAuth))
}

} // verus!
