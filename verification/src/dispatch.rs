use vstd::prelude::*;
use crate::bytes::{
    be_u16, length_data_u16, spec_be_u16, spec_length_data_u16, spec_tag2, spec_take, tag2, take,
};
use crate::content::{
    ext_result,
    parse_tls_extension_alpn_content,
    parse_tls_extension_cookie_content,
    parse_tls_extension_early_data_content,
    parse_tls_extension_ec_point_formats_content,
    parse_tls_extension_elliptic_curves_content,
    parse_tls_extension_encrypt_then_mac_content,
    parse_tls_extension_encrypted_server_name,
    parse_tls_extension_extended_master_secret_content,
    parse_tls_extension_heartbeat_content,
    parse_tls_extension_key_share_content,
    parse_tls_extension_key_share_old_content,
    parse_tls_extension_max_fragment_length_content,
    parse_tls_extension_npn_content,
    parse_tls_extension_oid_filters,
    parse_tls_extension_padding_content,
    parse_tls_extension_post_handshake_auth_content,
    parse_tls_extension_pre_shared_key_content,
    parse_tls_extension_psk_key_exchange_modes_content,
    parse_tls_extension_record_size_limit,
    parse_tls_extension_renegotiation_info_content,
    parse_tls_extension_session_ticket_content,
    parse_tls_extension_signature_algorithms_content,
    parse_tls_extension_signed_certificate_timestamp_content,
    parse_tls_extension_sni_content,
    parse_tls_extension_status_request_content,
    parse_tls_extension_supported_versions_content,
    spec_alpn_content,
    spec_cookie_content,
    spec_early_data_content,
    spec_ec_point_formats_content,
    spec_elliptic_curves_content,
    spec_encrypted_server_name,
    spec_heartbeat_content,
    spec_key_share_content,
    spec_key_share_old_content,
    spec_map_bytes,
    spec_marker_content,
    spec_max_fragment_length_content,
    spec_oid_filters,
    spec_padding_content,
    spec_pre_shared_key_content,
    spec_psk_key_exchange_modes_content,
    spec_record_size_limit,
    spec_renegotiation_info_content,
    spec_session_ticket_content,
    spec_signature_algorithms_content,
    spec_signed_certificate_timestamp_content,
    spec_sni_content,
    spec_status_request_content,
    spec_supported_versions_content,
};
use crate::error::{ErrorKind, ParseError};
use crate::laws::lemma_type_of_decoded_extension;
use crate::model::{extensions_view, ExtensionValue, TlsExtension};
use crate::registry::TlsExtensionType;

verus! {

/// The outcome for an extension whose body is one byte: a declared length
/// other than one is an error, whatever the body holds.
pub open spec fn spec_one_byte_body(
    ext_len: u16,
    inner: Result<(Seq<u8>, ExtensionValue), ParseError>,
) -> Result<(Seq<u8>, ExtensionValue), ParseError> {
    if ext_len != 1 {
        Err(ParseError::Error(ErrorKind::Verify))
    } else {
        inner
    }
}

/// What the body of an extension decodes to, by the type code and the
/// declared length that stand before it. A code of the GREASE pattern gives
/// the raw body under that code, whatever else the code could mean; a code
/// with a grammar of its own is decoded by it; any other code gives the raw
/// body of the declared length.
pub open spec fn spec_extension_content(code: u16, ext_len: u16, s: Seq<u8>) -> Result<
    (Seq<u8>, ExtensionValue),
    ParseError,
> {
    if TlsExtensionType::spec_is_grease(code) {
        spec_map_bytes(
            spec_take(s, ext_len as nat),
            |d: Seq<u8>| ExtensionValue::Grease(code, d),
        )
    } else {
        match code {
            0x0000 => spec_sni_content(s),
            0x0001 => spec_one_byte_body(ext_len, spec_max_fragment_length_content(s)),
            0x0005 => spec_status_request_content(s, ext_len),
            0x000a => spec_elliptic_curves_content(s),
            0x000b => spec_ec_point_formats_content(s),
            0x000d => spec_signature_algorithms_content(s),
            0x000f => spec_one_byte_body(ext_len, spec_heartbeat_content(s)),
            0x0010 => spec_alpn_content(s),
            0x0012 => spec_signed_certificate_timestamp_content(s),
            0x0015 => spec_padding_content(s, ext_len),
            0x0016 => spec_marker_content(s, ext_len, ExtensionValue::EncryptThenMac),
            0x0017 => spec_marker_content(s, ext_len, ExtensionValue::ExtendedMasterSecret),
            0x001c => spec_record_size_limit(s),
            0x0023 => spec_session_ticket_content(s, ext_len),
            0x0028 => spec_key_share_old_content(s, ext_len),
            0x0029 => spec_pre_shared_key_content(s, ext_len),
            0x002a => spec_early_data_content(s, ext_len),
            0x002b => spec_supported_versions_content(s, ext_len),
            0x002c => spec_cookie_content(s, ext_len),
            0x002d => spec_psk_key_exchange_modes_content(s),
            0x0030 => spec_oid_filters(s),
            0x0031 => spec_marker_content(s, ext_len, ExtensionValue::PostHandshakeAuth),
            0x0033 => spec_key_share_content(s, ext_len),
            0x3374 => spec_marker_content(s, ext_len, ExtensionValue::NextProtocolNegotiation),
            0xff01 => spec_renegotiation_info_content(s),
            0xffce => spec_encrypted_server_name(s),
            _ => spec_map_bytes(
                spec_take(s, ext_len as nat),
                |d: Seq<u8>| ExtensionValue::Unknown(TlsExtensionType(code), d),
            ),
        }
    }
}

/// The outcome of decoding a body that was cut out of a larger input: the
/// body's value or error, and the input behind the body. What the content
/// decoder left of the body is dropped.
pub open spec fn spec_within(
    rest: Seq<u8>,
    inner: Result<(Seq<u8>, ExtensionValue), ParseError>,
) -> Result<(Seq<u8>, ExtensionValue), ParseError> {
    match inner {
        Err(e) => Err(e),
        Ok((_, v)) => Ok((rest, v)),
    }
}

/// An extension of type `code` from its length field on: the declared
/// length as a big-endian 16-bit number, a body of exactly that many bytes,
/// and the body decoded as the type asks.
pub open spec fn spec_extension_body(code: u16, s: Seq<u8>) -> Result<
    (Seq<u8>, ExtensionValue),
    ParseError,
> {
    match spec_be_u16(s) {
        Err(e) => Err(e),
        Ok((s1, ext_len)) => match spec_take(s1, ext_len as nat) {
            Err(e) => Err(e),
            Ok((rest, body)) => spec_within(rest, spec_extension_content(code, ext_len, body)),
        },
    }
}

/// One extension: type code, declared length, body.
pub open spec fn spec_extension(s: Seq<u8>) -> Result<(Seq<u8>, ExtensionValue), ParseError> {
    match spec_be_u16(s) {
        Err(e) => Err(e),
        Ok((s1, code)) => spec_extension_body(code, s1),
    }
}

/// One extension whose type code must be `code`.
pub open spec fn spec_extension_of_type(code: u16, s: Seq<u8>) -> Result<
    (Seq<u8>, ExtensionValue),
    ParseError,
> {
    match spec_tag2(s, (code / 256) as u8, (code % 256) as u8) {
        Err(e) => Err(e),
        Ok((s1, _)) => spec_extension_body(code, s1),
    }
}

/// One extension kept raw, whatever its type code.
pub open spec fn spec_extension_unknown(s: Seq<u8>) -> Result<
    (Seq<u8>, ExtensionValue),
    ParseError,
> {
    match spec_be_u16(s) {
        Err(e) => Err(e),
        Ok((s1, code)) => spec_map_bytes(
            spec_length_data_u16(s1),
            |d: Seq<u8>| ExtensionValue::Unknown(TlsExtensionType(code), d),
        ),
    }
}

/// A list put in front of the list that a later decoding gave, or that
/// decoding's error.
pub open spec fn spec_prepend(
    front: Seq<ExtensionValue>,
    r: Result<(Seq<u8>, Seq<ExtensionValue>), ParseError>,
) -> Result<(Seq<u8>, Seq<ExtensionValue>), ParseError> {
    match r {
        Err(e) => Err(e),
        Ok((rest, vs)) => Ok((rest, front + vs)),
    }
}

/// The extensions of a whole region, in wire order: none for an empty
/// region, else the first extension and then those of the region behind it.
/// The first extension that fails makes the whole fail in the same way.
pub open spec fn spec_extensions(s: Seq<u8>) -> Result<
    (Seq<u8>, Seq<ExtensionValue>),
    ParseError,
>
    decreases s.len(),
{
    if s.len() == 0 {
        Ok((s, Seq::empty()))
    } else {
        match spec_extension(s) {
            Err(e) => Err(e),
            Ok((rest, v)) => spec_prepend(seq![v], spec_extensions(rest)),
        }
    }
}

/// Decodes the body of an extension by its type code and declared length.
pub fn parse_tls_extension_with_type<'a>(i: &'a [u8], ext_type: u16, ext_len: u16) -> (r: Result<
    (&'a [u8], TlsExtension<'a>),
    ParseError,
>)
    ensures
        ext_result(r) == spec_extension_content(ext_type, ext_len, i@),
        r matches Ok((_, ext)) ==> {
            &&& (ext@ is Grease <==> TlsExtensionType::spec_is_grease(ext_type))
            &&& (!(ext@ is Grease) ==> ext@.spec_type() == TlsExtensionType(ext_type))
        },
{
    if ext_type & 0x0f0f == 0x0a0a {
        return match take(i, ext_len as usize) {
            Err(e) => Err(e),
            Ok((rest, d)) => Ok((rest, TlsExtension::Grease(ext_type, d))),
        };
    }
    match ext_type {
        0x0000 => parse_tls_extension_sni_content(i),
        0x0001 => if ext_len != 1 {
            Err(ParseError::Error(ErrorKind::Verify))
        } else {
            parse_tls_extension_max_fragment_length_content(i)
        },
        0x0005 => parse_tls_extension_status_request_content(i, ext_len),
        0x000a => parse_tls_extension_elliptic_curves_content(i),
        0x000b => parse_tls_extension_ec_point_formats_content(i),
        0x000d => parse_tls_extension_signature_algorithms_content(i),
        0x000f => if ext_len != 1 {
            Err(ParseError::Error(ErrorKind::Verify))
        } else {
            parse_tls_extension_heartbeat_content(i)
        },
        0x0010 => parse_tls_extension_alpn_content(i),
        0x0012 => parse_tls_extension_signed_certificate_timestamp_content(i),
        0x0015 => parse_tls_extension_padding_content(i, ext_len),
        0x0016 => parse_tls_extension_encrypt_then_mac_content(i, ext_len),
        0x0017 => parse_tls_extension_extended_master_secret_content(i, ext_len),
        0x001c => parse_tls_extension_record_size_limit(i),
        0x0023 => parse_tls_extension_session_ticket_content(i, ext_len),
        0x0028 => parse_tls_extension_key_share_old_content(i, ext_len),
        0x0029 => parse_tls_extension_pre_shared_key_content(i, ext_len),
        0x002a => parse_tls_extension_early_data_content(i, ext_len),
        0x002b => parse_tls_extension_supported_versions_content(i, ext_len),
        0x002c => parse_tls_extension_cookie_content(i, ext_len),
        0x002d => parse_tls_extension_psk_key_exchange_modes_content(i),
        0x0030 => parse_tls_extension_oid_filters(i),
        0x0031 => parse_tls_extension_post_handshake_auth_content(i, ext_len),
        0x0033 => parse_tls_extension_key_share_content(i, ext_len),
        0x3374 => parse_tls_extension_npn_content(i, ext_len),
        0xff01 => parse_tls_extension_renegotiation_info_content(i),
        0xffce => parse_tls_extension_encrypted_server_name(i),
        _ => match take(i, ext_len as usize) {
            Err(e) => Err(e),
            Ok((rest, d)) => Ok((rest, TlsExtension::Unknown(TlsExtensionType(ext_type), d))),
        },
    }
}

/// Decodes an extension of type `ext_type` from its length field on.
fn parse_extension_body<'a>(i: &'a [u8], ext_type: u16) -> (r: Result<
    (&'a [u8], TlsExtension<'a>),
    ParseError,
>)
    ensures
        ext_result(r) == spec_extension_body(ext_type, i@),
{
    match be_u16(i) {
        Err(e) => Err(e),
        Ok((i1, ext_len)) => match take(i1, ext_len as usize) {
            Err(e) => Err(e),
            Ok((rest, body)) => match parse_tls_extension_with_type(body, ext_type, ext_len) {
                Err(e) => Err(e),
                Ok((_, ext)) => Ok((rest, ext)),
            },
        },
    }
}

/// Decodes one extension whose type code must be `ext_type`.
fn parse_extension_of_type<'a>(i: &'a [u8], ext_type: u16) -> (r: Result<
    (&'a [u8], TlsExtension<'a>),
    ParseError,
>)
    ensures
        ext_result(r) == spec_extension_of_type(ext_type, i@),
{
    match tag2(i, (ext_type / 256) as u8, (ext_type % 256) as u8) {
        Err(e) => Err(e),
        Ok((i1, _)) => parse_extension_body(i1, ext_type),
    }
}

/// Decodes one extension: type code, declared length, and a body of that
/// length decoded as the type asks.
pub fn parse_tls_extension<'a>(i: &'a [u8]) -> (r: Result<
    (&'a [u8], TlsExtension<'a>),
    ParseError,
>)
    ensures
        ext_result(r) == spec_extension(i@),
        r matches Ok((rest, ext)) ==> {
            &&& i@.len() >= 4 + spec_declared_length(i@)
            &&& rest@ == i@.skip(4 + spec_declared_length(i@))
            &&& (ext@ is Grease <==> TlsExtensionType::spec_is_grease(spec_declared_type(i@)))
            &&& (!(ext@ is Grease) ==> ext@.spec_type() == TlsExtensionType(
                spec_declared_type(i@),
            ))
        },
{
    proof {
        lemma_extension_consumes(i@);
        lemma_type_of_decoded_extension(i@);
    }
    match be_u16(i) {
        Err(e) => Err(e),
        Ok((i1, ext_type)) => parse_extension_body(i1, ext_type),
    }
}

/// Decodes one extension and keeps its body raw, whatever its type code.
pub fn parse_tls_extension_unknown<'a>(i: &'a [u8]) -> (r: Result<
    (&'a [u8], TlsExtension<'a>),
    ParseError,
>)
    ensures
        ext_result(r) == spec_extension_unknown(i@),
{
    match be_u16(i) {
        Err(e) => Err(e),
        Ok((i1, ext_type)) => match length_data_u16(i1) {
            Err(e) => Err(e),
            Ok((rest, ext_data)) => Ok(
                (rest, TlsExtension::Unknown(TlsExtensionType(ext_type), ext_data)),
            ),
        },
    }
}

/// Decodes one whole extension that must be a server name list: the
/// type code 0x0000, the declared length, the body.
pub fn parse_tls_extension_sni<'a>(i: &'a [u8]) -> (r: Result<
    (&'a [u8], TlsExtension<'a>),
    ParseError,
>)
    ensures
        ext_result(r) == spec_extension_of_type(0x0000, i@),
{
    parse_extension_of_type(i, 0x0000)
}

/// Decodes one whole extension that must be a maximum fragment length: the
/// type code 0x0001, the declared length, the body.
pub fn parse_tls_extension_max_fragment_length<'a>(i: &'a [u8]) -> (r: Result<
    (&'a [u8], TlsExtension<'a>),
    ParseError,
>)
    ensures
        ext_result(r) == spec_extension_of_type(0x0001, i@),
{
    parse_extension_of_type(i, 0x0001)
}

/// Decodes one whole extension that must be a certificate status request: the
/// type code 0x0005, the declared length, the body.
pub fn parse_tls_extension_status_request<'a>(i: &'a [u8]) -> (r: Result<
    (&'a [u8], TlsExtension<'a>),
    ParseError,
>)
    ensures
        ext_result(r) == spec_extension_of_type(0x0005, i@),
{
    parse_extension_of_type(i, 0x0005)
}

/// Decodes one whole extension that must be the supported groups: the
/// type code 0x000a, the declared length, the body.
pub fn parse_tls_extension_elliptic_curves<'a>(i: &'a [u8]) -> (r: Result<
    (&'a [u8], TlsExtension<'a>),
    ParseError,
>)
    ensures
        ext_result(r) == spec_extension_of_type(0x000a, i@),
{
    parse_extension_of_type(i, 0x000a)
}

/// Decodes one whole extension that must be the supported point formats: the
/// type code 0x000b, the declared length, the body.
pub fn parse_tls_extension_ec_point_formats<'a>(i: &'a [u8]) -> (r: Result<
    (&'a [u8], TlsExtension<'a>),
    ParseError,
>)
    ensures
        ext_result(r) == spec_extension_of_type(0x000b, i@),
{
    parse_extension_of_type(i, 0x000b)
}

/// Decodes one whole extension that must be the signature algorithms: the
/// type code 0x000d, the declared length, the body.
pub fn parse_tls_extension_signature_algorithms<'a>(i: &'a [u8]) -> (r: Result<
    (&'a [u8], TlsExtension<'a>),
    ParseError,
>)
    ensures
        ext_result(r) == spec_extension_of_type(0x000d, i@),
{
    parse_extension_of_type(i, 0x000d)
}

/// Decodes one whole extension that must be the heartbeat mode: the
/// type code 0x000f, the declared length, the body.
pub fn parse_tls_extension_heartbeat<'a>(i: &'a [u8]) -> (r: Result<
    (&'a [u8], TlsExtension<'a>),
    ParseError,
>)
    ensures
        ext_result(r) == spec_extension_of_type(0x000f, i@),
{
    parse_extension_of_type(i, 0x000f)
}

/// Decodes one whole extension that must be the encrypt-then-MAC marker: the
/// type code 0x0016, the declared length, the body.
pub fn parse_tls_extension_encrypt_then_mac<'a>(i: &'a [u8]) -> (r: Result<
    (&'a [u8], TlsExtension<'a>),
    ParseError,
>)
    ensures
        ext_result(r) == spec_extension_of_type(0x0016, i@),
{
    parse_extension_of_type(i, 0x0016)
}

/// Decodes one whole extension that must be the extended master secret marker: the
/// type code 0x0017, the declared length, the body.
pub fn parse_tls_extension_extended_master_secret<'a>(i: &'a [u8]) -> (r: Result<
    (&'a [u8], TlsExtension<'a>),
    ParseError,
>)
    ensures
        ext_result(r) == spec_extension_of_type(0x0017, i@),
{
    parse_extension_of_type(i, 0x0017)
}

/// Decodes one whole extension that must be a session ticket: the
/// type code 0x0023, the declared length, the body.
pub fn parse_tls_extension_session_ticket<'a>(i: &'a [u8]) -> (r: Result<
    (&'a [u8], TlsExtension<'a>),
    ParseError,
>)
    ensures
        ext_result(r) == spec_extension_of_type(0x0023, i@),
{
    parse_extension_of_type(i, 0x0023)
}

/// Decodes one whole extension that must be a key share: the
/// type code 0x0033, the declared length, the body.
pub fn parse_tls_extension_key_share<'a>(i: &'a [u8]) -> (r: Result<
    (&'a [u8], TlsExtension<'a>),
    ParseError,
>)
    ensures
        ext_result(r) == spec_extension_of_type(0x0033, i@),
{
    parse_extension_of_type(i, 0x0033)
}

/// Decodes one whole extension that must be a pre-shared key offer: the
/// type code 0x0029, the declared length, the body.
pub fn parse_tls_extension_pre_shared_key<'a>(i: &'a [u8]) -> (r: Result<
    (&'a [u8], TlsExtension<'a>),
    ParseError,
>)
    ensures
        ext_result(r) == spec_extension_of_type(0x0029, i@),
{
    parse_extension_of_type(i, 0x0029)
}

/// Decodes one whole extension that must be the early data indication: the
/// type code 0x002a, the declared length, the body.
pub fn parse_tls_extension_early_data<'a>(i: &'a [u8]) -> (r: Result<
    (&'a [u8], TlsExtension<'a>),
    ParseError,
>)
    ensures
        ext_result(r) == spec_extension_of_type(0x002a, i@),
{
    parse_extension_of_type(i, 0x002a)
}

/// Decodes one whole extension that must be the supported versions: the
/// type code 0x002b, the declared length, the body.
pub fn parse_tls_extension_supported_versions<'a>(i: &'a [u8]) -> (r: Result<
    (&'a [u8], TlsExtension<'a>),
    ParseError,
>)
    ensures
        ext_result(r) == spec_extension_of_type(0x002b, i@),
{
    parse_extension_of_type(i, 0x002b)
}

/// Decodes one whole extension that must be a cookie: the
/// type code 0x002c, the declared length, the body.
pub fn parse_tls_extension_cookie<'a>(i: &'a [u8]) -> (r: Result<
    (&'a [u8], TlsExtension<'a>),
    ParseError,
>)
    ensures
        ext_result(r) == spec_extension_of_type(0x002c, i@),
{
    parse_extension_of_type(i, 0x002c)
}

/// Decodes one whole extension that must be the pre-shared key exchange modes: the
/// type code 0x002d, the declared length, the body.
pub fn parse_tls_extension_psk_key_exchange_modes<'a>(i: &'a [u8]) -> (r: Result<
    (&'a [u8], TlsExtension<'a>),
    ParseError,
>)
    ensures
        ext_result(r) == spec_extension_of_type(0x002d, i@),
{
    parse_extension_of_type(i, 0x002d)
}

/// A decoded list's outcome by contents.
pub open spec fn ext_list_result<'a>(
    r: Result<(&'a [u8], Vec<TlsExtension<'a>>), ParseError>,
) -> Result<(Seq<u8>, Seq<ExtensionValue>), ParseError> {
    match r {
        Ok((rest, v)) => Ok((rest@, extensions_view(v@))),
        Err(e) => Err(e),
    }
}

/// Decodes a whole region of extensions, in wire order. Nothing remains on
/// success; the first extension that fails makes the whole fail as it did.
pub fn parse_tls_extensions<'a>(i: &'a [u8]) -> (r: Result<
    (&'a [u8], Vec<TlsExtension<'a>>),
    ParseError,
>)
    ensures
        ext_list_result(r) == spec_extensions(i@),
        r matches Ok((rest, _)) ==> rest@.len() == 0,
{
    let mut acc: Vec<TlsExtension<'a>> = Vec::new();
    let mut cur: &'a [u8] = i;
    assert(extensions_view(acc@) =~= Seq::empty());
    proof {
        lemma_prepend_empty(spec_extensions(i@));
    }
    while cur.len() > 0
        invariant
            spec_prepend(extensions_view(acc@), spec_extensions(cur@)) == spec_extensions(i@),
        decreases cur@.len(),
    {
        match parse_tls_extension(cur) {
            Err(e) => {
                return Err(e);
            },
            Ok((rest, ext)) => {
                let ghost before = acc@;
                acc.push(ext);
                assert(extensions_view(acc@) =~= extensions_view(before) + seq![ext@]);
                proof {
                    lemma_prepend_twice(
                        extensions_view(before),
                        seq![ext@],
                        spec_extensions(rest@),
                    );
                }
                cur = rest;
            },
        }
    }
    assert(extensions_view(acc@) + Seq::<ExtensionValue>::empty() =~= extensions_view(acc@));
    Ok((cur, acc))
}

/// Putting nothing in front changes nothing.
pub proof fn lemma_prepend_empty(r: Result<(Seq<u8>, Seq<ExtensionValue>), ParseError>)
    ensures
        spec_prepend(Seq::empty(), r) == r,
{
    match r {
        Ok((rest, vs)) => {
            assert(Seq::<ExtensionValue>::empty() + vs =~= vs);
        },
        Err(_) => {},
    }
}

/// Putting `b` in front and then `a` is putting `a + b` in front.
pub proof fn lemma_prepend_twice(
    a: Seq<ExtensionValue>,
    b: Seq<ExtensionValue>,
    r: Result<(Seq<u8>, Seq<ExtensionValue>), ParseError>,
)
    ensures
        spec_prepend(a, spec_prepend(b, r)) == spec_prepend(a + b, r),
{
    match r {
        Ok((rest, vs)) => {
            assert(a + (b + vs) =~= (a + b) + vs);
        },
        Err(_) => {},
    }
}

/// A decoded extension takes its four header bytes and its whole body, and
/// nothing else, from the input.
pub proof fn lemma_extension_consumes(s: Seq<u8>)
    ensures
        spec_extension(s) matches Ok((rest, _)) ==> s.len() >= 4 && rest == s.skip(
            4 + spec_declared_length(s),
        ) && rest.len() + 4 + spec_declared_length(s) == s.len(),
{
    if s.len() >= 4 {
        let s1 = s.skip(2);
        let s2 = s1.skip(2);
        let n = spec_declared_length(s);
        assert(s1[0] == s[2] && s1[1] == s[3]);
        if s2.len() >= n {
            assert(s2.skip(n) =~= s.skip(4 + n));
        }
    }
}

/// The type code that the header of an extension holds.
pub open spec fn spec_declared_type(s: Seq<u8>) -> u16
    recommends
        s.len() >= 2,
{
    crate::bytes::spec_u16(s[0], s[1])
}

/// The length that the header of an extension declares for its body.
pub open spec fn spec_declared_length(s: Seq<u8>) -> int
    recommends
        s.len() >= 4,
{
    crate::bytes::spec_u16(s[2], s[3]) as int
}

} // verus!
