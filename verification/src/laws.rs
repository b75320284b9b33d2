use vstd::prelude::*;
use crate::bytes::{
    spec_be_u16, spec_be_u32, spec_be_u8, spec_length_data_u16, spec_length_data_u8, spec_take,
    spec_u16,
};
use crate::content::spec_sni_content;
use crate::dispatch::{
    lemma_extension_consumes, spec_declared_length, spec_declared_type, spec_extension,
    spec_extension_content, spec_extension_of_type, spec_extensions, spec_within,
};
use crate::error::{ErrorKind, Needed, ParseError};
use crate::model::ExtensionValue;
use crate::registry::TlsExtensionType;

verus! {

/// Whether `rest` is the end of `s`.
pub open spec fn is_suffix(rest: Seq<u8>, s: Seq<u8>) -> bool {
    rest.len() <= s.len() && rest == s.skip(s.len() - rest.len())
}

/// The end of an end is an end.
pub proof fn lemma_suffix_transitive(a: Seq<u8>, b: Seq<u8>, c: Seq<u8>)
    requires
        is_suffix(a, b),
        is_suffix(b, c),
    ensures
        is_suffix(a, c),
{
    assert(c.skip(c.len() - b.len()).skip(b.len() - a.len()) =~= c.skip(c.len() - a.len()));
}

/// Each decoder of a field leaves the end of what it was given.
pub proof fn lemma_fields_leave_suffix(s: Seq<u8>, n: nat)
    ensures
        is_suffix(s, s),
        spec_be_u8(s) matches Ok((rest, _)) ==> is_suffix(rest, s),
        spec_be_u16(s) matches Ok((rest, _)) ==> is_suffix(rest, s),
        spec_be_u32(s) matches Ok((rest, _)) ==> is_suffix(rest, s),
        spec_take(s, n) matches Ok((rest, _)) ==> is_suffix(rest, s),
        spec_length_data_u8(s) matches Ok((rest, _)) ==> is_suffix(rest, s),
        spec_length_data_u16(s) matches Ok((rest, _)) ==> is_suffix(rest, s),
{
    assert(s.skip(0) =~= s);
    if s.len() >= 1 {
        let s1 = s.skip(1);
        let k = s[0] as int;
        if s1.len() >= k {
            assert(s1.skip(k) =~= s.skip(1 + k));
        }
    }
    if s.len() >= 2 {
        let s2 = s.skip(2);
        let k = spec_u16(s[0], s[1]) as int;
        if s2.len() >= k {
            assert(s2.skip(k) =~= s.skip(2 + k));
        }
    }
}

/// The decoder of a body consumes a prefix of the body: what it leaves is
/// the body's end.
pub proof fn lemma_content_leaves_suffix(code: u16, ext_len: u16, s: Seq<u8>)
    ensures
        spec_extension_content(code, ext_len, s) matches Ok((rest, _)) ==> is_suffix(rest, s),
{
    lemma_fields_leave_suffix(s, ext_len as nat);
    if let Ok((rest, _)) = spec_extension_content(code, ext_len, s) {
        if TlsExtensionType::spec_is_grease(code) {
        } else if code == 0x0005 || code == 0x002b {
            if ext_len != 0 && !(code == 0x002b && ext_len == 2) {
                let s1 = s.skip(1);
                lemma_fields_leave_suffix(s1, (ext_len - 1) as nat);
                lemma_suffix_transitive(rest, s1, s);
            }
        } else if code == 0xffce {
            let s1 = spec_be_u16(s).unwrap().0;
            lemma_fields_leave_suffix(s1, 0);
            let s2 = spec_be_u16(s1).unwrap().0;
            lemma_fields_leave_suffix(s2, 0);
            let s3 = spec_length_data_u16(s2).unwrap().0;
            lemma_fields_leave_suffix(s3, 0);
            let s4 = spec_length_data_u16(s3).unwrap().0;
            lemma_fields_leave_suffix(s4, 0);
            lemma_suffix_transitive(s2, s1, s);
            lemma_suffix_transitive(s3, s2, s);
            lemma_suffix_transitive(s4, s3, s);
            lemma_suffix_transitive(rest, s4, s);
        }
    }
}

/// Framing: where the input holds a header and the whole body that the
/// header declares, the outcome is that of the body's decoder on exactly
/// those bytes, and what remains is the input behind the body. No byte
/// behind the body is read.
pub proof fn lemma_envelope_framing(s: Seq<u8>)
    requires
        s.len() >= 4,
        s.len() >= 4 + spec_declared_length(s),
    ensures
        spec_extension(s) == spec_within(
            s.skip(4 + spec_declared_length(s)),
            spec_extension_content(
                spec_declared_type(s),
                spec_declared_length(s) as u16,
                s.subrange(4, 4 + spec_declared_length(s)),
            ),
        ),
{
    let s1 = s.skip(2);
    let s2 = s1.skip(2);
    let n = spec_declared_length(s);
    assert(s1[0] == s[2] && s1[1] == s[3]);
    assert(s2.skip(n) =~= s.skip(4 + n));
    assert(s2.take(n) =~= s.subrange(4, 4 + n));
}

/// Two inputs that agree on a whole extension decode to the same value or
/// the same error, whatever stands behind the extension in either.
pub proof fn lemma_envelope_reads_only_itself(s: Seq<u8>, t: Seq<u8>)
    requires
        s.len() >= 4,
        s.len() >= 4 + spec_declared_length(s),
        t.len() >= 4 + spec_declared_length(s),
        t.take(4 + spec_declared_length(s)) == s.take(4 + spec_declared_length(s)),
    ensures
        spec_within(Seq::empty(), spec_extension(s)) == spec_within(
            Seq::empty(),
            spec_extension(t),
        ),
{
    let n = spec_declared_length(s);
    let a = s.take(4 + n);
    let b = t.take(4 + n);
    assert(a[0] == s[0] && a[1] == s[1] && a[2] == s[2] && a[3] == s[3]);
    assert(b[0] == t[0] && b[1] == t[1] && b[2] == t[2] && b[3] == t[3]);
    assert(s.subrange(4, 4 + n) =~= a.subrange(4, 4 + n));
    assert(t.subrange(4, 4 + n) =~= b.subrange(4, 4 + n));
    lemma_envelope_framing(s);
    lemma_envelope_framing(t);
}

/// The type of a decoded value is the code that it was decoded under, but
/// for a GREASE value, whose type is the one reserved marker. A value is a
/// GREASE value exactly where the code has the GREASE pattern.
pub proof fn lemma_type_of_decoded_value(code: u16, ext_len: u16, s: Seq<u8>)
    ensures
        spec_extension_content(code, ext_len, s) matches Ok((_, v)) ==> {
            &&& (v is Grease <==> TlsExtensionType::spec_is_grease(code))
            &&& (v is Unknown ==> v->Unknown_0 == TlsExtensionType(code))
            &&& (!(v is Grease) ==> v.spec_type() == TlsExtensionType(code))
        },
{
}

/// The same of a whole extension: its value's type is the code in its
/// header, but for a GREASE value.
pub proof fn lemma_type_of_decoded_extension(s: Seq<u8>)
    ensures
        spec_extension(s) matches Ok((_, v)) ==> {
            &&& (v is Grease <==> TlsExtensionType::spec_is_grease(spec_declared_type(s)))
            &&& (!(v is Grease) ==> v.spec_type() == TlsExtensionType(spec_declared_type(s)))
        },
{
    if let Ok((s1, code)) = spec_be_u16(s) {
        if let Ok((s2, ext_len)) = spec_be_u16(s1) {
            if let Ok((rest, body)) = spec_take(s2, ext_len as nat) {
                lemma_type_of_decoded_value(code, ext_len, body);
            }
        }
    }
}

/// A decoder that asks for one type code gives no value of another type.
pub proof fn lemma_type_of_expected_extension(code: u16, s: Seq<u8>)
    requires
        !TlsExtensionType::spec_is_grease(code),
    ensures
        spec_extension_of_type(code, s) matches Ok((_, v)) ==> v.spec_type() == TlsExtensionType(
            code,
        ),
        spec_extension_of_type(code, s) matches Ok(_) ==> spec_extension_of_type(code, s)
            == spec_extension(s),
{
    if let Ok(_) = spec_extension_of_type(code, s) {
        let hi = (code / 256) as u8;
        let lo = (code % 256) as u8;
        assert(s[0] == hi && s[1] == lo);
        assert(spec_u16(hi, lo) == code);
        let s1 = s.skip(2);
        if let Ok((s2, ext_len)) = spec_be_u16(s1) {
            if let Ok((rest, body)) = spec_take(s2, ext_len as nat) {
                lemma_type_of_decoded_value(code, ext_len, body);
            }
        }
    }
}

/// The marker extensions carry nothing: with a declared length of zero they
/// decode to their marker and consume nothing, with any other declared
/// length they fail verification.
pub proof fn lemma_marker_extensions(code: u16, ext_len: u16, s: Seq<u8>)
    requires
        code == 0x0016 || code == 0x0017 || code == 0x0031 || code == 0x3374,
    ensures
        ext_len != 0 ==> spec_extension_content(code, ext_len, s) == Err::<
            (Seq<u8>, ExtensionValue),
            _,
        >(ParseError::Error(ErrorKind::Verify)),
        ext_len == 0 ==> spec_extension_content(code, ext_len, s) == Ok::<_, ParseError>(
            (
                s,
                if code == 0x0016 {
                    ExtensionValue::EncryptThenMac
                } else if code == 0x0017 {
                    ExtensionValue::ExtendedMasterSecret
                } else if code == 0x0031 {
                    ExtensionValue::PostHandshakeAuth
                } else {
                    ExtensionValue::NextProtocolNegotiation
                },
            ),
        ),
{
    assert(0x0016u16 & 0x0f0f != 0x0a0a) by (bit_vector);
    assert(0x0017u16 & 0x0f0f != 0x0a0a) by (bit_vector);
    assert(0x0031u16 & 0x0f0f != 0x0a0a) by (bit_vector);
    assert(0x3374u16 & 0x0f0f != 0x0a0a) by (bit_vector);
}

/// The extensions of one byte carry exactly one byte: any other declared
/// length fails verification.
pub proof fn lemma_one_byte_extensions(code: u16, ext_len: u16, s: Seq<u8>)
    requires
        code == 0x0001 || code == 0x000f,
    ensures
        ext_len != 1 ==> spec_extension_content(code, ext_len, s) == Err::<
            (Seq<u8>, ExtensionValue),
            _,
        >(ParseError::Error(ErrorKind::Verify)),
        ext_len == 1 && s.len() == 1 ==> spec_extension_content(code, ext_len, s) == Ok::<
            _,
            ParseError,
        >(
            (
                s.skip(1),
                if code == 0x0001 {
                    ExtensionValue::MaxFragmentLength(s[0])
                } else {
                    ExtensionValue::Heartbeat(s[0])
                },
            ),
        ),
{
    assert(0x0001u16 & 0x0f0f != 0x0a0a) by (bit_vector);
    assert(0x000fu16 & 0x0f0f != 0x0a0a) by (bit_vector);
}

/// GREASE comes first: a whole extension under a code of the GREASE pattern
/// decodes to a GREASE value with that code and the raw body, whatever the
/// code and the body are.
pub proof fn lemma_grease_precedence(s: Seq<u8>)
    requires
        s.len() >= 4,
        s.len() >= 4 + spec_declared_length(s),
        TlsExtensionType::spec_is_grease(spec_declared_type(s)),
    ensures
        spec_extension(s) == Ok::<_, ParseError>(
            (
                s.skip(4 + spec_declared_length(s)),
                ExtensionValue::Grease(
                    spec_declared_type(s),
                    s.subrange(4, 4 + spec_declared_length(s)),
                ),
            ),
        ),
{
    lemma_envelope_framing(s);
    let n = spec_declared_length(s);
    let body = s.subrange(4, 4 + n);
    assert(body.take(n) =~= body);
}

/// An input that ends before the declared body does is incomplete, by the
/// number of bytes that are missing.
pub proof fn lemma_truncated_is_incomplete(s: Seq<u8>)
    requires
        s.len() < 4 || s.len() < 4 + spec_declared_length(s),
    ensures
        spec_extension(s) matches Err(ParseError::Incomplete(Needed::Size(k))) && (s.len() >= 4
            ==> k == 4 + spec_declared_length(s) - s.len()),
{
    if s.len() >= 2 {
        let s1 = s.skip(2);
        if s1.len() >= 2 {
            assert(s1[0] == s[2] && s1[1] == s[3]);
        }
    }
}

/// A server name list whose length field claims more than the body holds is
/// not decoded: the outcome is incomplete, by the bytes that the list lacks.
pub proof fn lemma_sni_list_beyond_body(ext_len: u16, body: Seq<u8>)
    requires
        body.len() >= 2,
        spec_u16(body[0], body[1]) > body.len() - 2,
    ensures
        spec_extension_content(0x0000, ext_len, body) == Err::<(Seq<u8>, ExtensionValue), _>(
            ParseError::Incomplete(
                Needed::Size((spec_u16(body[0], body[1]) - (body.len() - 2)) as usize),
            ),
        ),
        spec_extension_content(0x0000, ext_len, body) == spec_sni_content(body),
{
    assert(0x0000u16 & 0x0f0f != 0x0a0a) by (bit_vector);
}

/// The same of a whole server name extension: where the list's length field
/// claims more than the extension's declared length leaves for the list, the
/// extension is rejected, though all of its declared bytes are there.
pub proof fn lemma_sni_list_beyond_extension(s: Seq<u8>)
    requires
        s.len() >= 6,
        spec_declared_type(s) == 0x0000,
        spec_declared_length(s) >= 2,
        s.len() >= 4 + spec_declared_length(s),
        spec_u16(s[4], s[5]) > spec_declared_length(s) - 2,
    ensures
        spec_extension(s) == Err::<(Seq<u8>, ExtensionValue), _>(
            ParseError::Incomplete(
                Needed::Size((spec_u16(s[4], s[5]) - (spec_declared_length(s) - 2)) as usize),
            ),
        ),
{
    lemma_envelope_framing(s);
    let n = spec_declared_length(s);
    let body = s.subrange(4, 4 + n);
    assert(body[0] == s[4] && body[1] == s[5]);
    lemma_sni_list_beyond_body(n as u16, body);
}

/// An empty region holds no extension.
pub proof fn lemma_empty_region(s: Seq<u8>)
    requires
        s.len() == 0,
    ensures
        spec_extensions(s) == Ok::<_, ParseError>((s, Seq::<ExtensionValue>::empty())),
{
}

/// A region of two extensions decodes to the two values in wire order.
pub proof fn lemma_two_extensions(s: Seq<u8>)
    requires
        spec_extension(s) is Ok,
        spec_extension(spec_extension(s).unwrap().0) is Ok,
        spec_extension(spec_extension(s).unwrap().0).unwrap().0.len() == 0,
    ensures
        spec_extensions(s) == Ok::<_, ParseError>(
            (
                spec_extension(spec_extension(s).unwrap().0).unwrap().0,
                seq![
                    spec_extension(s).unwrap().1,
                    spec_extension(spec_extension(s).unwrap().0).unwrap().1,
                ],
            ),
        ),
{
    let (r1, v1) = spec_extension(s).unwrap();
    let (r2, v2) = spec_extension(r1).unwrap();
    lemma_extension_consumes(s);
    lemma_extension_consumes(r1);
    assert(spec_extensions(r2) == Ok::<_, ParseError>((r2, Seq::<ExtensionValue>::empty())));
    assert(spec_extensions(r1) == Ok::<_, ParseError>((r2, seq![v2] + Seq::empty())));
    assert(seq![v1] + (seq![v2] + Seq::empty()) =~= seq![v1, v2]);
}

/// The first extension that fails makes the whole region fail as it did.
pub proof fn lemma_region_fails_with_first_failure(s: Seq<u8>)
    requires
        s.len() > 0,
        spec_extension(s) is Err,
    ensures
        spec_extensions(s) is Err,
        spec_extensions(s)->Err_0 == spec_extension(s)->Err_0,
{
}

} // verus!
