use vstd::prelude::*;
use crate::bytes::{
    be_u8, length_data_u16, length_data_u8, spec_be_u8, spec_length_data_u16,
    spec_length_data_u8,
};
use crate::error::ParseError;
use crate::model::{bytes_list_view, oid_filters_view, sni_list_view, OidFilter, OidFilterValue};
use crate::registry::SNIType;

verus! {

/// One entry of a server name list: the name's kind in one byte, then the
/// name behind its 16-bit length.
pub open spec fn spec_sni_hostname(s: Seq<u8>) -> Result<
    (Seq<u8>, (SNIType, Seq<u8>)),
    ParseError,
> {
    match spec_be_u8(s) {
        Err(e) => Err(e),
        Ok((s1, t)) => match spec_length_data_u16(s1) {
            Err(e) => Err(e),
            Ok((rest, name)) => Ok((rest, (SNIType(t), name))),
        },
    }
}

/// The entries of a server name list: one after the other from the front,
/// up to the first place where no whole entry stands.
pub open spec fn spec_sni_list(s: Seq<u8>) -> Seq<(SNIType, Seq<u8>)>
    decreases s.len(),
{
    match spec_sni_hostname(s) {
        Ok((rest, e)) => seq![e] + spec_sni_list(rest),
        Err(_) => Seq::empty(),
    }
}

/// The protocol names of a list, each behind its one-byte length, up to the
/// first place where no whole name stands.
pub open spec fn spec_protocol_name_list(s: Seq<u8>) -> Seq<Seq<u8>>
    decreases s.len(),
{
    match spec_length_data_u8(s) {
        Ok((rest, e)) => seq![e] + spec_protocol_name_list(rest),
        Err(_) => Seq::empty(),
    }
}

/// One OID filter: the OID behind a one-byte length, then the accepted
/// values behind a 16-bit length.
pub open spec fn spec_oid_filter(s: Seq<u8>) -> Result<(Seq<u8>, OidFilterValue), ParseError> {
    match spec_length_data_u8(s) {
        Err(e) => Err(e),
        Ok((s1, oid)) => match spec_length_data_u16(s1) {
            Err(e) => Err(e),
            Ok((rest, val)) => Ok((rest, OidFilterValue { cert_ext_oid: oid, cert_ext_val: val })),
        },
    }
}

/// The OID filters of a list, up to the first place where no whole filter
/// stands.
pub open spec fn spec_oid_filter_list(s: Seq<u8>) -> Seq<OidFilterValue>
    decreases s.len(),
{
    match spec_oid_filter(s) {
        Ok((rest, e)) => seq![e] + spec_oid_filter_list(rest),
        Err(_) => Seq::empty(),
    }
}

/// Decodes one entry of a server name list.
pub fn parse_tls_extension_sni_hostname<'a>(i: &'a [u8]) -> (r: Result<
    (&'a [u8], (SNIType, &'a [u8])),
    ParseError,
>)
    ensures
        match r {
            Ok((rest, e)) => spec_sni_hostname(i@) == Ok::<_, ParseError>(
                (rest@, (e.0, e.1@)),
            ),
            Err(e) => spec_sni_hostname(i@) == Err::<(Seq<u8>, (SNIType, Seq<u8>)), _>(e),
        },
{
    match be_u8(i) {
        Err(e) => Err(e),
        Ok((i1, t)) => match length_data_u16(i1) {
            Err(e) => Err(e),
            Ok((rest, name)) => Ok((rest, (SNIType(t), name))),
        },
    }
}

/// Decodes the entries of a server name list, in wire order.
pub fn parse_sni_list<'a>(list: &'a [u8]) -> (r: Vec<(SNIType, &'a [u8])>)
    ensures
        sni_list_view(r@) == spec_sni_list(list@),
{
    let mut acc: Vec<(SNIType, &'a [u8])> = Vec::new();
    let mut cur: &'a [u8] = list;
    assert(sni_list_view(acc@) + spec_sni_list(cur@) =~= spec_sni_list(list@));
    loop
        invariant
            sni_list_view(acc@) + spec_sni_list(cur@) == spec_sni_list(list@),
        decreases cur@.len(),
    {
        match parse_tls_extension_sni_hostname(cur) {
            Err(_) => {
                assert(sni_list_view(acc@) + spec_sni_list(cur@) =~= sni_list_view(acc@));
                return acc;
            },
            Ok((rest, e)) => {
                let ghost before = acc@;
                acc.push(e);
                assert(sni_list_view(acc@) =~= sni_list_view(before) + seq![(e.0, e.1@)]);
                assert(sni_list_view(acc@) + spec_sni_list(rest@) =~= sni_list_view(before) + (
                seq![(e.0, e.1@)] + spec_sni_list(rest@)));
                cur = rest;
            },
        }
    }
}

/// Decodes one protocol name behind its one-byte length.
pub fn parse_protocol_name<'a>(i: &'a [u8]) -> (r: Result<(&'a [u8], &'a [u8]), ParseError>)
    ensures
        crate::bytes::bytes_result(r) == spec_length_data_u8(i@),
{
    length_data_u8(i)
}

/// Decodes the protocol names of a list, in wire order.
pub fn parse_protocol_name_list<'a>(list: &'a [u8]) -> (r: Vec<&'a [u8]>)
    ensures
        bytes_list_view(r@) == spec_protocol_name_list(list@),
{
    let mut acc: Vec<&'a [u8]> = Vec::new();
    let mut cur: &'a [u8] = list;
    assert(bytes_list_view(acc@) + spec_protocol_name_list(cur@) =~= spec_protocol_name_list(
        list@,
    ));
    loop
        invariant
            bytes_list_view(acc@) + spec_protocol_name_list(cur@) == spec_protocol_name_list(
                list@,
            ),
        decreases cur@.len(),
    {
        match parse_protocol_name(cur) {
            Err(_) => {
                assert(bytes_list_view(acc@) + spec_protocol_name_list(cur@) =~= bytes_list_view(
                    acc@,
                ));
                return acc;
            },
            Ok((rest, e)) => {
                let ghost before = acc@;
                acc.push(e);
                assert(bytes_list_view(acc@) =~= bytes_list_view(before) + seq![e@]);
                assert(bytes_list_view(acc@) + spec_protocol_name_list(rest@) =~= bytes_list_view(
                    before,
                ) + (seq![e@] + spec_protocol_name_list(rest@)));
                cur = rest;
            },
        }
    }
}

/// Decodes one OID filter.
pub fn parse_tls_oid_filter<'a>(i: &'a [u8]) -> (r: Result<(&'a [u8], OidFilter<'a>), ParseError>)
    ensures
        match r {
            Ok((rest, f)) => spec_oid_filter(i@) == Ok::<_, ParseError>((rest@, f@)),
            Err(e) => spec_oid_filter(i@) == Err::<(Seq<u8>, OidFilterValue), _>(e),
        },
{
    match length_data_u8(i) {
        Err(e) => Err(e),
        Ok((i1, cert_ext_oid)) => match length_data_u16(i1) {
            Err(e) => Err(e),
            Ok((rest, cert_ext_val)) => Ok((rest, OidFilter { cert_ext_oid, cert_ext_val })),
        },
    }
}

/// Decodes the OID filters of a list, in wire order.
pub fn parse_oid_filter_list<'a>(list: &'a [u8]) -> (r: Vec<OidFilter<'a>>)
    ensures
        oid_filters_view(r@) == spec_oid_filter_list(list@),
{
    let mut acc: Vec<OidFilter<'a>> = Vec::new();
    let mut cur: &'a [u8] = list;
    assert(oid_filters_view(acc@) + spec_oid_filter_list(cur@) =~= spec_oid_filter_list(list@));
    loop
        invariant
            oid_filters_view(acc@) + spec_oid_filter_list(cur@) == spec_oid_filter_list(list@),
        decreases cur@.len(),
    {
        match parse_tls_oid_filter(cur) {
            Err(_) => {
                assert(oid_filters_view(acc@) + spec_oid_filter_list(cur@) =~= oid_filters_view(
                    acc@,
                ));
                return acc;
            },
            Ok((rest, e)) => {
                let ghost before = acc@;
                acc.push(e);
                assert(oid_filters_view(acc@) =~= oid_filters_view(before) + seq![e@]);
                assert(oid_filters_view(acc@) + spec_oid_filter_list(rest@) =~= oid_filters_view(
                    before,
                ) + (seq![e@] + spec_oid_filter_list(rest@)));
                cur = rest;
            },
        }
    }
}

} // verus!
