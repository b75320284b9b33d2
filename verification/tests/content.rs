use tls_extensions::content::{
    parse_tls_extension_alpn_content, parse_tls_extension_cookie_content,
    parse_tls_extension_early_data_content, parse_tls_extension_ec_point_formats_content,
    parse_tls_extension_elliptic_curves_content, parse_tls_extension_encrypt_then_mac_content,
    parse_tls_extension_encrypted_server_name,
    parse_tls_extension_extended_master_secret_content, parse_tls_extension_heartbeat_content,
    parse_tls_extension_key_share_content, parse_tls_extension_key_share_old_content,
    parse_tls_extension_max_fragment_length_content, parse_tls_extension_npn_content,
    parse_tls_extension_oid_filters, parse_tls_extension_padding_content,
    parse_tls_extension_post_handshake_auth_content,
    parse_tls_extension_pre_shared_key_content,
    parse_tls_extension_psk_key_exchange_modes_content, parse_tls_extension_record_size_limit,
    parse_tls_extension_renegotiation_info_content, parse_tls_extension_session_ticket_content,
    parse_tls_extension_signature_algorithms_content,
    parse_tls_extension_signed_certificate_timestamp_content,
    parse_tls_extension_sni_content, parse_tls_extension_status_request_content,
    parse_tls_extension_supported_versions_content,
};
use tls_extensions::lists::{
    parse_protocol_name, parse_tls_extension_sni_hostname, parse_tls_oid_filter,
};
use tls_extensions::{
    CertificateStatusType, ErrorKind, NamedGroup, Needed, OidFilter, ParseError, SNIType,
    TlsCipherSuiteID, TlsExtension, TlsVersion,
};

const EMPTY: &[u8] = &[];

fn verify_failure<T>() -> Result<T, ParseError> {
    Err(ParseError::Error(ErrorKind::Verify))
}

fn incomplete<T>(n: usize) -> Result<T, ParseError> {
    Err(ParseError::Incomplete(Needed::Size(n)))
}

#[test]
fn sni_hostname_entry() {
    let i: &[u8] = &[0x00, 0x00, 0x03, b'a', b'b', b'c', 0x07];
    assert_eq!(parse_tls_extension_sni_hostname(i), Ok((&i[6..], (SNIType(0), &i[3..6]))));
    assert_eq!(parse_tls_extension_sni_hostname(&i[..5]), incomplete(1));
    assert_eq!(parse_tls_extension_sni_hostname(&i[..2]), incomplete(1));
    assert_eq!(parse_tls_extension_sni_hostname(EMPTY), incomplete(1));
}

#[test]
fn sni_list_in_wire_order() {
    let i: &[u8] = &[
        0x00, 0x0b, 0x00, 0x00, 0x03, b'a', b'b', b'c', 0x01, 0x00, 0x02, b'd', b'e', 0x99,
    ];
    assert_eq!(
        parse_tls_extension_sni_content(i),
        Ok((&i[13..], TlsExtension::SNI(vec![(SNIType(0), &i[5..8]), (SNIType(1), &i[11..13])])))
    );
}

#[test]
fn sni_list_keeps_duplicates() {
    let i: &[u8] = &[0x00, 0x08, 0x00, 0x00, 0x01, b'a', 0x00, 0x00, 0x01, b'a'];
    assert_eq!(
        parse_tls_extension_sni_content(i),
        Ok((EMPTY, TlsExtension::SNI(vec![(SNIType(0), &i[5..6]), (SNIType(0), &i[9..10])])))
    );
}

#[test]
fn sni_list_stops_where_no_whole_entry_stands() {
    let i: &[u8] = &[0x00, 0x07, 0x00, 0x00, 0x01, b'a', 0x00, 0x00, 0x05];
    assert_eq!(
        parse_tls_extension_sni_content(i),
        Ok((EMPTY, TlsExtension::SNI(vec![(SNIType(0), &i[5..6])])))
    );
    let none: &[u8] = &[0x00, 0x00];
    assert_eq!(parse_tls_extension_sni_content(none), Ok((EMPTY, TlsExtension::SNI(vec![]))));
}

#[test]
fn sni_list_length_beyond_the_body_is_rejected() {
    let i: &[u8] = &[0x00, 0x10, 0x00, 0x00, 0x03, b'a', b'b', b'c'];
    assert_eq!(parse_tls_extension_sni_content(i), incomplete(10));
    let j: &[u8] = &[0xff, 0xff];
    assert_eq!(parse_tls_extension_sni_content(j), incomplete(65535));
}

#[test]
fn max_fragment_length_is_one_byte() {
    assert_eq!(
        parse_tls_extension_max_fragment_length_content(&[0x04]),
        Ok((EMPTY, TlsExtension::MaxFragmentLength(4)))
    );
    assert_eq!(parse_tls_extension_max_fragment_length_content(EMPTY), incomplete(1));
    assert_eq!(parse_tls_extension_max_fragment_length_content(&[0x04, 0x00]), verify_failure());
}

#[test]
fn status_request_by_declared_length() {
    let i: &[u8] = &[0x01, 0x00, 0x00, 0x00, 0x00, 0x77];
    assert_eq!(
        parse_tls_extension_status_request_content(i, 0),
        Ok((i, TlsExtension::StatusRequest(None)))
    );
    assert_eq!(
        parse_tls_extension_status_request_content(i, 5),
        Ok((&i[5..], TlsExtension::StatusRequest(Some((CertificateStatusType(1), &i[1..5])))))
    );
    assert_eq!(
        parse_tls_extension_status_request_content(i, 1),
        Ok((&i[1..], TlsExtension::StatusRequest(Some((CertificateStatusType(1), EMPTY)))))
    );
    assert_eq!(parse_tls_extension_status_request_content(i, 9), incomplete(3));
    assert_eq!(parse_tls_extension_status_request_content(EMPTY, 5), incomplete(1));
}

#[test]
fn elliptic_curves_list() {
    let i: &[u8] = &[0x00, 0x04, 0x00, 0x1d, 0x00, 0x17];
    assert_eq!(
        parse_tls_extension_elliptic_curves_content(i),
        Ok((EMPTY, TlsExtension::EllipticCurves(vec![NamedGroup(0x001d), NamedGroup(0x0017)])))
    );
    assert_eq!(
        parse_tls_extension_elliptic_curves_content(&[0x00, 0x00]),
        Ok((EMPTY, TlsExtension::EllipticCurves(vec![])))
    );
    assert_eq!(
        parse_tls_extension_elliptic_curves_content(&[0x00, 0x03, 0x00, 0x1d, 0x00]),
        Err(ParseError::Error(ErrorKind::Verify))
    );
    assert_eq!(parse_tls_extension_elliptic_curves_content(&[0x00, 0x04, 0x00]), incomplete(3));
}

#[test]
fn ec_point_formats_stay_raw() {
    let i: &[u8] = &[0x02, 0x00, 0x01, 0x55];
    assert_eq!(
        parse_tls_extension_ec_point_formats_content(i),
        Ok((&i[3..], TlsExtension::EcPointFormats(&i[1..3])))
    );
    assert_eq!(parse_tls_extension_ec_point_formats_content(&i[..2]), incomplete(1));
}

#[test]
fn signature_algorithms_list() {
    let i: &[u8] = &[0x00, 0x06, 0x04, 0x03, 0x08, 0x04, 0x04, 0x03];
    assert_eq!(
        parse_tls_extension_signature_algorithms_content(i),
        Ok((EMPTY, TlsExtension::SignatureAlgorithms(vec![0x0403, 0x0804, 0x0403])))
    );
    let odd: &[u8] = &[0x00, 0x03, 0x04, 0x03, 0x08];
    assert_eq!(
        parse_tls_extension_signature_algorithms_content(odd),
        Ok((EMPTY, TlsExtension::SignatureAlgorithms(vec![0x0403])))
    );
}

#[test]
fn heartbeat_is_one_byte() {
    assert_eq!(
        parse_tls_extension_heartbeat_content(&[0x01]),
        Ok((EMPTY, TlsExtension::Heartbeat(1)))
    );
    assert_eq!(parse_tls_extension_heartbeat_content(EMPTY), incomplete(1));
    assert_eq!(parse_tls_extension_heartbeat_content(&[0x01, 0x02]), verify_failure());
}

#[test]
fn alpn_protocol_names() {
    let i: &[u8] = &[0x00, 0x0c, 0x02, b'h', b'2', 0x08, b'h', b't', b't', b'p', b'/', b'1', b'.', b'1'];
    assert_eq!(
        parse_tls_extension_alpn_content(i),
        Ok((EMPTY, TlsExtension::ALPN(vec![&i[3..5], &i[6..14]])))
    );
    assert_eq!(parse_protocol_name(&i[2..]), Ok((&i[5..], &i[3..5])));
    let cut: &[u8] = &[0x00, 0x05, 0x02, b'h', b'2', 0x08, b'h'];
    assert_eq!(
        parse_tls_extension_alpn_content(cut),
        Ok((EMPTY, TlsExtension::ALPN(vec![&cut[3..5]])))
    );
    let empty_name: &[u8] = &[0x00, 0x01, 0x00];
    assert_eq!(
        parse_tls_extension_alpn_content(empty_name),
        Ok((EMPTY, TlsExtension::ALPN(vec![EMPTY])))
    );
}

#[test]
fn raw_bodies_of_declared_length() {
    let i: &[u8] = &[9, 8, 7, 6, 5];
    assert_eq!(parse_tls_extension_padding_content(i, 3), Ok((&i[3..], TlsExtension::Padding(&i[..3]))));
    assert_eq!(
        parse_tls_extension_session_ticket_content(i, 5),
        Ok((EMPTY, TlsExtension::SessionTicket(i)))
    );
    assert_eq!(
        parse_tls_extension_key_share_old_content(i, 2),
        Ok((&i[2..], TlsExtension::KeyShareOld(&i[..2])))
    );
    assert_eq!(
        parse_tls_extension_key_share_content(i, 4),
        Ok((&i[4..], TlsExtension::KeyShare(&i[..4])))
    );
    assert_eq!(
        parse_tls_extension_pre_shared_key_content(i, 1),
        Ok((&i[1..], TlsExtension::PreSharedKey(&i[..1])))
    );
    assert_eq!(parse_tls_extension_cookie_content(i, 0), Ok((i, TlsExtension::Cookie(EMPTY))));
    assert_eq!(parse_tls_extension_padding_content(i, 6), incomplete(1));
    assert_eq!(parse_tls_extension_cookie_content(i, 65535), incomplete(65530));
}

#[test]
fn signed_certificate_timestamp_is_optional() {
    let i: &[u8] = &[0x00, 0x02, 0xaa, 0xbb, 0xcc];
    assert_eq!(
        parse_tls_extension_signed_certificate_timestamp_content(i),
        Ok((&i[4..], TlsExtension::SignedCertificateTimestamp(Some(&i[2..4]))))
    );
    assert_eq!(
        parse_tls_extension_signed_certificate_timestamp_content(EMPTY),
        Ok((EMPTY, TlsExtension::SignedCertificateTimestamp(None)))
    );
    let short: &[u8] = &[0x00, 0x05, 0xaa];
    assert_eq!(
        parse_tls_extension_signed_certificate_timestamp_content(short),
        Ok((short, TlsExtension::SignedCertificateTimestamp(None)))
    );
}

#[test]
fn markers_carry_nothing() {
    let i: &[u8] = &[1, 2];
    assert_eq!(
        parse_tls_extension_encrypt_then_mac_content(EMPTY, 0),
        Ok((EMPTY, TlsExtension::EncryptThenMac))
    );
    assert_eq!(
        parse_tls_extension_extended_master_secret_content(EMPTY, 0),
        Ok((EMPTY, TlsExtension::ExtendedMasterSecret))
    );
    assert_eq!(
        parse_tls_extension_post_handshake_auth_content(EMPTY, 0),
        Ok((EMPTY, TlsExtension::PostHandshakeAuth))
    );
    assert_eq!(
        parse_tls_extension_npn_content(EMPTY, 0),
        Ok((EMPTY, TlsExtension::NextProtocolNegotiation))
    );
    assert_eq!(parse_tls_extension_encrypt_then_mac_content(i, 2), verify_failure());
    assert_eq!(parse_tls_extension_extended_master_secret_content(i, 2), verify_failure());
    assert_eq!(parse_tls_extension_post_handshake_auth_content(i, 1), verify_failure());
    assert_eq!(parse_tls_extension_npn_content(i, 65535), verify_failure());
}

#[test]
fn record_size_limit_value() {
    let i: &[u8] = &[0x40, 0x01];
    assert_eq!(
        parse_tls_extension_record_size_limit(i),
        Ok((EMPTY, TlsExtension::RecordSizeLimit(16385)))
    );
    assert_eq!(parse_tls_extension_record_size_limit(&i[..1]), incomplete(1));
}

#[test]
fn early_data_by_declared_length() {
    let i: &[u8] = &[0x00, 0x01, 0x02, 0x03];
    assert_eq!(
        parse_tls_extension_early_data_content(i, 4),
        Ok((EMPTY, TlsExtension::EarlyData(Some(0x0001_0203))))
    );
    assert_eq!(
        parse_tls_extension_early_data_content(EMPTY, 0),
        Ok((EMPTY, TlsExtension::EarlyData(None)))
    );
    assert_eq!(parse_tls_extension_early_data_content(&i[..3], 3), incomplete(1));
}

#[test]
fn supported_versions_selected_version() {
    let i: &[u8] = &[0x02, 0x03];
    assert_eq!(
        parse_tls_extension_supported_versions_content(i, 2),
        Ok((EMPTY, TlsExtension::SupportedVersions(vec![TlsVersion(0x0203)])))
    );
}

#[test]
fn supported_versions_list() {
    let i: &[u8] = &[0x02, 0x03, 0x04, 0x03, 0x03];
    assert_eq!(
        parse_tls_extension_supported_versions_content(i, 5),
        Ok((
            EMPTY,
            TlsExtension::SupportedVersions(vec![TlsVersion(0x0304), TlsVersion(0x0303)])
        ))
    );
    let one: &[u8] = &[0x00];
    assert_eq!(
        parse_tls_extension_supported_versions_content(one, 1),
        Ok((EMPTY, TlsExtension::SupportedVersions(vec![])))
    );
    let even: &[u8] = &[0x03, 0x03, 0x04, 0x03];
    assert_eq!(
        parse_tls_extension_supported_versions_content(even, 4),
        Err(ParseError::Error(ErrorKind::Verify))
    );
}

#[test]
fn supported_versions_of_length_zero_fail() {
    assert_eq!(parse_tls_extension_supported_versions_content(EMPTY, 0), verify_failure());
    assert_eq!(parse_tls_extension_supported_versions_content(&[1, 2, 3], 0), verify_failure());
}

#[test]
fn psk_key_exchange_modes_list() {
    let i: &[u8] = &[0x02, 0x01, 0x00, 0x09];
    assert_eq!(
        parse_tls_extension_psk_key_exchange_modes_content(i),
        Ok((&i[3..], TlsExtension::PskExchangeModes(vec![1, 0])))
    );
    assert_eq!(parse_tls_extension_psk_key_exchange_modes_content(&i[..1]), incomplete(2));
}

#[test]
fn renegotiation_info_is_framed_again() {
    let i: &[u8] = &[0x00];
    assert_eq!(
        parse_tls_extension_renegotiation_info_content(i),
        Ok((EMPTY, TlsExtension::RenegotiationInfo(EMPTY)))
    );
    let j: &[u8] = &[0x03, 1, 2, 3];
    assert_eq!(
        parse_tls_extension_renegotiation_info_content(j),
        Ok((EMPTY, TlsExtension::RenegotiationInfo(&j[1..])))
    );
}

#[test]
fn encrypted_server_name_fields() {
    let i: &[u8] = &[
        0x13, 0x01, 0x00, 0x1d, 0x00, 0x02, 0xa1, 0xa2, 0x00, 0x01, 0xb1, 0x00, 0x03, 0xc1, 0xc2,
        0xc3, 0xee,
    ];
    assert_eq!(
        parse_tls_extension_encrypted_server_name(i),
        Ok((
            &i[16..],
            TlsExtension::EncryptedServerName {
                ciphersuite: TlsCipherSuiteID(0x1301),
                group: NamedGroup(0x001d),
                key_share: &i[6..8],
                record_digest: &i[10..11],
                encrypted_sni: &i[13..16],
            }
        ))
    );
    assert_eq!(parse_tls_extension_encrypted_server_name(&i[..15]), incomplete(1));
    assert_eq!(parse_tls_extension_encrypted_server_name(&i[..3]), incomplete(1));
    assert_eq!(parse_tls_extension_encrypted_server_name(&i[..9]), incomplete(1));
}

#[test]
fn oid_filters_list() {
    let i: &[u8] = &[0x00, 0x0a, 0x02, 0x55, 0x1d, 0x00, 0x01, 0x07, 0x01, 0x2a, 0x00, 0x00];
    assert_eq!(
        parse_tls_extension_oid_filters(i),
        Ok((
            EMPTY,
            TlsExtension::OidFilters(vec![
                OidFilter { cert_ext_oid: &i[3..5], cert_ext_val: &i[7..8] },
                OidFilter { cert_ext_oid: &i[9..10], cert_ext_val: EMPTY },
            ])
        ))
    );
    assert_eq!(
        parse_tls_oid_filter(&i[2..]),
        Ok((&i[8..], OidFilter { cert_ext_oid: &i[3..5], cert_ext_val: &i[7..8] }))
    );
    assert_eq!(parse_tls_oid_filter(&i[2..6]), incomplete(1));
}
