use vstd::prelude::*;
use crate::registry::{CertificateStatusType, ExtensionSymbol, SNIType, TlsExtensionType};
use crate::tls::{TlsCipherSuiteID, TlsVersion};
use crate::tls_ec::NamedGroup;

verus! {

/// One certificate extension that a server asks a client certificate to
/// hold: the extension's OID and the values that it accepts.
#[derive(Clone, Debug, PartialEq)]
pub struct OidFilter<'a> {
    pub cert_ext_oid: &'a [u8],
    pub cert_ext_val: &'a [u8],
}

/// An `OidFilter` by its contents.
pub struct OidFilterValue {
    pub cert_ext_oid: Seq<u8>,
    pub cert_ext_val: Seq<u8>,
}

impl<'a> View for OidFilter<'a> {
    type V = OidFilterValue;

    open spec fn view(&self) -> OidFilterValue {
        OidFilterValue { cert_ext_oid: self.cert_ext_oid@, cert_ext_val: self.cert_ext_val@ }
    }
}

/// A key share: the group and the key exchange data for it.
#[derive(Clone, Debug, PartialEq)]
pub struct KeyShareEntry<'a> {
    pub group: NamedGroup,
    pub kx: &'a [u8],
}

/// A decoded TLS extension. Byte ranges borrow from the decoded input.
#[derive(Clone, Debug, PartialEq)]
pub enum TlsExtension<'a> {
    SNI(Vec<(SNIType, &'a [u8])>),
    MaxFragmentLength(u8),
    StatusRequest(Option<(CertificateStatusType, &'a [u8])>),
    EllipticCurves(Vec<NamedGroup>),
    EcPointFormats(&'a [u8]),
    SignatureAlgorithms(Vec<u16>),
    RecordSizeLimit(u16),
    SessionTicket(&'a [u8]),
    KeyShareOld(&'a [u8]),
    KeyShare(&'a [u8]),
    PreSharedKey(&'a [u8]),
    EarlyData(Option<u32>),
    SupportedVersions(Vec<TlsVersion>),
    Cookie(&'a [u8]),
    PskExchangeModes(Vec<u8>),
    Heartbeat(u8),
    ALPN(Vec<&'a [u8]>),
    SignedCertificateTimestamp(Option<&'a [u8]>),
    Padding(&'a [u8]),
    EncryptThenMac,
    ExtendedMasterSecret,
    OidFilters(Vec<OidFilter<'a>>),
    PostHandshakeAuth,
    NextProtocolNegotiation,
    RenegotiationInfo(&'a [u8]),
    EncryptedServerName {
        ciphersuite: TlsCipherSuiteID,
        group: NamedGroup,
        key_share: &'a [u8],
        record_digest: &'a [u8],
        encrypted_sni: &'a [u8],
    },
    Grease(u16, &'a [u8]),
    Unknown(TlsExtensionType, &'a [u8]),
}

/// A decoded extension by its contents: what `TlsExtension` holds, with
/// every byte range and list as a sequence.
pub enum ExtensionValue {
    SNI(Seq<(SNIType, Seq<u8>)>),
    MaxFragmentLength(u8),
    StatusRequest(Option<(CertificateStatusType, Seq<u8>)>),
    EllipticCurves(Seq<NamedGroup>),
    EcPointFormats(Seq<u8>),
    SignatureAlgorithms(Seq<u16>),
    RecordSizeLimit(u16),
    SessionTicket(Seq<u8>),
    KeyShareOld(Seq<u8>),
    KeyShare(Seq<u8>),
    PreSharedKey(Seq<u8>),
    EarlyData(Option<u32>),
    SupportedVersions(Seq<TlsVersion>),
    Cookie(Seq<u8>),
    PskExchangeModes(Seq<u8>),
    Heartbeat(u8),
    ALPN(Seq<Seq<u8>>),
    SignedCertificateTimestamp(Option<Seq<u8>>),
    Padding(Seq<u8>),
    EncryptThenMac,
    ExtendedMasterSecret,
    OidFilters(Seq<OidFilterValue>),
    PostHandshakeAuth,
    NextProtocolNegotiation,
    RenegotiationInfo(Seq<u8>),
    EncryptedServerName {
        ciphersuite: TlsCipherSuiteID,
        group: NamedGroup,
        key_share: Seq<u8>,
        record_digest: Seq<u8>,
        encrypted_sni: Seq<u8>,
    },
    Grease(u16, Seq<u8>),
    Unknown(TlsExtensionType, Seq<u8>),
}

/// A server name list by its contents.
pub open spec fn sni_list_view<'a>(v: Seq<(SNIType, &'a [u8])>) -> Seq<(SNIType, Seq<u8>)> {
    Seq::new(v.len(), |k: int| (v[k].0, v[k].1@))
}

/// A list of byte ranges by its contents.
pub open spec fn bytes_list_view<'a>(v: Seq<&'a [u8]>) -> Seq<Seq<u8>> {
    Seq::new(v.len(), |k: int| v[k]@)
}

/// A list of OID filters by its contents.
pub open spec fn oid_filters_view<'a>(v: Seq<OidFilter<'a>>) -> Seq<OidFilterValue> {
    Seq::new(v.len(), |k: int| v[k]@)
}

/// A list of decoded extensions by its contents.
pub open spec fn extensions_view<'a>(v: Seq<TlsExtension<'a>>) -> Seq<ExtensionValue> {
    Seq::new(v.len(), |k: int| v[k]@)
}

impl<'a> View for TlsExtension<'a> {
    type V = ExtensionValue;

    open spec fn view(&self) -> ExtensionValue {
        match *self {
            TlsExtension::SNI(v) => ExtensionValue::SNI(sni_list_view(v@)),
            TlsExtension::MaxFragmentLength(x) => ExtensionValue::MaxFragmentLength(x),
            TlsExtension::StatusRequest(o) => ExtensionValue::StatusRequest(
                match o {
                    Some((t, d)) => Some((t, d@)),
                    None => None,
                },
            ),
            TlsExtension::EllipticCurves(v) => ExtensionValue::EllipticCurves(v@),
            TlsExtension::EcPointFormats(d) => ExtensionValue::EcPointFormats(d@),
            TlsExtension::SignatureAlgorithms(v) => ExtensionValue::SignatureAlgorithms(v@),
            TlsExtension::RecordSizeLimit(x) => ExtensionValue::RecordSizeLimit(x),
            TlsExtension::SessionTicket(d) => ExtensionValue::SessionTicket(d@),
            TlsExtension::KeyShareOld(d) => ExtensionValue::KeyShareOld(d@),
            TlsExtension::KeyShare(d) => ExtensionValue::KeyShare(d@),
            TlsExtension::PreSharedKey(d) => ExtensionValue::PreSharedKey(d@),
            TlsExtension::EarlyData(o) => ExtensionValue::EarlyData(o),
            TlsExtension::SupportedVersions(v) => ExtensionValue::SupportedVersions(v@),
            TlsExtension::Cookie(d) => ExtensionValue::Cookie(d@),
            TlsExtension::PskExchangeModes(v) => ExtensionValue::PskExchangeModes(v@),
            TlsExtension::Heartbeat(x) => ExtensionValue::Heartbeat(x),
            TlsExtension::ALPN(v) => ExtensionValue::ALPN(bytes_list_view(v@)),
            TlsExtension::SignedCertificateTimestamp(o) => ExtensionValue::SignedCertificateTimestamp(
                match o {
                    Some(d) => Some(d@),
                    None => None,
                },
            ),
            TlsExtension::Padding(d) => ExtensionValue::Padding(d@),
            TlsExtension::EncryptThenMac => ExtensionValue::EncryptThenMac,
            TlsExtension::ExtendedMasterSecret => ExtensionValue::ExtendedMasterSecret,
            TlsExtension::OidFilters(v) => ExtensionValue::OidFilters(oid_filters_view(v@)),
            TlsExtension::PostHandshakeAuth => ExtensionValue::PostHandshakeAuth,
            TlsExtension::NextProtocolNegotiation => ExtensionValue::NextProtocolNegotiation,
            TlsExtension::RenegotiationInfo(d) => ExtensionValue::RenegotiationInfo(d@),
            TlsExtension::EncryptedServerName {
                ciphersuite,
                group,
                key_share,
                record_digest,
                encrypted_sni,
            } => ExtensionValue::EncryptedServerName {
                ciphersuite,
                group,
                key_share: key_share@,
                record_digest: record_digest@,
                encrypted_sni: encrypted_sni@,
            },
            TlsExtension::Grease(c, d) => ExtensionValue::Grease(c, d@),
            TlsExtension::Unknown(t, d) => ExtensionValue::Unknown(t, d@),
        }
    }
}

impl ExtensionValue {
    /// The name of the extension type that this kind of value belongs to;
    /// `None` for a value that carries its own code.
    pub open spec fn spec_symbol(self) -> Option<ExtensionSymbol> {
        match self {
            ExtensionValue::SNI(_) => Some(ExtensionSymbol::ServerName),
            ExtensionValue::MaxFragmentLength(_) => Some(ExtensionSymbol::MaxFragmentLength),
            ExtensionValue::StatusRequest(_) => Some(ExtensionSymbol::StatusRequest),
            ExtensionValue::EllipticCurves(_) => Some(ExtensionSymbol::SupportedGroups),
            ExtensionValue::EcPointFormats(_) => Some(ExtensionSymbol::EcPointFormats),
            ExtensionValue::SignatureAlgorithms(_) => Some(ExtensionSymbol::SignatureAlgorithms),
            ExtensionValue::RecordSizeLimit(_) => Some(ExtensionSymbol::RecordSizeLimit),
            ExtensionValue::SessionTicket(_) => Some(ExtensionSymbol::SessionTicketTLS),
            ExtensionValue::KeyShareOld(_) => Some(ExtensionSymbol::KeyShareOld),
            ExtensionValue::KeyShare(_) => Some(ExtensionSymbol::KeyShare),
            ExtensionValue::PreSharedKey(_) => Some(ExtensionSymbol::PreSharedKey),
            ExtensionValue::EarlyData(_) => Some(ExtensionSymbol::EarlyData),
            ExtensionValue::SupportedVersions(_) => Some(ExtensionSymbol::SupportedVersions),
            ExtensionValue::Cookie(_) => Some(ExtensionSymbol::Cookie),
            ExtensionValue::PskExchangeModes(_) => Some(ExtensionSymbol::PskExchangeModes),
            ExtensionValue::Heartbeat(_) => Some(ExtensionSymbol::Heartbeat),
            ExtensionValue::ALPN(_) => Some(ExtensionSymbol::ApplicationLayerProtocolNegotiation),
            ExtensionValue::SignedCertificateTimestamp(_) => Some(
                ExtensionSymbol::SignedCertificateTimestamp,
            ),
            ExtensionValue::Padding(_) => Some(ExtensionSymbol::Padding),
            ExtensionValue::EncryptThenMac => Some(ExtensionSymbol::EncryptThenMac),
            ExtensionValue::ExtendedMasterSecret => Some(ExtensionSymbol::ExtendedMasterSecret),
            ExtensionValue::OidFilters(_) => Some(ExtensionSymbol::OidFilters),
            ExtensionValue::PostHandshakeAuth => Some(ExtensionSymbol::PostHandshakeAuth),
            ExtensionValue::NextProtocolNegotiation => Some(
                ExtensionSymbol::NextProtocolNegotiation,
            ),
            ExtensionValue::RenegotiationInfo(_) => Some(ExtensionSymbol::RenegotiationInfo),
            ExtensionValue::EncryptedServerName { .. } => Some(
                ExtensionSymbol::EncryptedServerName,
            ),
            ExtensionValue::Grease(_, _) => Some(ExtensionSymbol::Grease),
            ExtensionValue::Unknown(_, _) => None,
        }
    }

    /// The extension type of a decoded value: the code of its kind's name,
    /// and for an unknown extension the code that it was sent under.
    pub open spec fn spec_type(self) -> TlsExtensionType {
        match self {
            ExtensionValue::Unknown(t, _) => t,
            _ => TlsExtensionType(self.spec_symbol().unwrap().spec_code()),
        }
    }
}

impl<'a> From<&'a TlsExtension<'a>> for TlsExtensionType {
    fn from(ext: &'a TlsExtension<'a>) -> (r: TlsExtensionType) {
        match ext {
            TlsExtension::SNI(_) => TlsExtensionType(0x0000),
            TlsExtension::MaxFragmentLength(_) => TlsExtensionType(0x0001),
            TlsExtension::StatusRequest(_) => TlsExtensionType(0x0005),
            TlsExtension::EllipticCurves(_) => TlsExtensionType(0x000a),
            TlsExtension::EcPointFormats(_) => TlsExtensionType(0x000b),
            TlsExtension::SignatureAlgorithms(_) => TlsExtensionType(0x000d),
            TlsExtension::SessionTicket(_) => TlsExtensionType(0x0023),
            TlsExtension::RecordSizeLimit(_) => TlsExtensionType(0x001c),
            TlsExtension::KeyShareOld(_) => TlsExtensionType(0x0028),
            TlsExtension::KeyShare(_) => TlsExtensionType(0x0033),
            TlsExtension::PreSharedKey(_) => TlsExtensionType(0x0029),
            TlsExtension::EarlyData(_) => TlsExtensionType(0x002a),
            TlsExtension::SupportedVersions(_) => TlsExtensionType(0x002b),
            TlsExtension::Cookie(_) => TlsExtensionType(0x002c),
            TlsExtension::PskExchangeModes(_) => TlsExtensionType(0x002d),
            TlsExtension::Heartbeat(_) => TlsExtensionType(0x000f),
            TlsExtension::ALPN(_) => TlsExtensionType(0x0010),
            TlsExtension::SignedCertificateTimestamp(_) => TlsExtensionType(0x0012),
            TlsExtension::Padding(_) => TlsExtensionType(0x0015),
            TlsExtension::EncryptThenMac => TlsExtensionType(0x0016),
            TlsExtension::ExtendedMasterSecret => TlsExtensionType(0x0017),
            TlsExtension::OidFilters(_) => TlsExtensionType(0x0030),
            TlsExtension::PostHandshakeAuth => TlsExtensionType(0x0031),
            TlsExtension::NextProtocolNegotiation => TlsExtensionType(0x3374),
            TlsExtension::RenegotiationInfo(_) => TlsExtensionType(0xff01),
            TlsExtension::EncryptedServerName { .. } => TlsExtensionType(0xffce),
            TlsExtension::Grease(_, _) => TlsExtensionType(0xfafa),
            TlsExtension::Unknown(x, _) => *x,
        }
    }
}

impl<'a> vstd::std_specs::convert::FromSpecImpl<&'a TlsExtension<'a>> for TlsExtensionType {
    open spec fn obeys_from_spec() -> bool {
        true
    }

    open spec fn from_spec(ext: &'a TlsExtension<'a>) -> TlsExtensionType {
        ext@.spec_type()
    }
}

} // verus!
