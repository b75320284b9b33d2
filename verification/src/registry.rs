use vstd::prelude::*;
use vstd::std_specs::convert::FromSpec;
use crate::bytes::{be_u16, be_u8, spec_be_u16, spec_be_u8};
use crate::error::ParseError;

verus! {

/// A TLS extension type: any 16-bit code. The registry names some of them;
/// the others stand for themselves.
#[derive(Clone, Copy, Debug, PartialEq, Eq, Structural)]
pub struct TlsExtensionType(pub u16);

/// The names that the IANA registry of TLS extension types gives, with the
/// reserved GREASE marker and two codes in use before their registration.
#[derive(Clone, Copy, Debug, PartialEq, Eq, Structural)]
pub enum ExtensionSymbol {
    ServerName,
    MaxFragmentLength,
    ClientCertificate,
    TrustedCaKeys,
    TruncatedHMac,
    StatusRequest,
    UserMapping,
    ClientAuthz,
    ServerAuthz,
    CertType,
    SupportedGroups,
    EcPointFormats,
    Srp,
    SignatureAlgorithms,
    UseSrtp,
    Heartbeat,
    ApplicationLayerProtocolNegotiation,
    StatusRequestv2,
    SignedCertificateTimestamp,
    ClientCertificateType,
    ServerCertificateType,
    Padding,
    EncryptThenMac,
    ExtendedMasterSecret,
    TokenBinding,
    CachedInfo,
    RecordSizeLimit,
    SessionTicketTLS,
    KeyShareOld,
    PreSharedKey,
    EarlyData,
    SupportedVersions,
    Cookie,
    PskExchangeModes,
    TicketEarlyDataInfo,
    CertificateAuthorities,
    OidFilters,
    PostHandshakeAuth,
    SigAlgorithmsCert,
    KeyShare,
    NextProtocolNegotiation,
    Grease,
    RenegotiationInfo,
    EncryptedServerName,
}

impl ExtensionSymbol {
    /// The code that the registry assigns to this name.
    pub open spec fn spec_code(self) -> u16 {
        match self {
            ExtensionSymbol::ServerName => 0x0000,
            ExtensionSymbol::MaxFragmentLength => 0x0001,
            ExtensionSymbol::ClientCertificate => 0x0002,
            ExtensionSymbol::TrustedCaKeys => 0x0003,
            ExtensionSymbol::TruncatedHMac => 0x0004,
            ExtensionSymbol::StatusRequest => 0x0005,
            ExtensionSymbol::UserMapping => 0x0006,
            ExtensionSymbol::ClientAuthz => 0x0007,
            ExtensionSymbol::ServerAuthz => 0x0008,
            ExtensionSymbol::CertType => 0x0009,
            ExtensionSymbol::SupportedGroups => 0x000a,
            ExtensionSymbol::EcPointFormats => 0x000b,
            ExtensionSymbol::Srp => 0x000c,
            ExtensionSymbol::SignatureAlgorithms => 0x000d,
            ExtensionSymbol::UseSrtp => 0x000e,
            ExtensionSymbol::Heartbeat => 0x000f,
            ExtensionSymbol::ApplicationLayerProtocolNegotiation => 0x0010,
            ExtensionSymbol::StatusRequestv2 => 0x0011,
            ExtensionSymbol::SignedCertificateTimestamp => 0x0012,
            ExtensionSymbol::ClientCertificateType => 0x0013,
            ExtensionSymbol::ServerCertificateType => 0x0014,
            ExtensionSymbol::Padding => 0x0015,
            ExtensionSymbol::EncryptThenMac => 0x0016,
            ExtensionSymbol::ExtendedMasterSecret => 0x0017,
            ExtensionSymbol::TokenBinding => 0x0018,
            ExtensionSymbol::CachedInfo => 0x0019,
            ExtensionSymbol::RecordSizeLimit => 0x001c,
            ExtensionSymbol::SessionTicketTLS => 0x0023,
            ExtensionSymbol::KeyShareOld => 0x0028,
            ExtensionSymbol::PreSharedKey => 0x0029,
            ExtensionSymbol::EarlyData => 0x002a,
            ExtensionSymbol::SupportedVersions => 0x002b,
            ExtensionSymbol::Cookie => 0x002c,
            ExtensionSymbol::PskExchangeModes => 0x002d,
            ExtensionSymbol::TicketEarlyDataInfo => 0x002e,
            ExtensionSymbol::CertificateAuthorities => 0x002f,
            ExtensionSymbol::OidFilters => 0x0030,
            ExtensionSymbol::PostHandshakeAuth => 0x0031,
            ExtensionSymbol::SigAlgorithmsCert => 0x0032,
            ExtensionSymbol::KeyShare => 0x0033,
            ExtensionSymbol::NextProtocolNegotiation => 0x3374,
            ExtensionSymbol::Grease => 0xfafa,
            ExtensionSymbol::RenegotiationInfo => 0xff01,
            ExtensionSymbol::EncryptedServerName => 0xffce,
        }
    }

    /// The code that the registry assigns to this name.
    pub fn code(self) -> (r: u16)
        ensures
            r == self.spec_code(),
    {
        match self {
            ExtensionSymbol::ServerName => 0x0000,
            ExtensionSymbol::MaxFragmentLength => 0x0001,
            ExtensionSymbol::ClientCertificate => 0x0002,
            ExtensionSymbol::TrustedCaKeys => 0x0003,
            ExtensionSymbol::TruncatedHMac => 0x0004,
            ExtensionSymbol::StatusRequest => 0x0005,
            ExtensionSymbol::UserMapping => 0x0006,
            ExtensionSymbol::ClientAuthz => 0x0007,
            ExtensionSymbol::ServerAuthz => 0x0008,
            ExtensionSymbol::CertType => 0x0009,
            ExtensionSymbol::SupportedGroups => 0x000a,
            ExtensionSymbol::EcPointFormats => 0x000b,
            ExtensionSymbol::Srp => 0x000c,
            ExtensionSymbol::SignatureAlgorithms => 0x000d,
            ExtensionSymbol::UseSrtp => 0x000e,
            ExtensionSymbol::Heartbeat => 0x000f,
            ExtensionSymbol::ApplicationLayerProtocolNegotiation => 0x0010,
            ExtensionSymbol::StatusRequestv2 => 0x0011,
            ExtensionSymbol::SignedCertificateTimestamp => 0x0012,
            ExtensionSymbol::ClientCertificateType => 0x0013,
            ExtensionSymbol::ServerCertificateType => 0x0014,
            ExtensionSymbol::Padding => 0x0015,
            ExtensionSymbol::EncryptThenMac => 0x0016,
            ExtensionSymbol::ExtendedMasterSecret => 0x0017,
            ExtensionSymbol::TokenBinding => 0x0018,
            ExtensionSymbol::CachedInfo => 0x0019,
            ExtensionSymbol::RecordSizeLimit => 0x001c,
            ExtensionSymbol::SessionTicketTLS => 0x0023,
            ExtensionSymbol::KeyShareOld => 0x0028,
            ExtensionSymbol::PreSharedKey => 0x0029,
            ExtensionSymbol::EarlyData => 0x002a,
            ExtensionSymbol::SupportedVersions => 0x002b,
            ExtensionSymbol::Cookie => 0x002c,
            ExtensionSymbol::PskExchangeModes => 0x002d,
            ExtensionSymbol::TicketEarlyDataInfo => 0x002e,
            ExtensionSymbol::CertificateAuthorities => 0x002f,
            ExtensionSymbol::OidFilters => 0x0030,
            ExtensionSymbol::PostHandshakeAuth => 0x0031,
            ExtensionSymbol::SigAlgorithmsCert => 0x0032,
            ExtensionSymbol::KeyShare => 0x0033,
            ExtensionSymbol::NextProtocolNegotiation => 0x3374,
            ExtensionSymbol::Grease => 0xfafa,
            ExtensionSymbol::RenegotiationInfo => 0xff01,
            ExtensionSymbol::EncryptedServerName => 0xffce,
        }
    }

    /// The name as the registry spells it.
    pub open spec fn spec_name(self) -> Seq<char> {
        match self {
            ExtensionSymbol::ServerName => "ServerName"@,
            ExtensionSymbol::MaxFragmentLength => "MaxFragmentLength"@,
            ExtensionSymbol::ClientCertificate => "ClientCertificate"@,
            ExtensionSymbol::TrustedCaKeys => "TrustedCaKeys"@,
            ExtensionSymbol::TruncatedHMac => "TruncatedHMac"@,
            ExtensionSymbol::StatusRequest => "StatusRequest"@,
            ExtensionSymbol::UserMapping => "UserMapping"@,
            ExtensionSymbol::ClientAuthz => "ClientAuthz"@,
            ExtensionSymbol::ServerAuthz => "ServerAuthz"@,
            ExtensionSymbol::CertType => "CertType"@,
            ExtensionSymbol::SupportedGroups => "SupportedGroups"@,
            ExtensionSymbol::EcPointFormats => "EcPointFormats"@,
            ExtensionSymbol::Srp => "Srp"@,
            ExtensionSymbol::SignatureAlgorithms => "SignatureAlgorithms"@,
            ExtensionSymbol::UseSrtp => "UseSrtp"@,
            ExtensionSymbol::Heartbeat => "Heartbeat"@,
            ExtensionSymbol::ApplicationLayerProtocolNegotiation => "ApplicationLayerProtocolNegotiation"@,
            ExtensionSymbol::StatusRequestv2 => "StatusRequestv2"@,
            ExtensionSymbol::SignedCertificateTimestamp => "SignedCertificateTimestamp"@,
            ExtensionSymbol::ClientCertificateType => "ClientCertificateType"@,
            ExtensionSymbol::ServerCertificateType => "ServerCertificateType"@,
            ExtensionSymbol::Padding => "Padding"@,
            ExtensionSymbol::EncryptThenMac => "EncryptThenMac"@,
            ExtensionSymbol::ExtendedMasterSecret => "ExtendedMasterSecret"@,
            ExtensionSymbol::TokenBinding => "TokenBinding"@,
            ExtensionSymbol::CachedInfo => "CachedInfo"@,
            ExtensionSymbol::RecordSizeLimit => "RecordSizeLimit"@,
            ExtensionSymbol::SessionTicketTLS => "SessionTicketTLS"@,
            ExtensionSymbol::KeyShareOld => "KeyShareOld"@,
            ExtensionSymbol::PreSharedKey => "PreSharedKey"@,
            ExtensionSymbol::EarlyData => "EarlyData"@,
            ExtensionSymbol::SupportedVersions => "SupportedVersions"@,
            ExtensionSymbol::Cookie => "Cookie"@,
            ExtensionSymbol::PskExchangeModes => "PskExchangeModes"@,
            ExtensionSymbol::TicketEarlyDataInfo => "TicketEarlyDataInfo"@,
            ExtensionSymbol::CertificateAuthorities => "CertificateAuthorities"@,
            ExtensionSymbol::OidFilters => "OidFilters"@,
            ExtensionSymbol::PostHandshakeAuth => "PostHandshakeAuth"@,
            ExtensionSymbol::SigAlgorithmsCert => "SigAlgorithmsCert"@,
            ExtensionSymbol::KeyShare => "KeyShare"@,
            ExtensionSymbol::NextProtocolNegotiation => "NextProtocolNegotiation"@,
            ExtensionSymbol::Grease => "Grease"@,
            ExtensionSymbol::RenegotiationInfo => "RenegotiationInfo"@,
            ExtensionSymbol::EncryptedServerName => "EncryptedServerName"@,
        }
    }

    /// The name as the registry spells it.
    pub fn name(self) -> (r: &'static str)
        ensures
            r@ == self.spec_name(),
    {
        match self {
            ExtensionSymbol::ServerName => "ServerName",
            ExtensionSymbol::MaxFragmentLength => "MaxFragmentLength",
            ExtensionSymbol::ClientCertificate => "ClientCertificate",
            ExtensionSymbol::TrustedCaKeys => "TrustedCaKeys",
            ExtensionSymbol::TruncatedHMac => "TruncatedHMac",
            ExtensionSymbol::StatusRequest => "StatusRequest",
            ExtensionSymbol::UserMapping => "UserMapping",
            ExtensionSymbol::ClientAuthz => "ClientAuthz",
            ExtensionSymbol::ServerAuthz => "ServerAuthz",
            ExtensionSymbol::CertType => "CertType",
            ExtensionSymbol::SupportedGroups => "SupportedGroups",
            ExtensionSymbol::EcPointFormats => "EcPointFormats",
            ExtensionSymbol::Srp => "Srp",
            ExtensionSymbol::SignatureAlgorithms => "SignatureAlgorithms",
            ExtensionSymbol::UseSrtp => "UseSrtp",
            ExtensionSymbol::Heartbeat => "Heartbeat",
            ExtensionSymbol::ApplicationLayerProtocolNegotiation => "ApplicationLayerProtocolNegotiation",
            ExtensionSymbol::StatusRequestv2 => "StatusRequestv2",
            ExtensionSymbol::SignedCertificateTimestamp => "SignedCertificateTimestamp",
            ExtensionSymbol::ClientCertificateType => "ClientCertificateType",
            ExtensionSymbol::ServerCertificateType => "ServerCertificateType",
            ExtensionSymbol::Padding => "Padding",
            ExtensionSymbol::EncryptThenMac => "EncryptThenMac",
            ExtensionSymbol::ExtendedMasterSecret => "ExtendedMasterSecret",
            ExtensionSymbol::TokenBinding => "TokenBinding",
            ExtensionSymbol::CachedInfo => "CachedInfo",
            ExtensionSymbol::RecordSizeLimit => "RecordSizeLimit",
            ExtensionSymbol::SessionTicketTLS => "SessionTicketTLS",
            ExtensionSymbol::KeyShareOld => "KeyShareOld",
            ExtensionSymbol::PreSharedKey => "PreSharedKey",
            ExtensionSymbol::EarlyData => "EarlyData",
            ExtensionSymbol::SupportedVersions => "SupportedVersions",
            ExtensionSymbol::Cookie => "Cookie",
            ExtensionSymbol::PskExchangeModes => "PskExchangeModes",
            ExtensionSymbol::TicketEarlyDataInfo => "TicketEarlyDataInfo",
            ExtensionSymbol::CertificateAuthorities => "CertificateAuthorities",
            ExtensionSymbol::OidFilters => "OidFilters",
            ExtensionSymbol::PostHandshakeAuth => "PostHandshakeAuth",
            ExtensionSymbol::SigAlgorithmsCert => "SigAlgorithmsCert",
            ExtensionSymbol::KeyShare => "KeyShare",
            ExtensionSymbol::NextProtocolNegotiation => "NextProtocolNegotiation",
            ExtensionSymbol::Grease => "Grease",
            ExtensionSymbol::RenegotiationInfo => "RenegotiationInfo",
            ExtensionSymbol::EncryptedServerName => "EncryptedServerName",
        }
    }
}

impl TlsExtensionType {
    /// The registry's name for a code, where it has one.
    pub open spec fn spec_symbol_of(code: u16) -> Option<ExtensionSymbol> {
        match code {
            0x0000 => Some(ExtensionSymbol::ServerName),
            0x0001 => Some(ExtensionSymbol::MaxFragmentLength),
            0x0002 => Some(ExtensionSymbol::ClientCertificate),
            0x0003 => Some(ExtensionSymbol::TrustedCaKeys),
            0x0004 => Some(ExtensionSymbol::TruncatedHMac),
            0x0005 => Some(ExtensionSymbol::StatusRequest),
            0x0006 => Some(ExtensionSymbol::UserMapping),
            0x0007 => Some(ExtensionSymbol::ClientAuthz),
            0x0008 => Some(ExtensionSymbol::ServerAuthz),
            0x0009 => Some(ExtensionSymbol::CertType),
            0x000a => Some(ExtensionSymbol::SupportedGroups),
            0x000b => Some(ExtensionSymbol::EcPointFormats),
            0x000c => Some(ExtensionSymbol::Srp),
            0x000d => Some(ExtensionSymbol::SignatureAlgorithms),
            0x000e => Some(ExtensionSymbol::UseSrtp),
            0x000f => Some(ExtensionSymbol::Heartbeat),
            0x0010 => Some(ExtensionSymbol::ApplicationLayerProtocolNegotiation),
            0x0011 => Some(ExtensionSymbol::StatusRequestv2),
            0x0012 => Some(ExtensionSymbol::SignedCertificateTimestamp),
            0x0013 => Some(ExtensionSymbol::ClientCertificateType),
            0x0014 => Some(ExtensionSymbol::ServerCertificateType),
            0x0015 => Some(ExtensionSymbol::Padding),
            0x0016 => Some(ExtensionSymbol::EncryptThenMac),
            0x0017 => Some(ExtensionSymbol::ExtendedMasterSecret),
            0x0018 => Some(ExtensionSymbol::TokenBinding),
            0x0019 => Some(ExtensionSymbol::CachedInfo),
            0x001c => Some(ExtensionSymbol::RecordSizeLimit),
            0x0023 => Some(ExtensionSymbol::SessionTicketTLS),
            0x0028 => Some(ExtensionSymbol::KeyShareOld),
            0x0029 => Some(ExtensionSymbol::PreSharedKey),
            0x002a => Some(ExtensionSymbol::EarlyData),
            0x002b => Some(ExtensionSymbol::SupportedVersions),
            0x002c => Some(ExtensionSymbol::Cookie),
            0x002d => Some(ExtensionSymbol::PskExchangeModes),
            0x002e => Some(ExtensionSymbol::TicketEarlyDataInfo),
            0x002f => Some(ExtensionSymbol::CertificateAuthorities),
            0x0030 => Some(ExtensionSymbol::OidFilters),
            0x0031 => Some(ExtensionSymbol::PostHandshakeAuth),
            0x0032 => Some(ExtensionSymbol::SigAlgorithmsCert),
            0x0033 => Some(ExtensionSymbol::KeyShare),
            0x3374 => Some(ExtensionSymbol::NextProtocolNegotiation),
            0xfafa => Some(ExtensionSymbol::Grease),
            0xff01 => Some(ExtensionSymbol::RenegotiationInfo),
            0xffce => Some(ExtensionSymbol::EncryptedServerName),
            _ => None,
        }
    }

    /// Whether a code is one of the values that clients send to test their
    /// peers' tolerance of unknown extensions.
    pub open spec fn spec_is_grease(code: u16) -> bool {
        code & 0x0f0f == 0x0a0a
    }

    /// The type with the code `t`.
    pub fn from_u16(t: u16) -> (r: TlsExtensionType)
        ensures
            r == TlsExtensionType(t),
    {
        TlsExtensionType(t)
    }

    /// The type that a name of the registry stands for.
    pub fn from_symbol(s: ExtensionSymbol) -> (r: TlsExtensionType)
        ensures
            r == TlsExtensionType(s.spec_code()),
            TlsExtensionType::spec_symbol_of(r.0) == Some(s),
    {
        TlsExtensionType(s.code())
    }

    /// The registry's name for this type; `None` for a code that it does
    /// not name, which then stands for itself.
    pub fn symbol(&self) -> (r: Option<ExtensionSymbol>)
        ensures
            r == TlsExtensionType::spec_symbol_of(self.0),
            r matches Some(s) ==> s.spec_code() == self.0,
    {
        match self.0 {
            0x0000 => Some(ExtensionSymbol::ServerName),
            0x0001 => Some(ExtensionSymbol::MaxFragmentLength),
            0x0002 => Some(ExtensionSymbol::ClientCertificate),
            0x0003 => Some(ExtensionSymbol::TrustedCaKeys),
            0x0004 => Some(ExtensionSymbol::TruncatedHMac),
            0x0005 => Some(ExtensionSymbol::StatusRequest),
            0x0006 => Some(ExtensionSymbol::UserMapping),
            0x0007 => Some(ExtensionSymbol::ClientAuthz),
            0x0008 => Some(ExtensionSymbol::ServerAuthz),
            0x0009 => Some(ExtensionSymbol::CertType),
            0x000a => Some(ExtensionSymbol::SupportedGroups),
            0x000b => Some(ExtensionSymbol::EcPointFormats),
            0x000c => Some(ExtensionSymbol::Srp),
            0x000d => Some(ExtensionSymbol::SignatureAlgorithms),
            0x000e => Some(ExtensionSymbol::UseSrtp),
            0x000f => Some(ExtensionSymbol::Heartbeat),
            0x0010 => Some(ExtensionSymbol::ApplicationLayerProtocolNegotiation),
            0x0011 => Some(ExtensionSymbol::StatusRequestv2),
            0x0012 => Some(ExtensionSymbol::SignedCertificateTimestamp),
            0x0013 => Some(ExtensionSymbol::ClientCertificateType),
            0x0014 => Some(ExtensionSymbol::ServerCertificateType),
            0x0015 => Some(ExtensionSymbol::Padding),
            0x0016 => Some(ExtensionSymbol::EncryptThenMac),
            0x0017 => Some(ExtensionSymbol::ExtendedMasterSecret),
            0x0018 => Some(ExtensionSymbol::TokenBinding),
            0x0019 => Some(ExtensionSymbol::CachedInfo),
            0x001c => Some(ExtensionSymbol::RecordSizeLimit),
            0x0023 => Some(ExtensionSymbol::SessionTicketTLS),
            0x0028 => Some(ExtensionSymbol::KeyShareOld),
            0x0029 => Some(ExtensionSymbol::PreSharedKey),
            0x002a => Some(ExtensionSymbol::EarlyData),
            0x002b => Some(ExtensionSymbol::SupportedVersions),
            0x002c => Some(ExtensionSymbol::Cookie),
            0x002d => Some(ExtensionSymbol::PskExchangeModes),
            0x002e => Some(ExtensionSymbol::TicketEarlyDataInfo),
            0x002f => Some(ExtensionSymbol::CertificateAuthorities),
            0x0030 => Some(ExtensionSymbol::OidFilters),
            0x0031 => Some(ExtensionSymbol::PostHandshakeAuth),
            0x0032 => Some(ExtensionSymbol::SigAlgorithmsCert),
            0x0033 => Some(ExtensionSymbol::KeyShare),
            0x3374 => Some(ExtensionSymbol::NextProtocolNegotiation),
            0xfafa => Some(ExtensionSymbol::Grease),
            0xff01 => Some(ExtensionSymbol::RenegotiationInfo),
            0xffce => Some(ExtensionSymbol::EncryptedServerName),
            _ => None,
        }
    }

    /// Decodes a type code: a big-endian 16-bit number.
    pub fn parse<'a>(i: &'a [u8]) -> (r: Result<(&'a [u8], TlsExtensionType), ParseError>)
        ensures
            match r {
                Ok((rest, t)) => spec_be_u16(i@) == Ok::<_, ParseError>((rest@, t.0)),
                Err(e) => spec_be_u16(i@) == Err::<(Seq<u8>, u16), _>(e),
            },
    {
        match be_u16(i) {
            Err(e) => Err(e),
            Ok((rest, v)) => Ok((rest, TlsExtensionType(v))),
        }
    }

    /// Whether the code has the GREASE pattern.
    pub fn is_grease(&self) -> (r: bool)
        ensures
            r == TlsExtensionType::spec_is_grease(self.0),
    {
        self.0 & 0x0f0f == 0x0a0a
    }
}

impl From<TlsExtensionType> for u16 {
    fn from(ext: TlsExtensionType) -> (r: u16) {
        ext.0
    }
}

impl vstd::std_specs::convert::FromSpecImpl<TlsExtensionType> for u16 {
    open spec fn obeys_from_spec() -> bool {
        true
    }

    open spec fn from_spec(ext: TlsExtensionType) -> u16 {
        ext.0
    }
}

/// Every code that the registry names is the code of its name: going from a
/// registered code to its name and back loses nothing.
pub proof fn lemma_registered_code_round_trip(c: u16)
    requires
        TlsExtensionType::spec_symbol_of(c).is_some(),
    ensures
        TlsExtensionType::spec_symbol_of(c).unwrap().spec_code() == c,
        u16::from_spec(TlsExtensionType(c)) == c,
{
}

/// Every name has a code of its own: the name of a name's code is that name,
/// so no two names share a code.
pub proof fn lemma_symbol_round_trip(s: ExtensionSymbol)
    ensures
        TlsExtensionType::spec_symbol_of(s.spec_code()) == Some(s),
{
}

/// Wrapping a numeral as a type and reading the numeral back gives the same
/// numeral, whether or not the registry names it.
pub proof fn lemma_numeral_round_trip(c: u16)
    ensures
        u16::from_spec(TlsExtensionType(c)) == c,
{
}

/// The kind of a name in a server name list.
#[derive(Clone, Copy, Debug, PartialEq, Eq, Structural)]
pub struct SNIType(pub u8);

impl SNIType {
    /// Decodes the one byte that holds the value.
    pub fn parse<'a>(i: &'a [u8]) -> (r: Result<(&'a [u8], SNIType), ParseError>)
        ensures
            match r {
                Ok((rest, t)) => spec_be_u8(i@) == Ok::<_, ParseError>((rest@, t.0)),
                Err(e) => spec_be_u8(i@) == Err::<(Seq<u8>, u8), _>(e),
            },
    {
        match be_u8(i) {
            Err(e) => Err(e),
            Ok((rest, v)) => Ok((rest, SNIType(v))),
        }
    }

    /// A DNS host name.
    pub const HOST_NAME: u8 = 0;

    /// Whether the name is a DNS host name, the one kind in use.
    pub fn is_host_name(&self) -> (r: bool)
        ensures
            r == (self.0 == 0),
    {
        self.0 == 0
    }
}

/// How a pre-shared key may be combined with a key exchange.
#[derive(Clone, Copy, Debug, PartialEq, Eq, Structural)]
pub struct PskKeyExchangeMode(pub u8);

impl PskKeyExchangeMode {
    /// Decodes the one byte that holds the value.
    pub fn parse<'a>(i: &'a [u8]) -> (r: Result<(&'a [u8], PskKeyExchangeMode), ParseError>)
        ensures
            match r {
                Ok((rest, t)) => spec_be_u8(i@) == Ok::<_, ParseError>((rest@, t.0)),
                Err(e) => spec_be_u8(i@) == Err::<(Seq<u8>, u8), _>(e),
            },
    {
        match be_u8(i) {
            Err(e) => Err(e),
            Ok((rest, v)) => Ok((rest, PskKeyExchangeMode(v))),
        }
    }

    /// The pre-shared key alone.
    pub const PSK: u8 = 0;

    /// The pre-shared key with a Diffie-Hellman exchange.
    pub const PSK_DHE: u8 = 1;
}

/// The kind of certificate status that a client asks for.
#[derive(Clone, Copy, Debug, PartialEq, Eq, Structural)]
pub struct CertificateStatusType(pub u8);

impl CertificateStatusType {
    /// Decodes the one byte that holds the value.
    pub fn parse<'a>(i: &'a [u8]) -> (r: Result<(&'a [u8], CertificateStatusType), ParseError>)
        ensures
            match r {
                Ok((rest, t)) => spec_be_u8(i@) == Ok::<_, ParseError>((rest@, t.0)),
                Err(e) => spec_be_u8(i@) == Err::<(Seq<u8>, u8), _>(e),
            },
    {
        match be_u8(i) {
            Err(e) => Err(e),
            Ok((rest, v)) => Ok((rest, CertificateStatusType(v))),
        }
    }

    /// The Online Certificate Status Protocol.
    pub const OCSP: u8 = 1;
}

} // verus!
