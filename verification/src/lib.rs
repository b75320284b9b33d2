//! A decoder for the extensions of TLS handshake messages.
//!
//! The decoders take a byte range and give a decoded value with the bytes
//! that remain, or say that the input is incomplete or breaks the grammar.
//! Each decoder's contract states its outcome by a specification function
//! over byte sequences.
pub mod error;
pub mod bytes;
pub mod registry;
pub mod tls;
pub mod tls_ec;
pub mod model;
pub mod lists;
pub mod content;
pub mod dispatch;
pub mod laws;

pub use crate::dispatch::{parse_tls_extension, parse_tls_extensions};
pub use crate::error::{ErrorKind, Needed, ParseError};
pub use crate::model::{KeyShareEntry, OidFilter, TlsExtension};
pub use crate::registry::{
    CertificateStatusType, ExtensionSymbol, PskKeyExchangeMode, SNIType, TlsExtensionType,
};
pub use crate::tls::{TlsCipherSuiteID, TlsVersion};
pub use crate::tls_ec::NamedGroup;
