pub mod cert;
pub mod error;
pub mod extension;
pub mod header;
pub mod http2;
pub mod profile;
pub mod tls;

pub use cert::{installed, RootCertStore, TrustAction};
pub use error::{ConfigurationError, Error};
pub use extension::{extension_permutation, ExtensionType, CATALOG, CATALOG_SIZE, UNRESOLVED};
pub use header::{sort_headers, Header};
pub use http2::{
    check_pseudo_order, encode_settings, Http2Settings, Http2SettingsBuilder, Priority,
    PseudoOrder, Setting, SettingsOrder, StreamDependency, StreamId,
};
pub use profile::{ImpersonateSettings, ImpersonateSettingsBuilder};
pub use tls::{
    join, AlpnProtos, AlpsProtos, CertCompressionAlgorithm, SslCurve, TlsSettings,
    TlsSettingsBuilder, TlsVersion,
};
