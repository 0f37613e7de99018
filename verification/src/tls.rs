use vstd::prelude::*;
use vstd::string::StringExecFns;
use crate::error::ConfigurationError;
use crate::extension::{extension_permutation, permutation_of, ExtensionType, CATALOG_SIZE};

verus! {

/// The text that `names` make when written one after another with
/// `separator` between each two neighbours.
pub open spec fn joined(separator: Seq<char>, names: Seq<Seq<char>>) -> Seq<char>
    decreases names.len(),
{
    if names.len() == 0 {
        Seq::empty()
    } else if names.len() == 1 {
        names[0]
    } else {
        joined(separator, names.drop_last()) + separator + names.last()
    }
}

/// The texts of a list of string slices.
pub open spec fn texts(names: Seq<&str>) -> Seq<Seq<char>> {
    names.map_values(|name: &str| name@)
}

/// Joins `names` in the order given, with `separator` between neighbours.
/// A list without names is refused.
pub fn join(separator: &str, names: &[&str]) -> (r: Result<String, ConfigurationError>)
    ensures
        names@.len() == 0 <==> r is Err,
        r matches Err(e) ==> e == ConfigurationError::EmptyList,
        r matches Ok(list) ==> list@ == joined(separator@, texts(names@)),
{
    if names.len() == 0 {
        return Err(ConfigurationError::EmptyList);
    }
    let mut list = String::from_str(names[0]);
    assert(texts(names@).take(1) =~= seq![names@[0]@]);
    let mut i: usize = 1;
    while i < names.len()
        invariant
            1 <= i <= names@.len(),
            list@ == joined(separator@, texts(names@).take(i as int)),
        decreases names@.len() - i,
    {
        list.append(separator);
        list.append(names[i]);
        proof {
            let upto = texts(names@).take(i + 1);
            assert(upto.drop_last() =~= texts(names@).take(i as int));
            assert(upto.last() == names@[i as int]@);
        }
        i += 1;
    }
    assert(texts(names@).take(i as int) =~= texts(names@));
    Ok(list)
}

/// Joining keeps the order of the names: a list joined in two parts, the
/// parts then put together with the separator, is the list joined at once.
pub proof fn joining_in_parts(separator: Seq<char>, front: Seq<Seq<char>>, back: Seq<Seq<char>>)
    requires
        front.len() > 0,
        back.len() > 0,
    ensures
        joined(separator, front + back) == joined(separator, front) + separator + joined(
            separator,
            back,
        ),
    decreases back.len(),
{
    let whole = front + back;
    assert(whole.drop_last() =~= front + back.drop_last());
    assert(whole.last() == back.last());
    if back.len() == 1 {
        assert(front + back.drop_last() =~= front);
    } else {
        joining_in_parts(separator, front, back.drop_last());
        assert(joined(separator, whole) =~= joined(separator, front) + separator + joined(
            separator,
            back,
        ));
    }
}

/// A TLS protocol version.
#[allow(non_camel_case_types)]
#[derive(Clone, Copy, Debug, PartialEq, Eq, Structural)]
pub enum TlsVersion {
    TLS_1_0,
    TLS_1_1,
    TLS_1_2,
    TLS_1_3,
}

impl TlsVersion {
    /// The version as the protocol writes it; a later version has a greater number.
    pub open spec fn number(self) -> u16 {
        match self {
            TlsVersion::TLS_1_0 => 0x0301,
            TlsVersion::TLS_1_1 => 0x0302,
            TlsVersion::TLS_1_2 => 0x0303,
            TlsVersion::TLS_1_3 => 0x0304,
        }
    }

    /// The version as the protocol writes it.
    pub fn wire(self) -> (n: u16)
        ensures
            n == self.number(),
    {
        match self {
            TlsVersion::TLS_1_0 => 0x0301,
            TlsVersion::TLS_1_1 => 0x0302,
            TlsVersion::TLS_1_2 => 0x0303,
            TlsVersion::TLS_1_3 => 0x0304,
        }
    }
}

/// The key-exchange groups the engine knows.
#[allow(non_camel_case_types)]
#[derive(Clone, Copy, Debug, PartialEq, Eq, Structural)]
pub enum SslCurve {
    SECP224R1,
    SECP256R1,
    SECP384R1,
    SECP521R1,
    X25519,
    FFDHE2048,
    FFDHE3072,
    X25519_MLKEM768,
    X25519_KYBER768_DRAFT00,
    X25519_KYBER768_DRAFT00_OLD,
    X25519_KYBER512_DRAFT00,
    P256_KYBER768_DRAFT00,
}

/// The certificate compression algorithms the engine knows.
#[derive(Clone, Copy, Debug, PartialEq, Eq, Structural)]
pub enum CertCompressionAlgorithm {
    Brotli,
    Zlib,
    Zstd,
}

/// The protocol name `h2`.
pub const H2: [u8; 2] = [0x68, 0x32];

/// The protocol name `http/1.1`.
pub const HTTP_1_1: [u8; 8] = [0x68, 0x74, 0x74, 0x70, 0x2f, 0x31, 0x2e, 0x31];

/// The application protocols offered: the newer one first where both are.
pub open spec fn protocol_names(http1: bool, http2: bool) -> Seq<Seq<u8>> {
    let newer = if http2 { seq![H2@] } else { Seq::empty() };
    let older = if http1 { seq![HTTP_1_1@] } else { Seq::empty() };
    newer + older
}

/// A name behind one byte that holds its length.
pub open spec fn length_prefixed(name: Seq<u8>) -> Seq<u8> {
    seq![name.len() as u8] + name
}

/// A list of names, each behind its length, one after another.
pub open spec fn wire_list(names: Seq<Seq<u8>>) -> Seq<u8>
    decreases names.len(),
{
    if names.len() == 0 {
        Seq::empty()
    } else {
        wire_list(names.drop_last()) + length_prefixed(names.last())
    }
}

/// Writes `name` behind its length at the end of `out`.
fn push_prefixed(out: &mut Vec<u8>, name: &[u8])
    requires
        name@.len() <= u8::MAX,
    ensures
        final(out)@ == old(out)@ + length_prefixed(name@),
{
    out.push(name.len() as u8);
    let mut i: usize = 0;
    while i < name.len()
        invariant
            i <= name@.len(),
            out@ == old(out)@ + seq![name@.len() as u8] + name@.take(i as int),
        decreases name@.len() - i,
    {
        out.push(name[i]);
        assert(name@.take(i + 1) =~= name@.take(i as int).push(name@[i as int]));
        i += 1;
    }
    assert(name@.take(i as int) =~= name@);
}

/// Which application protocols the ClientHello offers.
#[derive(Clone, Copy, Debug, PartialEq, Eq, Structural)]
pub enum AlpnProtos {
    /// `http/1.1` alone.
    Http1,
    /// `h2` alone.
    Http2,
    /// `h2`, then `http/1.1`.
    All,
}

impl AlpnProtos {
    /// The names offered, most preferred first.
    pub open spec fn names(self) -> Seq<Seq<u8>> {
        protocol_names(self != AlpnProtos::Http2, self != AlpnProtos::Http1)
    }

    /// The offer as the engine takes it: each name behind its length.
    pub fn wire(self) -> (bytes: Vec<u8>)
        ensures
            bytes@ == wire_list(self.names()),
    {
        let mut bytes: Vec<u8> = Vec::new();
        proof {
            reveal_with_fuel(wire_list, 3);
        }
        match self {
            AlpnProtos::Http1 => {
                push_prefixed(&mut bytes, &HTTP_1_1);
                assert(self.names() =~= seq![HTTP_1_1@]);
            },
            AlpnProtos::Http2 => {
                push_prefixed(&mut bytes, &H2);
                assert(self.names() =~= seq![H2@]);
            },
            AlpnProtos::All => {
                push_prefixed(&mut bytes, &H2);
                push_prefixed(&mut bytes, &HTTP_1_1);
                assert(self.names() =~= seq![H2@, HTTP_1_1@]);
                assert(self.names().drop_last() =~= seq![H2@]);
            },
        }
        bytes
    }
}

/// For which application protocols early settings are exchanged.
#[derive(Clone, Copy, Debug, PartialEq, Eq, Structural)]
pub enum AlpsProtos {
    /// `http/1.1` alone.
    Http1,
    /// `h2` alone.
    Http2,
    /// `h2`, then `http/1.1`.
    All,
}

impl AlpsProtos {
    /// The names settings are exchanged for, most preferred first.
    pub open spec fn names(self) -> Seq<Seq<u8>> {
        protocol_names(self != AlpsProtos::Http2, self != AlpsProtos::Http1)
    }

    /// The names settings are exchanged for, most preferred first.
    pub fn protocols(self) -> (list: Vec<Vec<u8>>)
        ensures
            list@.len() == self.names().len(),
            forall|i: int| 0 <= i < list@.len() ==> list@[i]@ == self.names()[i],
    {
        let mut list: Vec<Vec<u8>> = Vec::new();
        if self != AlpsProtos::Http1 {
            list.push(vec![0x68, 0x32]);
        }
        if self != AlpsProtos::Http2 {
            list.push(vec![0x68, 0x74, 0x74, 0x70, 0x2f, 0x31, 0x2e, 0x31]);
        }
        list
    }
}


/// The lowest accepted version does not lie above the highest. A bound that
/// is not set constrains nothing.
pub open spec fn versions_in_order(min: Option<TlsVersion>, max: Option<TlsVersion>) -> bool {
    match (min, max) {
        (Some(low), Some(high)) => low.number() <= high.number(),
        _ => true,
    }
}

/// The items of a list that may be unset.
pub open spec fn items_of<T>(list: Option<Vec<T>>) -> Option<Seq<T>> {
    match list {
        Some(items) => Some(items@),
        None => None,
    }
}

/// The characters of a text that may be unset.
pub open spec fn text_of(text: Option<String>) -> Option<Seq<char>> {
    match text {
        Some(t) => Some(t@),
        None => None,
    }
}

/// The slots of a permutation array that may be unset.
pub open spec fn slots_of(array: Option<[u8; 26]>) -> Option<Seq<u8>> {
    match array {
        Some(a) => Some(a@),
        None => None,
    }
}

/// What a set of TLS preferences says, as plain mathematical values.
pub struct TlsPreferences {
    /// Key-exchange groups, most preferred first.
    pub curves: Option<Seq<SslCurve>>,
    /// Cipher names, joined by colons, most preferred first.
    pub cipher_list: Option<Seq<char>>,
    /// Signature algorithm names, joined by colons.
    pub sigalgs_list: Option<Seq<char>>,
    /// Signature algorithm names for delegated credentials, joined by colons.
    pub delegated_credentials: Option<Seq<char>>,
    /// Certificate compression algorithms, most preferred first.
    pub cert_compression_algorithm: Option<Seq<CertCompressionAlgorithm>>,
    /// Record size limit, as any 16-bit value.
    pub record_size_limit: Option<u16>,
    /// Application protocols offered.
    pub alpn_protos: AlpnProtos,
    /// Application protocols for which early settings are exchanged.
    pub alps_protos: Option<AlpsProtos>,
    /// Whether a pre-shared key is offered.
    pub pre_shared_key: bool,
    /// Whether a GREASE encrypted ClientHello is sent.
    pub enable_ech_grease: bool,
    /// Lowest accepted protocol version.
    pub min_tls_version: Option<TlsVersion>,
    /// Highest accepted protocol version.
    pub max_tls_version: Option<TlsVersion>,
    /// The extension permutation array.
    pub extension_permutation_indices: Option<Seq<u8>>,
}

/// The preferences nobody has touched yet: both protocols offered, nothing else set.
pub open spec fn untouched_preferences() -> TlsPreferences {
    TlsPreferences {
        curves: None,
        cipher_list: None,
        sigalgs_list: None,
        delegated_credentials: None,
        cert_compression_algorithm: None,
        record_size_limit: None,
        alpn_protos: AlpnProtos::All,
        alps_protos: None,
        pre_shared_key: false,
        enable_ech_grease: false,
        min_tls_version: None,
        max_tls_version: None,
        extension_permutation_indices: None,
    }
}

/// TLS preferences while they are still being collected.
#[derive(Debug)]
pub struct TlsSettingsBuilder {
    curves: Option<Vec<SslCurve>>,
    cipher_list: Option<String>,
    sigalgs_list: Option<String>,
    delegated_credentials: Option<String>,
    cert_compression_algorithm: Option<Vec<CertCompressionAlgorithm>>,
    record_size_limit: Option<u16>,
    alpn_protos: AlpnProtos,
    alps_protos: Option<AlpsProtos>,
    pre_shared_key: bool,
    enable_ech_grease: bool,
    min_tls_version: Option<TlsVersion>,
    max_tls_version: Option<TlsVersion>,
    extension_permutation_indices: Option<[u8; 26]>,
}

impl View for TlsSettingsBuilder {
    type V = TlsPreferences;

    closed spec fn view(&self) -> TlsPreferences {
        TlsPreferences {
            curves: items_of(self.curves),
            cipher_list: text_of(self.cipher_list),
            sigalgs_list: text_of(self.sigalgs_list),
            delegated_credentials: text_of(self.delegated_credentials),
            cert_compression_algorithm: items_of(self.cert_compression_algorithm),
            record_size_limit: self.record_size_limit,
            alpn_protos: self.alpn_protos,
            alps_protos: self.alps_protos,
            pre_shared_key: self.pre_shared_key,
            enable_ech_grease: self.enable_ech_grease,
            min_tls_version: self.min_tls_version,
            max_tls_version: self.max_tls_version,
            extension_permutation_indices: slots_of(self.extension_permutation_indices),
        }
    }
}

impl TlsSettingsBuilder {
    /// Sets the key-exchange groups, most preferred first.
    pub fn curves(self, curves: Vec<SslCurve>) -> (b: Self)
        ensures
            b@ == (TlsPreferences { curves: Some(curves@), ..self@ }),
    {
        TlsSettingsBuilder { curves: Some(curves), ..self }
    }

    /// Sets the cipher list: names joined by colons, most preferred first.
    pub fn cipher_list(self, list: String) -> (b: Self)
        ensures
            b@ == (TlsPreferences { cipher_list: Some(list@), ..self@ }),
    {
        TlsSettingsBuilder { cipher_list: Some(list), ..self }
    }

    /// Sets the signature algorithms: names joined by colons.
    pub fn sigalgs_list(self, list: String) -> (b: Self)
        ensures
            b@ == (TlsPreferences { sigalgs_list: Some(list@), ..self@ }),
    {
        TlsSettingsBuilder { sigalgs_list: Some(list), ..self }
    }

    /// Sets the signature algorithms for delegated credentials: names joined by colons.
    pub fn delegated_credentials(self, list: String) -> (b: Self)
        ensures
            b@ == (TlsPreferences { delegated_credentials: Some(list@), ..self@ }),
    {
        TlsSettingsBuilder { delegated_credentials: Some(list), ..self }
    }

    /// Sets the certificate compression algorithms, most preferred first.
    pub fn cert_compression_algorithm(self, algorithms: Vec<CertCompressionAlgorithm>) -> (b: Self)
        ensures
            b@ == (TlsPreferences { cert_compression_algorithm: Some(algorithms@), ..self@ }),
    {
        TlsSettingsBuilder { cert_compression_algorithm: Some(algorithms), ..self }
    }

    /// Sets the record size limit. Every 16-bit value is taken as it is.
    pub fn record_size_limit(self, limit: u16) -> (b: Self)
        ensures
            b@ == (TlsPreferences { record_size_limit: Some(limit), ..self@ }),
    {
        TlsSettingsBuilder { record_size_limit: Some(limit), ..self }
    }

    /// Sets the application protocols offered.
    pub fn alpn_protos(self, protos: AlpnProtos) -> (b: Self)
        ensures
            b@ == (TlsPreferences { alpn_protos: protos, ..self@ }),
    {
        TlsSettingsBuilder { alpn_protos: protos, ..self }
    }

    /// Sets the application protocols for which early settings are exchanged.
    pub fn alps_protos(self, protos: AlpsProtos) -> (b: Self)
        ensures
            b@ == (TlsPreferences { alps_protos: Some(protos), ..self@ }),
    {
        TlsSettingsBuilder { alps_protos: Some(protos), ..self }
    }

    /// Sets whether a pre-shared key is offered.
    pub fn pre_shared_key(self, enabled: bool) -> (b: Self)
        ensures
            b@ == (TlsPreferences { pre_shared_key: enabled, ..self@ }),
    {
        TlsSettingsBuilder { pre_shared_key: enabled, ..self }
    }

    /// Sets whether a GREASE encrypted ClientHello is sent.
    pub fn enable_ech_grease(self, enabled: bool) -> (b: Self)
        ensures
            b@ == (TlsPreferences { enable_ech_grease: enabled, ..self@ }),
    {
        TlsSettingsBuilder { enable_ech_grease: enabled, ..self }
    }

    /// Sets the lowest accepted protocol version.
    pub fn min_tls_version(self, version: TlsVersion) -> (b: Self)
        ensures
            b@ == (TlsPreferences { min_tls_version: Some(version), ..self@ }),
    {
        TlsSettingsBuilder { min_tls_version: Some(version), ..self }
    }

    /// Sets the highest accepted protocol version.
    pub fn max_tls_version(self, version: TlsVersion) -> (b: Self)
        ensures
            b@ == (TlsPreferences { max_tls_version: Some(version), ..self@ }),
    {
        TlsSettingsBuilder { max_tls_version: Some(version), ..self }
    }

    /// Sets the extension permutation array as it stands.
    pub fn extension_permutation_indices(self, indices: [u8; 26]) -> (b: Self)
        ensures
            b@ == (TlsPreferences { extension_permutation_indices: Some(indices@), ..self@ }),
    {
        TlsSettingsBuilder { extension_permutation_indices: Some(indices), ..self }
    }

    /// Sets the extension permutation array to the one that `order` asks for.
    pub fn extension_order(self, order: &[ExtensionType]) -> (b: Self)
        ensures
            b@ == (TlsPreferences {
                extension_permutation_indices: Some(permutation_of(order@)),
                ..self@
            }),
    {
        let indices = extension_permutation(order);
        TlsSettingsBuilder { extension_permutation_indices: Some(indices), ..self }
    }

    /// Freezes the preferences. They are refused where the lowest accepted
    /// version lies above the highest, and in no other case.
    pub fn build(self) -> (r: Result<TlsSettings, ConfigurationError>)
        ensures
            versions_in_order(self@.min_tls_version, self@.max_tls_version) <==> r is Ok,
            r matches Err(e) ==> e == ConfigurationError::MinExceedsMax,
            r matches Ok(settings) ==> settings@ == self@,
    {
        let in_order = match (self.min_tls_version, self.max_tls_version) {
            (Some(low), Some(high)) => low.wire() <= high.wire(),
            _ => true,
        };
        if !in_order {
            return Err(ConfigurationError::MinExceedsMax);
        }
        Ok(
            TlsSettings {
                curves: self.curves,
                cipher_list: self.cipher_list,
                sigalgs_list: self.sigalgs_list,
                delegated_credentials: self.delegated_credentials,
                cert_compression_algorithm: self.cert_compression_algorithm,
                record_size_limit: self.record_size_limit,
                alpn_protos: self.alpn_protos,
                alps_protos: self.alps_protos,
                pre_shared_key: self.pre_shared_key,
                enable_ech_grease: self.enable_ech_grease,
                min_tls_version: self.min_tls_version,
                max_tls_version: self.max_tls_version,
                extension_permutation_indices: self.extension_permutation_indices,
            },
        )
    }
}

/// Frozen TLS preferences. A value cannot change once it is built, so one
/// value can configure any number of connectors.
#[derive(Debug)]
pub struct TlsSettings {
    curves: Option<Vec<SslCurve>>,
    cipher_list: Option<String>,
    sigalgs_list: Option<String>,
    delegated_credentials: Option<String>,
    cert_compression_algorithm: Option<Vec<CertCompressionAlgorithm>>,
    record_size_limit: Option<u16>,
    alpn_protos: AlpnProtos,
    alps_protos: Option<AlpsProtos>,
    pre_shared_key: bool,
    enable_ech_grease: bool,
    min_tls_version: Option<TlsVersion>,
    max_tls_version: Option<TlsVersion>,
    extension_permutation_indices: Option<[u8; 26]>,
}

impl View for TlsSettings {
    type V = TlsPreferences;

    closed spec fn view(&self) -> TlsPreferences {
        TlsPreferences {
            curves: items_of(self.curves),
            cipher_list: text_of(self.cipher_list),
            sigalgs_list: text_of(self.sigalgs_list),
            delegated_credentials: text_of(self.delegated_credentials),
            cert_compression_algorithm: items_of(self.cert_compression_algorithm),
            record_size_limit: self.record_size_limit,
            alpn_protos: self.alpn_protos,
            alps_protos: self.alps_protos,
            pre_shared_key: self.pre_shared_key,
            enable_ech_grease: self.enable_ech_grease,
            min_tls_version: self.min_tls_version,
            max_tls_version: self.max_tls_version,
            extension_permutation_indices: slots_of(self.extension_permutation_indices),
        }
    }
}

impl TlsSettings {
    #[verifier::type_invariant]
    spec fn bounds_in_order(self) -> bool {
        versions_in_order(self.min_tls_version, self.max_tls_version)
    }

    /// Starts from preferences nobody has touched.
    pub fn builder() -> (b: TlsSettingsBuilder)
        ensures
            b@ == untouched_preferences(),
    {
        TlsSettingsBuilder {
            curves: None,
            cipher_list: None,
            sigalgs_list: None,
            delegated_credentials: None,
            cert_compression_algorithm: None,
            record_size_limit: None,
            alpn_protos: AlpnProtos::All,
            alps_protos: None,
            pre_shared_key: false,
            enable_ech_grease: false,
            min_tls_version: None,
            max_tls_version: None,
            extension_permutation_indices: None,
        }
    }

    /// The key-exchange groups, most preferred first.
    pub fn curves(&self) -> (r: &Option<Vec<SslCurve>>)
        ensures
            items_of(*r) == self@.curves,
    {
        &self.curves
    }

    /// The cipher list.
    pub fn cipher_list(&self) -> (r: &Option<String>)
        ensures
            text_of(*r) == self@.cipher_list,
    {
        &self.cipher_list
    }

    /// The signature algorithms.
    pub fn sigalgs_list(&self) -> (r: &Option<String>)
        ensures
            text_of(*r) == self@.sigalgs_list,
    {
        &self.sigalgs_list
    }

    /// The signature algorithms for delegated credentials.
    pub fn delegated_credentials(&self) -> (r: &Option<String>)
        ensures
            text_of(*r) == self@.delegated_credentials,
    {
        &self.delegated_credentials
    }

    /// The certificate compression algorithms, most preferred first.
    pub fn cert_compression_algorithm(&self) -> (r: &Option<Vec<CertCompressionAlgorithm>>)
        ensures
            items_of(*r) == self@.cert_compression_algorithm,
    {
        &self.cert_compression_algorithm
    }

    /// The record size limit.
    pub fn record_size_limit(&self) -> (r: Option<u16>)
        ensures
            r == self@.record_size_limit,
    {
        self.record_size_limit
    }

    /// The application protocols offered.
    pub fn alpn_protos(&self) -> (r: AlpnProtos)
        ensures
            r == self@.alpn_protos,
    {
        self.alpn_protos
    }

    /// The application protocols for which early settings are exchanged.
    pub fn alps_protos(&self) -> (r: Option<AlpsProtos>)
        ensures
            r == self@.alps_protos,
    {
        self.alps_protos
    }

    /// Whether a pre-shared key is offered.
    pub fn pre_shared_key(&self) -> (r: bool)
        ensures
            r == self@.pre_shared_key,
    {
        self.pre_shared_key
    }

    /// Whether a GREASE encrypted ClientHello is sent.
    pub fn enable_ech_grease(&self) -> (r: bool)
        ensures
            r == self@.enable_ech_grease,
    {
        self.enable_ech_grease
    }

    /// The lowest and the highest accepted protocol version. In frozen
    /// preferences the lowest never lies above the highest.
    pub fn version_bounds(&self) -> (r: (Option<TlsVersion>, Option<TlsVersion>))
        ensures
            r.0 == self@.min_tls_version,
            r.1 == self@.max_tls_version,
            versions_in_order(r.0, r.1),
    {
        proof {
            use_type_invariant(self);
        }
        (self.min_tls_version, self.max_tls_version)
    }

    /// The extension permutation array.
    pub fn extension_permutation_indices(&self) -> (r: Option<[u8; 26]>)
        ensures
            slots_of(r) == self@.extension_permutation_indices,
            r matches Some(array) ==> array@.len() == CATALOG_SIZE,
    {
        self.extension_permutation_indices
    }
}

} // verus!
