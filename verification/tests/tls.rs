use impersonate::{
    join, AlpnProtos, AlpsProtos, CertCompressionAlgorithm, ConfigurationError, ExtensionType,
    SslCurve, TlsSettings, TlsVersion,
};

const VERSIONS: [TlsVersion; 4] =
    [TlsVersion::TLS_1_0, TlsVersion::TLS_1_1, TlsVersion::TLS_1_2, TlsVersion::TLS_1_3];

#[test]
fn join_keeps_the_callers_order() {
    let list = join(":", &["TLS_AES_128_GCM_SHA256", "TLS_CHACHA20_POLY1305_SHA256", "TLS_AES_256_GCM_SHA384"]);
    assert_eq!(
        list,
        Ok("TLS_AES_128_GCM_SHA256:TLS_CHACHA20_POLY1305_SHA256:TLS_AES_256_GCM_SHA384".to_string())
    );
    assert_eq!(join(":", &["b", "a"]), Ok("b:a".to_string()));
}

#[test]
fn join_of_one_name_has_no_separator() {
    assert_eq!(join(":", &["ecdsa_sha1"]), Ok("ecdsa_sha1".to_string()));
}

#[test]
fn join_with_a_longer_separator() {
    assert_eq!(join(", ", &["a", "", "c"]), Ok("a, , c".to_string()));
}

#[test]
fn join_refuses_an_empty_list() {
    assert_eq!(join(":", &[]), Err(ConfigurationError::EmptyList));
}

#[test]
fn curves_and_ordered_bounds_succeed() {
    let settings = TlsSettings::builder()
        .curves(vec![SslCurve::X25519, SslCurve::SECP256R1])
        .min_tls_version(TlsVersion::TLS_1_0)
        .max_tls_version(TlsVersion::TLS_1_3)
        .build()
        .unwrap();
    assert_eq!(settings.curves(), &Some(vec![SslCurve::X25519, SslCurve::SECP256R1]));
    assert_eq!(
        settings.version_bounds(),
        (Some(TlsVersion::TLS_1_0), Some(TlsVersion::TLS_1_3))
    );
}

#[test]
fn inverted_bounds_fail_with_min_exceeds_max() {
    let error = TlsSettings::builder()
        .curves(vec![SslCurve::X25519, SslCurve::SECP256R1])
        .min_tls_version(TlsVersion::TLS_1_3)
        .max_tls_version(TlsVersion::TLS_1_0)
        .build()
        .unwrap_err();
    assert_eq!(error, ConfigurationError::MinExceedsMax);
    assert_eq!(error.message(), "min exceeds max");
}

#[test]
fn bounds_decide_for_every_pair_of_versions() {
    for (i, min) in VERSIONS.iter().enumerate() {
        for (j, max) in VERSIONS.iter().enumerate() {
            let built = TlsSettings::builder()
                .min_tls_version(*min)
                .max_tls_version(*max)
                .build();
            if i <= j {
                assert!(built.is_ok());
            } else {
                assert_eq!(built.err(), Some(ConfigurationError::MinExceedsMax));
            }
        }
    }
}

#[test]
fn a_single_bound_or_none_always_succeeds() {
    assert!(TlsSettings::builder().build().is_ok());
    for version in VERSIONS.iter() {
        assert!(TlsSettings::builder().min_tls_version(*version).build().is_ok());
        assert!(TlsSettings::builder().max_tls_version(*version).build().is_ok());
    }
}

#[test]
fn version_numbers_grow_with_the_version() {
    assert_eq!(TlsVersion::TLS_1_0.wire(), 0x0301);
    assert_eq!(TlsVersion::TLS_1_1.wire(), 0x0302);
    assert_eq!(TlsVersion::TLS_1_2.wire(), 0x0303);
    assert_eq!(TlsVersion::TLS_1_3.wire(), 0x0304);
}

#[test]
fn untouched_settings_offer_both_protocols_and_nothing_else() {
    let settings = TlsSettings::builder().build().unwrap();
    assert_eq!(settings.curves(), &None);
    assert_eq!(settings.cipher_list(), &None);
    assert_eq!(settings.sigalgs_list(), &None);
    assert_eq!(settings.delegated_credentials(), &None);
    assert_eq!(settings.cert_compression_algorithm(), &None);
    assert_eq!(settings.record_size_limit(), None);
    assert_eq!(settings.alpn_protos(), AlpnProtos::All);
    assert_eq!(settings.alps_protos(), None);
    assert!(!settings.pre_shared_key());
    assert!(!settings.enable_ech_grease());
    assert_eq!(settings.version_bounds(), (None, None));
    assert_eq!(settings.extension_permutation_indices(), None);
}

#[test]
fn every_preference_is_frozen_as_it_was_set() {
    let ciphers = join(":", &["TLS_AES_128_GCM_SHA256", "TLS_AES_256_GCM_SHA384"]).unwrap();
    let sigalgs = join(":", &["ecdsa_secp256r1_sha256", "rsa_pss_rsae_sha256"]).unwrap();
    let delegated = join(":", &["ecdsa_secp256r1_sha256", "ecdsa_sha1"]).unwrap();
    let settings = TlsSettings::builder()
        .curves(vec![SslCurve::X25519, SslCurve::SECP256R1, SslCurve::FFDHE2048])
        .cipher_list(ciphers)
        .sigalgs_list(sigalgs)
        .delegated_credentials(delegated)
        .cert_compression_algorithm(vec![
            CertCompressionAlgorithm::Zlib,
            CertCompressionAlgorithm::Brotli,
            CertCompressionAlgorithm::Zstd,
        ])
        .record_size_limit(0x4001)
        .alpn_protos(AlpnProtos::Http2)
        .alps_protos(AlpsProtos::Http2)
        .pre_shared_key(true)
        .enable_ech_grease(true)
        .min_tls_version(TlsVersion::TLS_1_2)
        .max_tls_version(TlsVersion::TLS_1_3)
        .extension_order(&[ExtensionType::KeyShare, ExtensionType::ServerName])
        .build()
        .unwrap();
    assert_eq!(
        settings.curves(),
        &Some(vec![SslCurve::X25519, SslCurve::SECP256R1, SslCurve::FFDHE2048])
    );
    assert_eq!(
        settings.cipher_list(),
        &Some("TLS_AES_128_GCM_SHA256:TLS_AES_256_GCM_SHA384".to_string())
    );
    assert_eq!(
        settings.sigalgs_list(),
        &Some("ecdsa_secp256r1_sha256:rsa_pss_rsae_sha256".to_string())
    );
    assert_eq!(
        settings.delegated_credentials(),
        &Some("ecdsa_secp256r1_sha256:ecdsa_sha1".to_string())
    );
    assert_eq!(
        settings.cert_compression_algorithm(),
        &Some(vec![
            CertCompressionAlgorithm::Zlib,
            CertCompressionAlgorithm::Brotli,
            CertCompressionAlgorithm::Zstd,
        ])
    );
    assert_eq!(settings.record_size_limit(), Some(0x4001));
    assert_eq!(settings.alpn_protos(), AlpnProtos::Http2);
    assert_eq!(settings.alps_protos(), Some(AlpsProtos::Http2));
    assert!(settings.pre_shared_key());
    assert!(settings.enable_ech_grease());
    assert_eq!(
        settings.version_bounds(),
        (Some(TlsVersion::TLS_1_2), Some(TlsVersion::TLS_1_3))
    );
    let mut expected = [0u8; 26];
    expected[0] = 14;
    assert_eq!(settings.extension_permutation_indices(), Some(expected));
}

#[test]
fn record_size_limit_takes_every_sixteen_bit_value() {
    for limit in [0u16, 1, 0x4001, u16::MAX] {
        let settings = TlsSettings::builder().record_size_limit(limit).build().unwrap();
        assert_eq!(settings.record_size_limit(), Some(limit));
    }
}

#[test]
fn a_later_setting_replaces_an_earlier_one() {
    let settings = TlsSettings::builder()
        .max_tls_version(TlsVersion::TLS_1_0)
        .min_tls_version(TlsVersion::TLS_1_2)
        .max_tls_version(TlsVersion::TLS_1_3)
        .build()
        .unwrap();
    assert_eq!(
        settings.version_bounds(),
        (Some(TlsVersion::TLS_1_2), Some(TlsVersion::TLS_1_3))
    );
}

#[test]
fn raw_permutation_indices_are_kept_as_given() {
    let mut indices = [0u8; 26];
    indices[3] = 9;
    indices[25] = 200;
    let settings = TlsSettings::builder().extension_permutation_indices(indices).build().unwrap();
    assert_eq!(settings.extension_permutation_indices(), Some(indices));
}

#[test]
fn frozen_settings_can_be_read_any_number_of_times() {
    let settings = TlsSettings::builder().record_size_limit(7).build().unwrap();
    let first = &settings;
    let second = &settings;
    assert_eq!(first.record_size_limit(), Some(7));
    assert_eq!(second.record_size_limit(), Some(7));
    assert_eq!(settings.record_size_limit(), Some(7));
}

#[test]
fn alpn_wire_form_prefixes_each_name_with_its_length() {
    assert_eq!(AlpnProtos::Http1.wire(), b"\x08http/1.1".to_vec());
    assert_eq!(AlpnProtos::Http2.wire(), b"\x02h2".to_vec());
    assert_eq!(AlpnProtos::All.wire(), b"\x02h2\x08http/1.1".to_vec());
}

#[test]
fn alps_protocols_are_named_newest_first() {
    assert_eq!(AlpsProtos::Http1.protocols(), vec![b"http/1.1".to_vec()]);
    assert_eq!(AlpsProtos::Http2.protocols(), vec![b"h2".to_vec()]);
    assert_eq!(AlpsProtos::All.protocols(), vec![b"h2".to_vec(), b"http/1.1".to_vec()]);
}
