use impersonate::{extension_permutation, ExtensionType, CATALOG, CATALOG_SIZE, UNRESOLVED};

fn browser_order() -> Vec<ExtensionType> {
    vec![
        ExtensionType::ServerName,
        ExtensionType::ExtendedMasterSecret,
        ExtensionType::Renegotiate,
        ExtensionType::SupportedGroups,
        ExtensionType::EcPointFormats,
        ExtensionType::SessionTicket,
        ExtensionType::ApplicationLayerProtocolNegotiation,
        ExtensionType::StatusRequest,
        ExtensionType::DelegatedCredential,
        ExtensionType::KeyShare,
        ExtensionType::SupportedVersions,
        ExtensionType::SignatureAlgorithms,
        ExtensionType::PskKeyExchangeModes,
        ExtensionType::RecordSizeLimit,
        ExtensionType::CertCompression,
        ExtensionType::EncryptedClientHello,
    ]
}

#[test]
fn catalog_has_one_slot_per_entry() {
    assert_eq!(CATALOG.len(), CATALOG_SIZE);
    assert_eq!(CATALOG_SIZE, 26);
}

#[test]
fn index_of_finds_every_catalog_entry_at_its_position() {
    for (position, extension) in CATALOG.iter().enumerate() {
        assert_eq!(ExtensionType::index_of(*extension), Some(position));
    }
}

#[test]
fn index_of_first_and_last_entry() {
    assert_eq!(ExtensionType::index_of(ExtensionType::ServerName), Some(0));
    assert_eq!(ExtensionType::index_of(ExtensionType::EncryptedClientHello), Some(1));
    assert_eq!(ExtensionType::index_of(ExtensionType::KeyShare), Some(14));
    assert_eq!(ExtensionType::index_of(ExtensionType::RecordSizeLimit), Some(25));
}

#[test]
fn index_of_knows_no_slot_for_unlisted_extensions() {
    assert_eq!(ExtensionType::index_of(ExtensionType::Padding), None);
    assert_eq!(ExtensionType::index_of(ExtensionType::PreSharedKey), None);
    assert_eq!(ExtensionType::index_of(ExtensionType::CertificateAuthorities), None);
    assert_eq!(ExtensionType::index_of(ExtensionType::SignatureAlgorithmsCert), None);
}

#[test]
fn permutation_of_a_browser_order() {
    let array = extension_permutation(&browser_order());
    let expected: [u8; 26] = [
        0, 2, 3, 4, 5, 6, 7, 8, 22, 14, 17, 9, 15, 25, 21, 1, 0, 0, 0, 0, 0, 0, 0, 0, 0, 0,
    ];
    assert_eq!(array, expected);
}

#[test]
fn permutation_computed_twice_is_the_same() {
    let order = browser_order();
    assert_eq!(extension_permutation(&order), extension_permutation(&order));
    let other = vec![ExtensionType::Padding, ExtensionType::Cookie, ExtensionType::Cookie];
    assert_eq!(extension_permutation(&other), extension_permutation(&other));
}

#[test]
fn unlisted_extension_leaves_the_sentinel() {
    let array = extension_permutation(&[
        ExtensionType::KeyShare,
        ExtensionType::Padding,
        ExtensionType::Cookie,
    ]);
    assert_eq!(array[0], 14);
    assert_eq!(array[1], UNRESOLVED);
    assert_eq!(array[2], 18);
    assert!(array[3..].iter().all(|slot| *slot == UNRESOLVED));
}

#[test]
fn sentinel_is_also_the_first_position() {
    let listed = extension_permutation(&[ExtensionType::ServerName]);
    let unlisted = extension_permutation(&[ExtensionType::Padding]);
    assert_eq!(listed, unlisted);
    assert_eq!(UNRESOLVED, 0);
}

#[test]
fn empty_order_gives_an_array_of_sentinels() {
    assert_eq!(extension_permutation(&[]), [0u8; 26]);
}

#[test]
fn order_longer_than_the_catalog_fills_every_slot_and_stops() {
    let mut order: Vec<ExtensionType> = Vec::new();
    for _ in 0..30 {
        order.push(ExtensionType::RecordSizeLimit);
    }
    order.push(ExtensionType::KeyShare);
    assert_eq!(extension_permutation(&order), [25u8; 26]);
}

#[test]
fn whole_catalog_in_its_own_order_is_the_identity() {
    let array = extension_permutation(&CATALOG);
    for (position, slot) in array.iter().enumerate() {
        assert_eq!(*slot as usize, position);
    }
}

#[test]
fn distinct_listed_extensions_get_distinct_slots() {
    let array = extension_permutation(&browser_order());
    for i in 0..16 {
        for j in (i + 1)..16 {
            assert_ne!(array[i], array[j]);
        }
    }
}
