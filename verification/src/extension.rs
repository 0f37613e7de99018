use vstd::prelude::*;

verus! {

/// The TLS extensions a ClientHello can carry.
#[derive(Clone, Copy, Debug, PartialEq, Eq, Structural)]
pub enum ExtensionType {
    ServerName,
    StatusRequest,
    EcPointFormats,
    SignatureAlgorithms,
    Srtp,
    ApplicationLayerProtocolNegotiation,
    Padding,
    ExtendedMasterSecret,
    QuicTransportParametersLegacy,
    QuicTransportParametersStandard,
    CertCompression,
    SessionTicket,
    SupportedGroups,
    PreSharedKey,
    EarlyData,
    SupportedVersions,
    Cookie,
    PskKeyExchangeModes,
    CertificateAuthorities,
    SignatureAlgorithmsCert,
    KeyShare,
    Renegotiate,
    DelegatedCredential,
    ApplicationSettings,
    ApplicationSettingsNew,
    EncryptedClientHello,
    CertificateTimestamp,
    NextProtoNeg,
    ChannelId,
    RecordSizeLimit,
}

/// Number of slots in the engine's extension table.
pub const CATALOG_SIZE: usize = 26;

/// The engine's extension table: the entry at position `p` occupies slot `p`.
pub const CATALOG: [ExtensionType; 26] = [
    ExtensionType::ServerName,
    ExtensionType::EncryptedClientHello,
    ExtensionType::ExtendedMasterSecret,
    ExtensionType::Renegotiate,
    ExtensionType::SupportedGroups,
    ExtensionType::EcPointFormats,
    ExtensionType::SessionTicket,
    ExtensionType::ApplicationLayerProtocolNegotiation,
    ExtensionType::StatusRequest,
    ExtensionType::SignatureAlgorithms,
    ExtensionType::NextProtoNeg,
    ExtensionType::CertificateTimestamp,
    ExtensionType::ChannelId,
    ExtensionType::Srtp,
    ExtensionType::KeyShare,
    ExtensionType::PskKeyExchangeModes,
    ExtensionType::EarlyData,
    ExtensionType::SupportedVersions,
    ExtensionType::Cookie,
    ExtensionType::QuicTransportParametersStandard,
    ExtensionType::QuicTransportParametersLegacy,
    ExtensionType::CertCompression,
    ExtensionType::DelegatedCredential,
    ExtensionType::ApplicationSettings,
    ExtensionType::ApplicationSettingsNew,
    ExtensionType::RecordSizeLimit,
];

/// The table as a sequence.
pub open spec fn catalog() -> Seq<ExtensionType> {
    CATALOG@
}

/// `extension` stands at `position` of the table.
pub open spec fn listed_at(extension: ExtensionType, position: int) -> bool {
    0 <= position < catalog().len() && catalog()[position] == extension
}

/// The table names `extension`.
pub open spec fn supported(extension: ExtensionType) -> bool {
    exists|p: int| listed_at(extension, p)
}

/// No extension stands at two positions of the table.
pub proof fn catalog_has_no_repeats()
    ensures
        catalog().len() == CATALOG_SIZE,
        forall|p: int, q: int|
            0 <= p < q < catalog().len() ==> catalog()[p] != catalog()[q],
{
    assert(catalog().len() == 26);
}

/// Where the table lists `extension`, if it does.
pub open spec fn position_of(extension: ExtensionType) -> Option<usize> {
    if supported(extension) {
        Some((choose|p: int| listed_at(extension, p)) as usize)
    } else {
        None
    }
}

impl ExtensionType {
    /// Position of the extension in the engine's table, or nothing where the
    /// engine has no slot for it. An extension without a slot is no error.
    pub fn index_of(extension: ExtensionType) -> (r: Option<usize>)
        ensures
            r == position_of(extension),
            match r {
                Some(p) => listed_at(extension, p as int),
                None => !supported(extension),
            },
    {
        let mut i: usize = 0;
        while i < CATALOG_SIZE
            invariant
                i <= CATALOG_SIZE,
                catalog().len() == CATALOG_SIZE,
                forall|p: int| 0 <= p < i ==> catalog()[p] != extension,
            decreases CATALOG_SIZE - i,
        {
            if CATALOG[i] == extension {
                proof {
                    catalog_has_no_repeats();
                    assert(listed_at(extension, i as int));
                }
                return Some(i);
            }
            i += 1;
        }
        None
    }
}

/// What a slot holds when the extension wanted there has no position in the
/// table. The first position of the table is written the same way, so a
/// reader of the array cannot tell the two apart.
pub const UNRESOLVED: u8 = 0;

/// What slot `i` of the permutation array for `order` holds: the table
/// position of the `i`-th wanted extension, or `UNRESOLVED` where the order
/// has no `i`-th entry or the table does not list it.
pub open spec fn slot(order: Seq<ExtensionType>, i: int) -> u8 {
    if 0 <= i < order.len() {
        match position_of(order[i]) {
            Some(p) => p as u8,
            None => UNRESOLVED,
        }
    } else {
        UNRESOLVED
    }
}

/// `array` is the permutation array for `order`: one slot per table entry,
/// each filled by the rule of `slot`.
pub open spec fn is_permutation_array(order: Seq<ExtensionType>, array: Seq<u8>) -> bool {
    &&& array.len() == CATALOG_SIZE
    &&& forall|i: int| 0 <= i < array.len() ==> array[i] == slot(order, i)
}

/// The permutation array for `order`.
pub open spec fn permutation_of(order: Seq<ExtensionType>) -> Seq<u8> {
    Seq::new(CATALOG_SIZE as nat, |i: int| slot(order, i))
}

/// Translates a wanted extension order into the engine's permutation array.
///
/// The array always has one slot per table entry. Entries of `order` beyond
/// that many have no slot and are left out. An extension that is wanted
/// twice is written into each of its slots.
pub fn extension_permutation(order: &[ExtensionType]) -> (array: [u8; 26])
    ensures
        array@ == permutation_of(order@),
        is_permutation_array(order@, array@),
{
    let mut array: [u8; 26] = [0u8; 26];
    let mut i: usize = 0;
    while i < CATALOG_SIZE && i < order.len()
        invariant
            i <= CATALOG_SIZE,
            i <= order.len(),
            array@.len() == CATALOG_SIZE,
            forall|k: int| 0 <= k < i ==> array@[k] == slot(order@, k),
            forall|k: int| i <= k < CATALOG_SIZE ==> array@[k] == UNRESOLVED,
        decreases CATALOG_SIZE - i,
    {
        match ExtensionType::index_of(order[i]) {
            Some(p) => {
                array[i] = p as u8;
            },
            None => {},
        }
        i += 1;
    }
    assert(array@ =~= permutation_of(order@));
    array
}

/// Computing the permutation array twice from one order gives the same
/// array: the rule of `slot` leaves no choice.
pub proof fn permutation_is_determined_by_order(
    order: Seq<ExtensionType>,
    first: Seq<u8>,
    second: Seq<u8>,
)
    requires
        is_permutation_array(order, first),
        is_permutation_array(order, second),
    ensures
        first == second,
        first == permutation_of(order),
{
    assert(first =~= second);
    assert(first =~= permutation_of(order));
}

/// An extension that the table does not list is no failure: there is a
/// permutation array for every order, and the slot of such an extension
/// holds `UNRESOLVED`.
pub proof fn unlisted_extension_leaves_slot_unresolved(order: Seq<ExtensionType>, i: int)
    requires
        0 <= i < order.len(),
        i < CATALOG_SIZE,
        !supported(order[i]),
    ensures
        is_permutation_array(order, permutation_of(order)),
        permutation_of(order)[i] == UNRESOLVED,
{
}

/// A slot whose extension the table lists holds that extension's position.
pub proof fn listed_extension_fills_slot(order: Seq<ExtensionType>, i: int)
    requires
        0 <= i < order.len(),
        i < CATALOG_SIZE,
        supported(order[i]),
    ensures
        listed_at(order[i], permutation_of(order)[i] as int),
{
    let p = choose|p: int| listed_at(order[i], p);
    assert(listed_at(order[i], p));
}

/// Where no extension is wanted twice, no table position is written in two
/// resolved slots.
pub proof fn resolved_slots_are_distinct(order: Seq<ExtensionType>, i: int, j: int)
    requires
        order.no_duplicates(),
        0 <= i < j < order.len(),
        j < CATALOG_SIZE,
        supported(order[i]),
        supported(order[j]),
    ensures
        permutation_of(order)[i] != permutation_of(order)[j],
{
    listed_extension_fills_slot(order, i);
    listed_extension_fills_slot(order, j);
}

} // verus!
