use vstd::prelude::*;
use vstd::seq_lib::{seq_to_set_is_finite, to_multiset_build};
use vstd::set_lib::lemma_len_subset;
use vstd::std_specs::convert::FromSpecImpl;
use crate::error::ConfigurationError;

verus! {

/// Identifier of an HTTP/2 stream. Zero names the connection itself and,
/// as a dependency, says that a stream depends on no other.
#[derive(Clone, Copy, Debug, PartialEq, Eq, Structural)]
pub struct StreamId {
    pub id: u32,
}

impl StreamId {
    /// The connection stream.
    pub fn zero() -> (stream: StreamId)
        ensures
            stream.id == 0,
    {
        StreamId { id: 0 }
    }

    /// Whether this is the connection stream.
    pub fn is_zero(&self) -> (b: bool)
        ensures
            b == (self.id == 0),
    {
        self.id == 0
    }
}

impl From<u32> for StreamId {
    /// The stream with this number.
    fn from(id: u32) -> (stream: StreamId) {
        StreamId { id }
    }
}

impl FromSpecImpl<u32> for StreamId {
    open spec fn obeys_from_spec() -> bool {
        true
    }

    open spec fn from_spec(id: u32) -> StreamId {
        StreamId { id }
    }
}

/// On what a stream depends, and how much of the parent's capacity it gets.
#[derive(Clone, Copy, Debug, PartialEq, Eq, Structural)]
pub struct StreamDependency {
    /// The stream depended on; zero for none.
    pub dependency_id: StreamId,
    /// Share of the parent's capacity; every 8-bit value is a weight.
    pub weight: u8,
    /// Whether the stream becomes its parent's only child.
    pub is_exclusive: bool,
}

impl StreamDependency {
    /// A dependency on `dependency_id` with the given weight.
    pub fn new(dependency_id: StreamId, weight: u8, is_exclusive: bool) -> (d: StreamDependency)
        ensures
            d == (StreamDependency { dependency_id, weight, is_exclusive }),
    {
        StreamDependency { dependency_id, weight, is_exclusive }
    }
}

/// One synthetic PRIORITY frame: the stream it addresses and that stream's dependency.
#[derive(Clone, Copy, Debug, PartialEq, Eq, Structural)]
pub struct Priority {
    /// The stream the frame addresses.
    pub stream_id: StreamId,
    /// What the frame says of that stream.
    pub dependency: StreamDependency,
}

impl Priority {
    /// The descriptor that tells of `stream_id` what `dependency` says.
    pub fn new(stream_id: StreamId, dependency: StreamDependency) -> (p: Priority)
        ensures
            p == (Priority { stream_id, dependency }),
    {
        Priority { stream_id, dependency }
    }
}

/// The pseudo-headers of a request.
#[derive(Clone, Copy, Debug, PartialEq, Eq, Structural)]
pub enum PseudoOrder {
    Method,
    Scheme,
    Authority,
    Path,
}

/// How often `list` names `pseudo`.
pub open spec fn times_named(list: Seq<PseudoOrder>, pseudo: PseudoOrder) -> nat {
    list.to_multiset().count(pseudo)
}

/// `list` is an arrangement of the four pseudo-headers: it names each of
/// them once.
pub open spec fn is_pseudo_permutation(list: Seq<PseudoOrder>) -> bool {
    forall|pseudo: PseudoOrder| #[trigger] times_named(list, pseudo) == 1
}

/// `list` leaves a pseudo-header out.
pub open spec fn misses_a_pseudo(list: Seq<PseudoOrder>) -> bool {
    exists|pseudo: PseudoOrder| !list.contains(pseudo)
}

/// `list` names a pseudo-header at two places.
pub open spec fn repeats_a_pseudo(list: Seq<PseudoOrder>) -> bool {
    exists|i: int, j: int| 0 <= i < j < list.len() && list[i] == list[j]
}

/// Whether `list` is an arrangement of the four pseudo-headers.
pub fn check_pseudo_order(list: &[PseudoOrder]) -> (b: bool)
    ensures
        b == is_pseudo_permutation(list@),
{
    let mut methods: usize = 0;
    let mut schemes: usize = 0;
    let mut authorities: usize = 0;
    let mut paths: usize = 0;
    let mut i: usize = 0;
    proof {
        broadcast use vstd::multiset::group_multiset_axioms;

        list@.take(0).to_multiset_ensures();
        assert(list@.take(0).to_multiset() =~= vstd::multiset::Multiset::empty());
    }
    while i < list.len()
        invariant
            i <= list@.len(),
            methods == times_named(list@.take(i as int), PseudoOrder::Method),
            schemes == times_named(list@.take(i as int), PseudoOrder::Scheme),
            authorities == times_named(list@.take(i as int), PseudoOrder::Authority),
            paths == times_named(list@.take(i as int), PseudoOrder::Path),
            methods + schemes + authorities + paths == i,
        decreases list@.len() - i,
    {
        proof {
            broadcast use vstd::multiset::group_multiset_axioms;

            assert(list@.take(i + 1) =~= list@.take(i as int).push(list@[i as int]));
            to_multiset_build(list@.take(i as int), list@[i as int]);
        }
        match list[i] {
            PseudoOrder::Method => {
                methods += 1;
            },
            PseudoOrder::Scheme => {
                schemes += 1;
            },
            PseudoOrder::Authority => {
                authorities += 1;
            },
            PseudoOrder::Path => {
                paths += 1;
            },
        }
        i += 1;
    }
    assert(list@.take(i as int) =~= list@);
    let b = methods == 1 && schemes == 1 && authorities == 1 && paths == 1;
    proof {
        if b {
            assert forall|pseudo: PseudoOrder| #[trigger] times_named(list@, pseudo) == 1 by {
                match pseudo {
                    PseudoOrder::Method => {},
                    PseudoOrder::Scheme => {},
                    PseudoOrder::Authority => {},
                    PseudoOrder::Path => {},
                }
            }
        } else {
            assert(times_named(list@, PseudoOrder::Method) != 1 || times_named(
                list@,
                PseudoOrder::Scheme,
            ) != 1 || times_named(list@, PseudoOrder::Authority) != 1 || times_named(
                list@,
                PseudoOrder::Path,
            ) != 1);
        }
    }
    b
}

/// Every arrangement of the four pseudo-headers is accepted, and a list is
/// refused exactly where it leaves one of them out or names one twice.
pub proof fn pseudo_order_is_accepted_iff_complete_and_without_repeats(list: Seq<PseudoOrder>)
    ensures
        is_pseudo_permutation(list) <==> !misses_a_pseudo(list) && !repeats_a_pseudo(list),
        is_pseudo_permutation(list) ==> list.len() == 4,
{
    broadcast use vstd::multiset::group_multiset_axioms;

    list.to_multiset_ensures();
    if is_pseudo_permutation(list) {
        assert forall|pseudo: PseudoOrder| list.contains(pseudo) by {
            assert(times_named(list, pseudo) == 1);
        }
        assert forall|x: PseudoOrder| list.to_multiset().contains(x) implies list.to_multiset().count(
            x,
        ) == 1 by {
            assert(times_named(list, x) == 1);
        }
        list.lemma_multiset_has_no_duplicates_conv();
        four_named_once_are_four(list);
    }
    if !misses_a_pseudo(list) && !repeats_a_pseudo(list) {
        assert(list.no_duplicates());
        list.lemma_multiset_has_no_duplicates();
        assert forall|pseudo: PseudoOrder| #[trigger] times_named(list, pseudo) == 1 by {
            assert(list.contains(pseudo));
        }
    }
}

/// A list that names each pseudo-header once has four entries.
proof fn four_named_once_are_four(list: Seq<PseudoOrder>)
    requires
        is_pseudo_permutation(list),
    ensures
        list.len() == 4,
{
    broadcast use vstd::multiset::group_multiset_axioms;

    let all = seq![
        PseudoOrder::Method,
        PseudoOrder::Scheme,
        PseudoOrder::Authority,
        PseudoOrder::Path,
    ];
    let first = seq![PseudoOrder::Method];
    to_multiset_build(Seq::<PseudoOrder>::empty(), PseudoOrder::Method);
    to_multiset_build(first, PseudoOrder::Scheme);
    to_multiset_build(first.push(PseudoOrder::Scheme), PseudoOrder::Authority);
    to_multiset_build(
        first.push(PseudoOrder::Scheme).push(PseudoOrder::Authority),
        PseudoOrder::Path,
    );
    assert(first =~= Seq::<PseudoOrder>::empty().push(PseudoOrder::Method));
    assert(all =~= first.push(PseudoOrder::Scheme).push(PseudoOrder::Authority).push(
        PseudoOrder::Path,
    ));
    Seq::<PseudoOrder>::empty().to_multiset_ensures();
    assert forall|pseudo: PseudoOrder| all.to_multiset().count(pseudo) == list.to_multiset().count(
        pseudo,
    ) by {
        assert(times_named(list, pseudo) == 1);
        match pseudo {
            PseudoOrder::Method => {},
            PseudoOrder::Scheme => {},
            PseudoOrder::Authority => {},
            PseudoOrder::Path => {},
        }
    }
    assert(all.to_multiset() =~= list.to_multiset());
    all.to_multiset_ensures();
    list.to_multiset_ensures();
}

/// The fields a SETTINGS frame can carry.
#[derive(Clone, Copy, Debug, PartialEq, Eq, Structural)]
pub enum SettingsOrder {
    HeaderTableSize,
    EnablePush,
    MaxConcurrentStreams,
    InitialWindowSize,
    MaxFrameSize,
    MaxHeaderListSize,
    UnknownSetting8,
    UnknownSetting9,
}

impl SettingsOrder {
    /// The number by which a SETTINGS frame names the field.
    pub open spec fn number(self) -> u16 {
        match self {
            SettingsOrder::HeaderTableSize => 1,
            SettingsOrder::EnablePush => 2,
            SettingsOrder::MaxConcurrentStreams => 3,
            SettingsOrder::InitialWindowSize => 4,
            SettingsOrder::MaxFrameSize => 5,
            SettingsOrder::MaxHeaderListSize => 6,
            SettingsOrder::UnknownSetting8 => 8,
            SettingsOrder::UnknownSetting9 => 9,
        }
    }

    /// The number by which a SETTINGS frame names the field.
    pub fn identifier(self) -> (n: u16)
        ensures
            n == self.number(),
    {
        match self {
            SettingsOrder::HeaderTableSize => 1,
            SettingsOrder::EnablePush => 2,
            SettingsOrder::MaxConcurrentStreams => 3,
            SettingsOrder::InitialWindowSize => 4,
            SettingsOrder::MaxFrameSize => 5,
            SettingsOrder::MaxHeaderListSize => 6,
            SettingsOrder::UnknownSetting8 => 8,
            SettingsOrder::UnknownSetting9 => 9,
        }
    }
}

/// The fields in the order of their numbers: the order of a frame for which
/// nobody chose one.
pub open spec fn natural_order() -> Seq<SettingsOrder> {
    seq![
        SettingsOrder::HeaderTableSize,
        SettingsOrder::EnablePush,
        SettingsOrder::MaxConcurrentStreams,
        SettingsOrder::InitialWindowSize,
        SettingsOrder::MaxFrameSize,
        SettingsOrder::MaxHeaderListSize,
        SettingsOrder::UnknownSetting8,
        SettingsOrder::UnknownSetting9,
    ]
}

/// Whether no field is named twice.
pub fn settings_are_distinct(order: &[SettingsOrder]) -> (b: bool)
    ensures
        b == order@.no_duplicates(),
{
    let mut j: usize = 0;
    while j < order.len()
        invariant
            j <= order@.len(),
            forall|a: int, b: int| 0 <= a < b < j ==> order@[a] != order@[b],
        decreases order@.len() - j,
    {
        let mut i: usize = 0;
        while i < j
            invariant
                i <= j < order@.len(),
                forall|a: int| 0 <= a < i ==> order@[a] != order@[j as int],
            decreases j - i,
        {
            if order[i] == order[j] {
                return false;
            }
            i += 1;
        }
        j += 1;
    }
    true
}

/// The streams that a list of PRIORITY descriptors addresses, one per descriptor.
pub open spec fn addressed(priority: Seq<Priority>) -> Seq<StreamId> {
    priority.map_values(|p: Priority| p.stream_id)
}

/// Whether no stream is addressed by two descriptors.
pub fn streams_are_distinct(priority: &[Priority]) -> (b: bool)
    ensures
        b == addressed(priority@).no_duplicates(),
{
    let mut j: usize = 0;
    while j < priority.len()
        invariant
            j <= priority@.len(),
            forall|a: int, b: int|
                0 <= a < b < j ==> addressed(priority@)[a] != addressed(priority@)[b],
        decreases priority@.len() - j,
    {
        let mut i: usize = 0;
        while i < j
            invariant
                i <= j < priority@.len(),
                forall|a: int| 0 <= a < i ==> addressed(priority@)[a] != addressed(priority@)[j as int],
            decreases j - i,
        {
            if priority[i].stream_id.id == priority[j].stream_id.id {
                assert(addressed(priority@)[i as int] == addressed(priority@)[j as int]);
                return false;
            }
            i += 1;
        }
        j += 1;
    }
    true
}

/// What a set of HTTP/2 preferences says, as plain mathematical values.
pub struct Http2Preferences {
    /// Identifier of the first stream the client opens.
    pub initial_stream_id: Option<u32>,
    /// Size of the header compression table.
    pub header_table_size: Option<u32>,
    /// Flow-control window of a new stream.
    pub initial_stream_window_size: Option<u32>,
    /// Flow-control window of the connection.
    pub initial_connection_window_size: Option<u32>,
    /// Largest frame payload accepted.
    pub max_frame_size: Option<u32>,
    /// Dependency sent with the headers of a request.
    pub headers_priority: Option<StreamDependency>,
    /// Order in which the pseudo-headers of a request are written.
    pub headers_pseudo_order: Option<Seq<PseudoOrder>>,
    /// Order in which the fields of the SETTINGS frame are written.
    pub settings_order: Seq<SettingsOrder>,
    /// PRIORITY frames sent after connection setup, first to last.
    pub priority: Seq<Priority>,
}

/// The preferences nobody has touched yet.
pub open spec fn untouched_preferences() -> Http2Preferences {
    Http2Preferences {
        initial_stream_id: None,
        header_table_size: None,
        initial_stream_window_size: None,
        initial_connection_window_size: None,
        max_frame_size: None,
        headers_priority: None,
        headers_pseudo_order: None,
        settings_order: natural_order(),
        priority: Seq::empty(),
    }
}

/// What is wrong with preferences, if anything is: the pseudo-header order
/// is looked at first, then the SETTINGS order, then the PRIORITY descriptors.
pub open spec fn first_defect(preferences: Http2Preferences) -> Option<ConfigurationError> {
    if preferences.headers_pseudo_order matches Some(list) && !is_pseudo_permutation(list) {
        Some(ConfigurationError::InvalidPseudoOrder)
    } else if !preferences.settings_order.no_duplicates() {
        Some(ConfigurationError::DuplicateSetting)
    } else if !addressed(preferences.priority).no_duplicates() {
        Some(ConfigurationError::DuplicateStreamId)
    } else {
        None
    }
}

/// The pseudo-header order, where one is set, arranges the four
/// pseudo-headers; no SETTINGS field is named twice; no stream is addressed
/// by two PRIORITY descriptors.
pub open spec fn well_formed(preferences: Http2Preferences) -> bool {
    first_defect(preferences) is None
}

/// The entries of a pseudo-header order that may be unset.
pub open spec fn pseudos_of(list: Option<Vec<PseudoOrder>>) -> Option<Seq<PseudoOrder>> {
    match list {
        Some(l) => Some(l@),
        None => None,
    }
}

/// HTTP/2 preferences while they are still being collected.
#[derive(Debug)]
pub struct Http2SettingsBuilder {
    initial_stream_id: Option<u32>,
    header_table_size: Option<u32>,
    initial_stream_window_size: Option<u32>,
    initial_connection_window_size: Option<u32>,
    max_frame_size: Option<u32>,
    headers_priority: Option<StreamDependency>,
    headers_pseudo_order: Option<Vec<PseudoOrder>>,
    settings_order: Vec<SettingsOrder>,
    priority: Vec<Priority>,
}

impl View for Http2SettingsBuilder {
    type V = Http2Preferences;

    closed spec fn view(&self) -> Http2Preferences {
        Http2Preferences {
            initial_stream_id: self.initial_stream_id,
            header_table_size: self.header_table_size,
            initial_stream_window_size: self.initial_stream_window_size,
            initial_connection_window_size: self.initial_connection_window_size,
            max_frame_size: self.max_frame_size,
            headers_priority: self.headers_priority,
            headers_pseudo_order: pseudos_of(self.headers_pseudo_order),
            settings_order: self.settings_order@,
            priority: self.priority@,
        }
    }
}

impl Http2SettingsBuilder {
    /// Sets the identifier of the first stream the client opens.
    pub fn initial_stream_id(self, id: u32) -> (b: Self)
        ensures
            b@ == (Http2Preferences { initial_stream_id: Some(id), ..self@ }),
    {
        Http2SettingsBuilder { initial_stream_id: Some(id), ..self }
    }

    /// Sets the size of the header compression table.
    pub fn header_table_size(self, size: u32) -> (b: Self)
        ensures
            b@ == (Http2Preferences { header_table_size: Some(size), ..self@ }),
    {
        Http2SettingsBuilder { header_table_size: Some(size), ..self }
    }

    /// Sets the flow-control window of a new stream.
    pub fn initial_stream_window_size(self, size: u32) -> (b: Self)
        ensures
            b@ == (Http2Preferences { initial_stream_window_size: Some(size), ..self@ }),
    {
        Http2SettingsBuilder { initial_stream_window_size: Some(size), ..self }
    }

    /// Sets the flow-control window of the connection.
    pub fn initial_connection_window_size(self, size: u32) -> (b: Self)
        ensures
            b@ == (Http2Preferences { initial_connection_window_size: Some(size), ..self@ }),
    {
        Http2SettingsBuilder { initial_connection_window_size: Some(size), ..self }
    }

    /// Sets the largest frame payload accepted.
    pub fn max_frame_size(self, size: u32) -> (b: Self)
        ensures
            b@ == (Http2Preferences { max_frame_size: Some(size), ..self@ }),
    {
        Http2SettingsBuilder { max_frame_size: Some(size), ..self }
    }

    /// Sets the dependency sent with the headers of a request.
    pub fn headers_priority(self, dependency: StreamDependency) -> (b: Self)
        ensures
            b@ == (Http2Preferences { headers_priority: Some(dependency), ..self@ }),
    {
        Http2SettingsBuilder { headers_priority: Some(dependency), ..self }
    }

    /// Sets the order in which the pseudo-headers of a request are written.
    /// Whether the list arranges the four pseudo-headers is decided by `build`.
    pub fn headers_pseudo_order(self, order: Vec<PseudoOrder>) -> (b: Self)
        ensures
            b@ == (Http2Preferences { headers_pseudo_order: Some(order@), ..self@ }),
    {
        Http2SettingsBuilder { headers_pseudo_order: Some(order), ..self }
    }

    /// Sets the order in which the fields of the SETTINGS frame are written.
    /// Whether a field is named twice is decided by `build`.
    pub fn settings_order(self, order: Vec<SettingsOrder>) -> (b: Self)
        ensures
            b@ == (Http2Preferences { settings_order: order@, ..self@ }),
    {
        Http2SettingsBuilder { settings_order: order, ..self }
    }

    /// Sets the PRIORITY frames sent after connection setup, first to last.
    /// The stream identifiers are the caller's choice; they are compared with
    /// each other by `build` and with nothing else.
    pub fn priority(self, priority: Vec<Priority>) -> (b: Self)
        ensures
            b@ == (Http2Preferences { priority: priority@, ..self@ }),
    {
        Http2SettingsBuilder { priority, ..self }
    }

    /// Freezes the preferences, or says what is wrong with them.
    pub fn build(self) -> (r: Result<Http2Settings, ConfigurationError>)
        ensures
            r is Ok <==> well_formed(self@),
            r matches Err(e) ==> first_defect(self@) == Some(e),
            r matches Ok(settings) ==> settings@ == self@,
    {
        let pseudo_stands = match &self.headers_pseudo_order {
            Some(list) => check_pseudo_order(list.as_slice()),
            None => true,
        };
        if !pseudo_stands {
            return Err(ConfigurationError::InvalidPseudoOrder);
        }
        if !settings_are_distinct(self.settings_order.as_slice()) {
            return Err(ConfigurationError::DuplicateSetting);
        }
        if !streams_are_distinct(self.priority.as_slice()) {
            return Err(ConfigurationError::DuplicateStreamId);
        }
        Ok(
            Http2Settings {
                initial_stream_id: self.initial_stream_id,
                header_table_size: self.header_table_size,
                initial_stream_window_size: self.initial_stream_window_size,
                initial_connection_window_size: self.initial_connection_window_size,
                max_frame_size: self.max_frame_size,
                headers_priority: self.headers_priority,
                headers_pseudo_order: self.headers_pseudo_order,
                settings_order: self.settings_order,
                priority: self.priority,
            },
        )
    }
}

/// One field of a SETTINGS frame with its value.
#[derive(Clone, Copy, Debug, PartialEq, Eq, Structural)]
pub struct Setting {
    pub id: SettingsOrder,
    pub value: u32,
}

/// The value that preferences give a SETTINGS field, where they give one.
pub open spec fn value_of(preferences: Http2Preferences, id: SettingsOrder) -> Option<u32> {
    match id {
        SettingsOrder::HeaderTableSize => preferences.header_table_size,
        SettingsOrder::InitialWindowSize => preferences.initial_stream_window_size,
        SettingsOrder::MaxFrameSize => preferences.max_frame_size,
        _ => None,
    }
}

/// The fields that preferences put into the SETTINGS frame: going through
/// `order` from first to last, each field that the preferences give a value.
pub open spec fn emitted(preferences: Http2Preferences, order: Seq<SettingsOrder>) -> Seq<Setting>
    decreases order.len(),
{
    if order.len() == 0 {
        Seq::empty()
    } else {
        let before = emitted(preferences, order.drop_last());
        match value_of(preferences, order.last()) {
            Some(value) => before.push(Setting { id: order.last(), value }),
            None => before,
        }
    }
}

/// A 16-bit number, most significant byte first.
pub open spec fn two_bytes(n: u16) -> Seq<u8> {
    seq![(n / 0x100) as u8, (n % 0x100) as u8]
}

/// A 32-bit number, most significant byte first.
pub open spec fn four_bytes(n: u32) -> Seq<u8> {
    seq![
        (n / 0x100_0000) as u8,
        (n / 0x1_0000 % 0x100) as u8,
        (n / 0x100 % 0x100) as u8,
        (n % 0x100) as u8,
    ]
}

/// The payload of a SETTINGS frame with these fields: for each field in
/// turn its number in two bytes and its value in four.
pub open spec fn payload(settings: Seq<Setting>) -> Seq<u8>
    decreases settings.len(),
{
    if settings.len() == 0 {
        Seq::empty()
    } else {
        payload(settings.drop_last()) + two_bytes(settings.last().id.number()) + four_bytes(
            settings.last().value,
        )
    }
}

/// Frozen HTTP/2 preferences. A value cannot change once it is built, so one
/// value can configure any number of connections.
#[derive(Debug)]
pub struct Http2Settings {
    initial_stream_id: Option<u32>,
    header_table_size: Option<u32>,
    initial_stream_window_size: Option<u32>,
    initial_connection_window_size: Option<u32>,
    max_frame_size: Option<u32>,
    headers_priority: Option<StreamDependency>,
    headers_pseudo_order: Option<Vec<PseudoOrder>>,
    settings_order: Vec<SettingsOrder>,
    priority: Vec<Priority>,
}

impl View for Http2Settings {
    type V = Http2Preferences;

    closed spec fn view(&self) -> Http2Preferences {
        Http2Preferences {
            initial_stream_id: self.initial_stream_id,
            header_table_size: self.header_table_size,
            initial_stream_window_size: self.initial_stream_window_size,
            initial_connection_window_size: self.initial_connection_window_size,
            max_frame_size: self.max_frame_size,
            headers_priority: self.headers_priority,
            headers_pseudo_order: pseudos_of(self.headers_pseudo_order),
            settings_order: self.settings_order@,
            priority: self.priority@,
        }
    }
}

impl Http2Settings {
    #[verifier::type_invariant]
    spec fn sound(self) -> bool {
        well_formed(self@)
    }

    /// Starts from preferences nobody has touched.
    pub fn builder() -> (b: Http2SettingsBuilder)
        ensures
            b@ == untouched_preferences(),
    {
        let order: Vec<SettingsOrder> = vec![
            SettingsOrder::HeaderTableSize,
            SettingsOrder::EnablePush,
            SettingsOrder::MaxConcurrentStreams,
            SettingsOrder::InitialWindowSize,
            SettingsOrder::MaxFrameSize,
            SettingsOrder::MaxHeaderListSize,
            SettingsOrder::UnknownSetting8,
            SettingsOrder::UnknownSetting9,
        ];
        assert(order@ =~= natural_order());
        Http2SettingsBuilder {
            initial_stream_id: None,
            header_table_size: None,
            initial_stream_window_size: None,
            initial_connection_window_size: None,
            max_frame_size: None,
            headers_priority: None,
            headers_pseudo_order: None,
            settings_order: order,
            priority: Vec::new(),
        }
    }

    /// The identifier of the first stream the client opens.
    pub fn initial_stream_id(&self) -> (r: Option<u32>)
        ensures
            r == self@.initial_stream_id,
    {
        self.initial_stream_id
    }

    /// The size of the header compression table.
    pub fn header_table_size(&self) -> (r: Option<u32>)
        ensures
            r == self@.header_table_size,
    {
        self.header_table_size
    }

    /// The flow-control window of a new stream.
    pub fn initial_stream_window_size(&self) -> (r: Option<u32>)
        ensures
            r == self@.initial_stream_window_size,
    {
        self.initial_stream_window_size
    }

    /// The flow-control window of the connection.
    pub fn initial_connection_window_size(&self) -> (r: Option<u32>)
        ensures
            r == self@.initial_connection_window_size,
    {
        self.initial_connection_window_size
    }

    /// The largest frame payload accepted.
    pub fn max_frame_size(&self) -> (r: Option<u32>)
        ensures
            r == self@.max_frame_size,
    {
        self.max_frame_size
    }

    /// The dependency sent with the headers of a request.
    pub fn headers_priority(&self) -> (r: Option<StreamDependency>)
        ensures
            r == self@.headers_priority,
    {
        self.headers_priority
    }

    /// The order in which the pseudo-headers of a request are written. In
    /// frozen preferences it arranges the four pseudo-headers.
    pub fn headers_pseudo_order(&self) -> (r: &Option<Vec<PseudoOrder>>)
        ensures
            pseudos_of(*r) == self@.headers_pseudo_order,
            r matches Some(list) ==> is_pseudo_permutation(list@),
    {
        proof {
            use_type_invariant(self);
        }
        &self.headers_pseudo_order
    }

    /// The order in which the fields of the SETTINGS frame are written. In
    /// frozen preferences it names no field twice.
    pub fn settings_order(&self) -> (r: &Vec<SettingsOrder>)
        ensures
            r@ == self@.settings_order,
            r@.no_duplicates(),
    {
        proof {
            use_type_invariant(self);
        }
        &self.settings_order
    }

    /// The PRIORITY frames sent after connection setup, first to last. In
    /// frozen preferences no two of them address one stream.
    pub fn priority(&self) -> (r: &Vec<Priority>)
        ensures
            r@ == self@.priority,
            addressed(r@).no_duplicates(),
    {
        proof {
            use_type_invariant(self);
        }
        &self.priority
    }

    /// The fields that these preferences put into the SETTINGS frame, in the
    /// order in which the frame carries them: the order of `settings_order`,
    /// without the fields that have no value here.
    pub fn settings(&self) -> (list: Vec<Setting>)
        ensures
            list@ == emitted(self@, self@.settings_order),
    {
        let mut list: Vec<Setting> = Vec::new();
        let mut i: usize = 0;
        while i < self.settings_order.len()
            invariant
                i <= self.settings_order@.len(),
                list@ == emitted(self@, self.settings_order@.take(i as int)),
            decreases self.settings_order@.len() - i,
        {
            let id = self.settings_order[i];
            assert(self.settings_order@.take(i + 1).drop_last() =~= self.settings_order@.take(
                i as int,
            ));
            let value = match id {
                SettingsOrder::HeaderTableSize => self.header_table_size,
                SettingsOrder::InitialWindowSize => self.initial_stream_window_size,
                SettingsOrder::MaxFrameSize => self.max_frame_size,
                _ => None,
            };
            match value {
                Some(value) => {
                    list.push(Setting { id, value });
                },
                None => {},
            }
            i += 1;
        }
        assert(self.settings_order@.take(i as int) =~= self.settings_order@);
        list
    }

    /// The payload of the SETTINGS frame that these preferences ask for.
    pub fn settings_payload(&self) -> (bytes: Vec<u8>)
        ensures
            bytes@ == payload(emitted(self@, self@.settings_order)),
    {
        encode_settings(self.settings().as_slice())
    }
}

/// Writes the payload of a SETTINGS frame: for each field in turn its
/// number in two bytes and its value in four, most significant byte first.
pub fn encode_settings(settings: &[Setting]) -> (bytes: Vec<u8>)
    ensures
        bytes@ == payload(settings@),
{
    let mut bytes: Vec<u8> = Vec::new();
    let mut i: usize = 0;
    while i < settings.len()
        invariant
            i <= settings@.len(),
            bytes@ == payload(settings@.take(i as int)),
        decreases settings@.len() - i,
    {
        let number = settings[i].id.identifier();
        let value = settings[i].value;
        let ghost before = bytes@;
        bytes.push((number / 0x100) as u8);
        bytes.push((number % 0x100) as u8);
        bytes.push((value / 0x100_0000) as u8);
        bytes.push((value / 0x1_0000 % 0x100) as u8);
        bytes.push((value / 0x100 % 0x100) as u8);
        bytes.push((value % 0x100) as u8);
        assert(settings@.take(i + 1).drop_last() =~= settings@.take(i as int));
        assert(bytes@ =~= before + two_bytes(number) + four_bytes(value));
        i += 1;
    }
    assert(settings@.take(i as int) =~= settings@);
    bytes
}

/// An order that names no field twice names at most eight fields: there
/// are no more.
pub proof fn order_without_repeats_names_at_most_eight(order: Seq<SettingsOrder>)
    requires
        order.no_duplicates(),
    ensures
        order.len() <= 8,
{
    let all = natural_order();
    order.unique_seq_to_set();
    all.lemma_cardinality_of_set();
    seq_to_set_is_finite(all);
    assert forall|field: SettingsOrder| order.to_set().contains(field) implies all.to_set().contains(
        field,
    ) by {
        let at: int = match field {
            SettingsOrder::HeaderTableSize => 0,
            SettingsOrder::EnablePush => 1,
            SettingsOrder::MaxConcurrentStreams => 2,
            SettingsOrder::InitialWindowSize => 3,
            SettingsOrder::MaxFrameSize => 4,
            SettingsOrder::MaxHeaderListSize => 5,
            SettingsOrder::UnknownSetting8 => 6,
            SettingsOrder::UnknownSetting9 => 7,
        };
        assert(all[at] == field);
        assert(all.contains(field));
    }
    lemma_len_subset(order.to_set(), all.to_set());
}

/// The frame never carries more fields than the order names, and each field
/// takes six bytes of the payload.
pub proof fn frame_is_no_longer_than_its_order(
    preferences: Http2Preferences,
    order: Seq<SettingsOrder>,
)
    ensures
        emitted(preferences, order).len() <= order.len(),
        payload(emitted(preferences, order)).len() == 6 * emitted(preferences, order).len(),
    decreases order.len(),
{
    if order.len() > 0 {
        frame_is_no_longer_than_its_order(preferences, order.drop_last());
    }
    payload_takes_six_bytes_a_field(emitted(preferences, order));
}

/// Each field takes six bytes of the payload.
pub proof fn payload_takes_six_bytes_a_field(settings: Seq<Setting>)
    ensures
        payload(settings).len() == 6 * settings.len(),
    decreases settings.len(),
{
    if settings.len() > 0 {
        payload_takes_six_bytes_a_field(settings.drop_last());
    }
}

/// The payload says which fields it carries, with which values and in which
/// order: two lists of fields with one payload are one list.
pub proof fn payload_tells_settings_apart(first: Seq<Setting>, second: Seq<Setting>)
    requires
        payload(first) == payload(second),
    ensures
        first == second,
    decreases first.len(),
{
    payload_takes_six_bytes_a_field(first);
    payload_takes_six_bytes_a_field(second);
    if first.len() == 0 {
        assert(first =~= second);
    } else {
        let a = first.last();
        let b = second.last();
        let head_a = payload(first.drop_last());
        let head_b = payload(second.drop_last());
        let tail_a = two_bytes(a.id.number()) + four_bytes(a.value);
        let tail_b = two_bytes(b.id.number()) + four_bytes(b.value);
        payload_takes_six_bytes_a_field(first.drop_last());
        payload_takes_six_bytes_a_field(second.drop_last());
        let whole = payload(first);
        assert(whole =~= head_a + tail_a);
        assert(whole =~= head_b + tail_b);
        let cut = head_a.len() as int;
        assert(head_a =~= whole.subrange(0, cut));
        assert(head_b =~= whole.subrange(0, cut));
        assert(tail_a =~= whole.subrange(cut, cut + 6));
        assert(tail_b =~= whole.subrange(cut, cut + 6));
        assert(tail_a[0] == tail_b[0] && tail_a[1] == tail_b[1]);
        assert(tail_a[2] == tail_b[2] && tail_a[3] == tail_b[3] && tail_a[4] == tail_b[4]
            && tail_a[5] == tail_b[5]);
        assert(a.id.number() == b.id.number());
        assert(a.id == b.id);
        assert(a.value == b.value);
        payload_tells_settings_apart(first.drop_last(), second.drop_last());
        assert(first =~= first.drop_last().push(a));
        assert(second =~= second.drop_last().push(b));
    }
}

} // verus!
