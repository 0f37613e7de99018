use impersonate::{
    check_pseudo_order, encode_settings, ConfigurationError, Http2Settings, Priority, PseudoOrder,
    Setting, SettingsOrder, StreamDependency, StreamId,
};

const PSEUDOS: [PseudoOrder; 4] =
    [PseudoOrder::Method, PseudoOrder::Scheme, PseudoOrder::Authority, PseudoOrder::Path];

fn all_settings() -> Vec<SettingsOrder> {
    vec![
        SettingsOrder::HeaderTableSize,
        SettingsOrder::EnablePush,
        SettingsOrder::MaxConcurrentStreams,
        SettingsOrder::InitialWindowSize,
        SettingsOrder::MaxFrameSize,
        SettingsOrder::MaxHeaderListSize,
        SettingsOrder::UnknownSetting8,
        SettingsOrder::UnknownSetting9,
    ]
}

fn descriptor(stream: u32, parent: u32, weight: u8) -> Priority {
    Priority::new(StreamId::from(stream), StreamDependency::new(StreamId::from(parent), weight, false))
}

#[test]
fn stream_zero_is_the_sentinel() {
    assert!(StreamId::zero().is_zero());
    assert_eq!(StreamId::zero(), StreamId::from(0));
    assert!(!StreamId::from(13).is_zero());
    assert_eq!(StreamId::from(13).id, 13);
}

#[test]
fn dependency_keeps_every_weight() {
    for weight in [0u8, 1, 41, 255] {
        let dependency = StreamDependency::new(StreamId::from(13), weight, true);
        assert_eq!(dependency.dependency_id, StreamId::from(13));
        assert_eq!(dependency.weight, weight);
        assert!(dependency.is_exclusive);
    }
}

#[test]
fn every_arrangement_of_the_four_pseudo_headers_is_accepted() {
    let mut accepted: u32 = 0;
    for a in PSEUDOS {
        for b in PSEUDOS {
            for c in PSEUDOS {
                for d in PSEUDOS {
                    let list = vec![a, b, c, d];
                    let distinct = a != b && a != c && a != d && b != c && b != d && c != d;
                    assert_eq!(check_pseudo_order(&list), distinct);
                    let built = Http2Settings::builder().headers_pseudo_order(list.clone()).build();
                    if distinct {
                        accepted += 1;
                        assert_eq!(built.unwrap().headers_pseudo_order(), &Some(list));
                    } else {
                        assert_eq!(built.err(), Some(ConfigurationError::InvalidPseudoOrder));
                    }
                }
            }
        }
    }
    assert_eq!(accepted, 24);
}

#[test]
fn pseudo_order_that_misses_an_entry_is_refused() {
    let lists = vec![
        vec![],
        vec![PseudoOrder::Method],
        vec![PseudoOrder::Method, PseudoOrder::Scheme, PseudoOrder::Authority],
        vec![PseudoOrder::Path, PseudoOrder::Scheme, PseudoOrder::Method],
    ];
    for list in lists {
        assert!(!check_pseudo_order(&list));
        let built = Http2Settings::builder().headers_pseudo_order(list).build();
        assert_eq!(built.err(), Some(ConfigurationError::InvalidPseudoOrder));
    }
}

#[test]
fn pseudo_order_that_repeats_an_entry_is_refused() {
    let lists = vec![
        vec![PseudoOrder::Method, PseudoOrder::Method, PseudoOrder::Authority, PseudoOrder::Path],
        vec![
            PseudoOrder::Method,
            PseudoOrder::Scheme,
            PseudoOrder::Authority,
            PseudoOrder::Path,
            PseudoOrder::Path,
        ],
    ];
    for list in lists {
        assert!(!check_pseudo_order(&list));
        let built = Http2Settings::builder().headers_pseudo_order(list).build();
        assert_eq!(built.err(), Some(ConfigurationError::InvalidPseudoOrder));
    }
}

#[test]
fn unset_pseudo_order_is_accepted() {
    let settings = Http2Settings::builder().build().unwrap();
    assert_eq!(settings.headers_pseudo_order(), &None);
}

#[test]
fn settings_frame_follows_the_callers_order() {
    let build = || {
        Http2Settings::builder()
            .header_table_size(65536)
            .max_frame_size(16384)
            .settings_order(vec![SettingsOrder::HeaderTableSize, SettingsOrder::MaxFrameSize])
            .build()
            .unwrap()
    };
    let first = build().settings_payload();
    let second = build().settings_payload();
    assert_eq!(first, second);
    assert_eq!(first, vec![0, 1, 0, 1, 0, 0, 0, 5, 0, 0, 0x40, 0]);
    let settings = build();
    assert_eq!(settings.settings_payload(), settings.settings_payload());
    assert_eq!(
        settings.settings(),
        vec![
            Setting { id: SettingsOrder::HeaderTableSize, value: 65536 },
            Setting { id: SettingsOrder::MaxFrameSize, value: 16384 },
        ]
    );
}

#[test]
fn settings_frame_in_the_reverse_order() {
    let settings = Http2Settings::builder()
        .header_table_size(65536)
        .max_frame_size(16384)
        .settings_order(vec![SettingsOrder::MaxFrameSize, SettingsOrder::HeaderTableSize])
        .build()
        .unwrap();
    assert_eq!(settings.settings_payload(), vec![0, 5, 0, 0, 0x40, 0, 0, 1, 0, 1, 0, 0]);
}

#[test]
fn fields_without_a_value_are_left_out_of_the_frame() {
    let settings = Http2Settings::builder()
        .initial_stream_window_size(131072)
        .settings_order(all_settings())
        .build()
        .unwrap();
    assert_eq!(
        settings.settings(),
        vec![Setting { id: SettingsOrder::InitialWindowSize, value: 131072 }]
    );
    assert_eq!(settings.settings_payload(), vec![0, 4, 0, 2, 0, 0]);
}

#[test]
fn fields_outside_the_order_are_left_out_of_the_frame() {
    let settings = Http2Settings::builder()
        .header_table_size(4096)
        .max_frame_size(16384)
        .settings_order(vec![SettingsOrder::MaxFrameSize])
        .build()
        .unwrap();
    assert_eq!(
        settings.settings(),
        vec![Setting { id: SettingsOrder::MaxFrameSize, value: 16384 }]
    );
    let none = Http2Settings::builder()
        .header_table_size(4096)
        .settings_order(vec![])
        .build()
        .unwrap();
    assert_eq!(none.settings(), vec![]);
    assert_eq!(none.settings_payload(), Vec::<u8>::new());
}

#[test]
fn untouched_order_is_the_order_of_the_field_numbers() {
    let settings = Http2Settings::builder()
        .max_frame_size(16384)
        .initial_stream_window_size(131072)
        .header_table_size(65536)
        .build()
        .unwrap();
    assert_eq!(settings.settings_order(), &all_settings());
    assert_eq!(
        settings.settings(),
        vec![
            Setting { id: SettingsOrder::HeaderTableSize, value: 65536 },
            Setting { id: SettingsOrder::InitialWindowSize, value: 131072 },
            Setting { id: SettingsOrder::MaxFrameSize, value: 16384 },
        ]
    );
}

#[test]
fn payload_writes_numbers_most_significant_byte_first() {
    let payload = encode_settings(&[
        Setting { id: SettingsOrder::UnknownSetting9, value: 0x0102_0304 },
        Setting { id: SettingsOrder::EnablePush, value: 0 },
        Setting { id: SettingsOrder::MaxHeaderListSize, value: u32::MAX },
    ]);
    assert_eq!(
        payload,
        vec![0, 9, 1, 2, 3, 4, 0, 2, 0, 0, 0, 0, 0, 6, 0xff, 0xff, 0xff, 0xff]
    );
    assert_eq!(encode_settings(&[]), Vec::<u8>::new());
}

#[test]
fn field_numbers() {
    let numbers: Vec<u16> = all_settings().into_iter().map(|field| field.identifier()).collect();
    assert_eq!(numbers, vec![1, 2, 3, 4, 5, 6, 8, 9]);
}

#[test]
fn settings_order_that_repeats_a_field_is_refused() {
    let built = Http2Settings::builder()
        .settings_order(vec![
            SettingsOrder::HeaderTableSize,
            SettingsOrder::MaxFrameSize,
            SettingsOrder::HeaderTableSize,
        ])
        .build();
    assert_eq!(built.err(), Some(ConfigurationError::DuplicateSetting));
}

#[test]
fn priority_frames_keep_the_given_order() {
    let frames = vec![
        descriptor(3, 0, 200),
        descriptor(5, 0, 100),
        descriptor(7, 0, 0),
        descriptor(9, 7, 0),
        descriptor(11, 3, 0),
        descriptor(13, 0, 240),
    ];
    let settings = Http2Settings::builder()
        .initial_stream_id(15)
        .header_table_size(65536)
        .initial_stream_window_size(131072)
        .max_frame_size(16384)
        .initial_connection_window_size(12517377 + 65535)
        .headers_priority(StreamDependency::new(StreamId::from(13), 41, false))
        .headers_pseudo_order(PSEUDOS.to_vec())
        .settings_order(all_settings())
        .priority(frames.clone())
        .build()
        .unwrap();
    assert_eq!(settings.priority(), &frames);
    assert_eq!(settings.initial_stream_id(), Some(15));
    assert_eq!(settings.header_table_size(), Some(65536));
    assert_eq!(settings.initial_stream_window_size(), Some(131072));
    assert_eq!(settings.max_frame_size(), Some(16384));
    assert_eq!(settings.initial_connection_window_size(), Some(12582912));
    assert_eq!(
        settings.headers_priority(),
        Some(StreamDependency { dependency_id: StreamId { id: 13 }, weight: 41, is_exclusive: false })
    );
    assert_eq!(settings.headers_pseudo_order(), &Some(PSEUDOS.to_vec()));
    assert_eq!(settings.settings_order(), &all_settings());
}

#[test]
fn priority_frames_that_address_one_stream_twice_are_refused() {
    let built = Http2Settings::builder()
        .priority(vec![descriptor(3, 0, 200), descriptor(5, 3, 1), descriptor(3, 5, 7)])
        .build();
    assert_eq!(built.err(), Some(ConfigurationError::DuplicateStreamId));
}

#[test]
fn streams_may_be_depended_on_by_many() {
    let built = Http2Settings::builder()
        .priority(vec![descriptor(3, 0, 200), descriptor(5, 0, 1), descriptor(7, 3, 7), descriptor(9, 3, 7)])
        .build();
    assert!(built.is_ok());
}

#[test]
fn the_pseudo_order_is_looked_at_first_then_settings_then_streams() {
    let repeated_settings = vec![SettingsOrder::EnablePush, SettingsOrder::EnablePush];
    let repeated_streams = vec![descriptor(3, 0, 1), descriptor(3, 0, 1)];
    let all_wrong = Http2Settings::builder()
        .headers_pseudo_order(vec![PseudoOrder::Path])
        .settings_order(repeated_settings.clone())
        .priority(repeated_streams.clone())
        .build();
    assert_eq!(all_wrong.err(), Some(ConfigurationError::InvalidPseudoOrder));
    let two_wrong = Http2Settings::builder()
        .headers_pseudo_order(PSEUDOS.to_vec())
        .settings_order(repeated_settings)
        .priority(repeated_streams)
        .build();
    assert_eq!(two_wrong.err(), Some(ConfigurationError::DuplicateSetting));
}

#[test]
fn untouched_preferences_hold_nothing() {
    let settings = Http2Settings::builder().build().unwrap();
    assert_eq!(settings.initial_stream_id(), None);
    assert_eq!(settings.header_table_size(), None);
    assert_eq!(settings.initial_stream_window_size(), None);
    assert_eq!(settings.initial_connection_window_size(), None);
    assert_eq!(settings.max_frame_size(), None);
    assert_eq!(settings.headers_priority(), None);
    assert_eq!(settings.priority(), &vec![]);
    assert_eq!(settings.settings(), vec![]);
}
