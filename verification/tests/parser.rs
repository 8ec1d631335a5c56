use zoneinfo_compiled::parser::{
    parse, Error, Header, LeapSecondData, Limits, LocalTimeTypeData, Structures, TransitionData,
};

fn est_bytes() -> Vec<u8> {
    vec![
        0x54, 0x5A, 0x69, 0x66, 0x00, 0x00, 0x00, 0x00, 0x00, 0x00, 0x00, 0x00, 0x00, 0x00, 0x00,
        0x00, 0x00, 0x00, 0x00, 0x00, 0x00, 0x00, 0x00, 0x01, 0x00, 0x00, 0x00, 0x01, 0x00, 0x00,
        0x00, 0x00, 0x00, 0x00, 0x00, 0x00, 0x00, 0x00, 0x00, 0x01, 0x00, 0x00, 0x00, 0x04, 0xFF,
        0xFF, 0xB9, 0xB0, 0x00, 0x00, 0x45, 0x53, 0x54, 0x00, 0x00, 0x00,
    ]
}

#[test]
fn est() {
    let bytes = est_bytes();

    let data = parse(bytes, Limits::sensible()).unwrap();
    assert_eq!(data.header.num_transitions, 0);
    assert_eq!(data.header.num_leap_seconds, 0);
    assert_eq!(data.header.num_local_time_types, 1);
}

#[test]
fn japan() {
    let bytes = vec![
        0x54, 0x5A, 0x69, 0x66, 0x00, 0x00, 0x00, 0x00, 0x00, 0x00, 0x00, 0x00, 0x00, 0x00, 0x00,
        0x00, 0x00, 0x00, 0x00, 0x00, 0x00, 0x00, 0x00, 0x03, 0x00, 0x00, 0x00, 0x03, 0x00, 0x00,
        0x00, 0x00, 0x00, 0x00, 0x00, 0x09, 0x00, 0x00, 0x00, 0x03, 0x00, 0x00, 0x00, 0x0D, 0xC3,
        0x55, 0x3B, 0x70, 0xD7, 0x3E, 0x1E, 0x90, 0xD7, 0xEC, 0x16, 0x80, 0xD8, 0xF9, 0x16, 0x90,
        0xD9, 0xCB, 0xF8, 0x80, 0xDB, 0x07, 0x1D, 0x10, 0xDB, 0xAB, 0xDA, 0x80, 0xDC, 0xE6, 0xFF,
        0x10, 0xDD, 0x8B, 0xBC, 0x80, 0x02, 0x01, 0x02, 0x01, 0x02, 0x01, 0x02, 0x01, 0x02, 0x00,
        0x00, 0x7E, 0x90, 0x00, 0x00, 0x00, 0x00, 0x8C, 0xA0, 0x01, 0x05, 0x00, 0x00, 0x7E, 0x90,
        0x00, 0x09, 0x4A, 0x43, 0x53, 0x54, 0x00, 0x4A, 0x44, 0x54, 0x00, 0x4A, 0x53, 0x54, 0x00,
        0x00, 0x00, 0x00, 0x00, 0x00, 0x00,
    ];

    let data = parse(bytes, Limits::sensible()).unwrap();
    assert_eq!(data.header.num_transitions, 9);
    assert_eq!(data.header.num_leap_seconds, 0);
    assert_eq!(data.header.num_local_time_types, 3);

    assert_eq!(
        data.transitions,
        vec![
            TransitionData { timestamp: -1_017_824_400, local_time_type_index: 2 },
            TransitionData { timestamp: -683_794_800, local_time_type_index: 1 },
            TransitionData { timestamp: -672_393_600, local_time_type_index: 2 },
            TransitionData { timestamp: -654_764_400, local_time_type_index: 1 },
            TransitionData { timestamp: -640_944_000, local_time_type_index: 2 },
            TransitionData { timestamp: -620_290_800, local_time_type_index: 1 },
            TransitionData { timestamp: -609_494_400, local_time_type_index: 2 },
            TransitionData { timestamp: -588_841_200, local_time_type_index: 1 },
            TransitionData { timestamp: -578_044_800, local_time_type_index: 2 },
        ]
    );

    assert_eq!(
        data.time_info,
        vec![
            LocalTimeTypeData { offset: 32400, is_dst: 0, name_offset: 0 },
            LocalTimeTypeData { offset: 36000, is_dst: 1, name_offset: 5 },
            LocalTimeTypeData { offset: 32400, is_dst: 0, name_offset: 9 },
        ]
    );
}

#[test]
fn magic_mismatch_reports_actual_bytes() {
    let mut bytes = est_bytes();
    bytes[0] = 0x41;
    bytes[1] = 0x42;
    bytes[2] = 0x43;
    bytes[3] = 0x44;
    let err = parse(bytes, Limits::sensible()).unwrap_err();
    assert_eq!(err, Error::InvalidMagicNumber { bytes_read: [0x41, 0x42, 0x43, 0x44] });
}

#[test]
fn magic_short_buffer_padded_with_zeroes() {
    let err = parse(vec![0x54, 0x5A], Limits::sensible()).unwrap_err();
    assert_eq!(err, Error::InvalidMagicNumber { bytes_read: [0x54, 0x5A, 0x00, 0x00] });
}

#[test]
fn truncated_header() {
    let mut bytes = est_bytes();
    bytes.truncate(30);
    let err = parse(bytes, Limits::sensible()).unwrap_err();
    assert_eq!(err, Error::Truncated);
}

#[test]
fn truncated_section() {
    let mut bytes = est_bytes();
    bytes.truncate(48);
    let err = parse(bytes, Limits::sensible()).unwrap_err();
    assert_eq!(err, Error::Truncated);
}

#[test]
fn trailing_bytes_stay_unread() {
    let mut bytes = est_bytes();
    bytes.extend_from_slice(&[0xDE, 0xAD, 0xBE, 0xEF]);
    let data = parse(bytes, Limits::sensible()).unwrap();
    assert_eq!(data.header.num_local_time_types, 1);
    assert_eq!(data.strings, vec![0x45, 0x53, 0x54, 0x00]);
}

/// A header that declares 5000 transitions under the sensible profile is
/// rejected before anything transition-sized is read.
#[test]
fn limit_violation() {
    let mut bytes = est_bytes();
    // 5000 = 0x1388, written over the num_transitions field at offset 32
    bytes[32] = 0x00;
    bytes[33] = 0x00;
    bytes[34] = 0x13;
    bytes[35] = 0x88;
    let err = parse(bytes, Limits::sensible()).unwrap_err();
    assert_eq!(
        err,
        Error::LimitReached {
            structures: Structures::Transitions,
            intended_count: 5000,
            limit: 2000,
        }
    );
}

#[test]
fn limits_none_has_no_caps() {
    let mut bytes = est_bytes();
    bytes[34] = 0x13;
    bytes[35] = 0x88;
    // with no caps the declared 5000 transitions pass verification, and
    // the parse instead runs out of bytes
    let err = parse(bytes, Limits::none()).unwrap_err();
    assert_eq!(err, Error::Truncated);
}

fn header_with_counts(
    transitions: u32,
    local_time_types: u32,
    leap_seconds: u32,
    gmt_flags: u32,
    standard_flags: u32,
    abbr_chars: u32,
) -> Header {
    Header {
        version: 0,
        num_gmt_flags: gmt_flags,
        num_standard_flags: standard_flags,
        num_leap_seconds: leap_seconds,
        num_transitions: transitions,
        num_local_time_types: local_time_types,
        num_abbr_chars: abbr_chars,
    }
}

#[test]
fn verify_succeeds_iff_every_count_within_limit() {
    let limits = Limits::sensible();
    assert!(limits.verify(&header_with_counts(2000, 256, 50, 256, 256, 50)).is_ok());
    assert!(limits.verify(&header_with_counts(2001, 256, 50, 256, 256, 50)).is_err());
    assert!(limits.verify(&header_with_counts(2000, 257, 50, 256, 256, 50)).is_err());
    assert!(limits.verify(&header_with_counts(2000, 256, 51, 256, 256, 50)).is_err());
    assert!(limits.verify(&header_with_counts(2000, 256, 50, 257, 256, 50)).is_err());
    assert!(limits.verify(&header_with_counts(2000, 256, 50, 256, 257, 50)).is_err());
    assert!(limits.verify(&header_with_counts(2000, 256, 50, 256, 256, 51)).is_err());
    assert!(Limits::none().verify(&header_with_counts(!0, !0, !0, !0, !0, !0)).is_ok());
}

#[test]
fn verify_shrinking_exceeded_count_flips_to_success() {
    let limits = Limits::sensible();
    let over = header_with_counts(5000, 1, 0, 1, 1, 4);
    assert!(limits.verify(&over).is_err());
    let shrunk = Header { num_transitions: 2000, ..over };
    assert!(limits.verify(&shrunk).is_ok());
}

#[test]
fn verify_reports_first_violation_in_fixed_order() {
    let limits = Limits::sensible();
    // both the local-time-type count and the leap-second count are over;
    // the local-time-type violation is checked first
    let h = header_with_counts(0, 300, 60, 0, 0, 0);
    let err = limits.verify(&h).unwrap_err();
    assert_eq!(
        err,
        Error::LimitReached {
            structures: Structures::LocalTimeTypes,
            intended_count: 300,
            limit: 256,
        }
    );
    // a GMT-flag count over the local-time-type cap is reported under its
    // own name
    let h2 = header_with_counts(0, 0, 0, 300, 0, 0);
    let err2 = limits.verify(&h2).unwrap_err();
    assert_eq!(
        err2,
        Error::LimitReached { structures: Structures::GMTFlags, intended_count: 300, limit: 256 }
    );
}

#[test]
fn leap_second_records_are_read() {
    let bytes = vec![
        0x54, 0x5A, 0x69, 0x66, 0x00, 0x00, 0x00, 0x00, 0x00, 0x00, 0x00, 0x00, 0x00, 0x00, 0x00,
        0x00, 0x00, 0x00, 0x00, 0x00, // magic + reserved + version
        0x00, 0x00, 0x00, 0x00, // num_gmt_flags = 0
        0x00, 0x00, 0x00, 0x00, // num_standard_flags = 0
        0x00, 0x00, 0x00, 0x01, // num_leap_seconds = 1
        0x00, 0x00, 0x00, 0x00, // num_transitions = 0
        0x00, 0x00, 0x00, 0x01, // num_local_time_types = 1
        0x00, 0x00, 0x00, 0x01, // num_abbr_chars = 1
        0x00, 0x00, 0x00, 0x00, 0x00, 0x00, // one local time type
        0x00, // abbreviation pool: a single NUL
        0x04, 0xB2, 0x58, 0x00, 0x00, 0x00, 0x00, 0x01, // leap second at 78796800, total 1
    ];
    let data = parse(bytes, Limits::sensible()).unwrap();
    assert_eq!(
        data.leap_seconds,
        vec![LeapSecondData { timestamp: 78_796_800, leap_second_count: 1 }]
    );
}

#[test]
fn error_descriptions() {
    assert_eq!(Error::Truncated.description(), "truncated data");
    assert_eq!(Error::NoTransitions.description(), "no transitions");
    assert_eq!(Structures::TimezoneAbbrChars.description(), "timezone abbreviation chars");
}
