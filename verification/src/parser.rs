//! Structural parsing of time zone files.
//!
//! This module reads data from a buffer of bytes and parses it into a
//! `TZData` structure, doing a minimum of interpretation as to what these
//! values mean: the data read are all kept as primitive numeric types. The
//! code that turns these numbers into actual timezone data lives in the root
//! module.
//!
//! Every field of the raw structures is pinned down, byte for byte, by the
//! specification functions below, which describe the fixed on-disk layout:
//! a four-byte magic signature, a fifteen-byte reserved region, a version
//! byte, six big-endian 32-bit counts, and then five variable-length
//! sections whose lengths are exactly those counts.

use vstd::prelude::*;

verus! {

/// The value of the four big-endian base-256 digits starting at position
/// `i` of the byte sequence.
pub open spec fn spec_u32_be(s: Seq<u8>, i: int) -> u32
    recommends
        0 <= i,
        i + 4 <= s.len(),
{
    (s[i] * 0x100_0000 + s[i + 1] * 0x1_0000 + s[i + 2] * 0x100 + s[i + 3]) as u32
}

/// The two's-complement reading of the four big-endian bytes starting at
/// position `i` of the byte sequence.
pub open spec fn spec_i32_be(s: Seq<u8>, i: int) -> i32
    recommends
        0 <= i,
        i + 4 <= s.len(),
{
    let u = spec_u32_be(s, i);
    if u >= 0x8000_0000 {
        (u - 0x1_0000_0000) as i32
    } else {
        u as i32
    }
}

/// Whether the byte sequence begins with the exact magic signature
/// `b"TZif"`.
pub open spec fn spec_magic_ok(s: Seq<u8>) -> bool {
    s.len() >= 4 && s[0] == 0x54u8 && s[1] == 0x5Au8 && s[2] == 0x69u8 && s[3] == 0x66u8
}

/// The first four bytes of the sequence, padded with zeroes when the
/// sequence is shorter than four bytes: the signature actually seen by the
/// reader.
pub open spec fn spec_magic_bytes(s: Seq<u8>) -> Seq<u8> {
    Seq::new(4, |i: int| if i < s.len() { s[i] } else { 0u8 })
}

#[derive(Debug, PartialEq, Eq, Copy, Clone)]
pub struct Header {
    /// The version of this file's format - either '\0', or '2', or '3'.
    pub version: u8,

    /// The number of GMT flags in this file.
    pub num_gmt_flags: u32,

    /// The number of Standard Time flags in this file.
    pub num_standard_flags: u32,

    /// The number of leap second entries in this file.
    pub num_leap_seconds: u32,

    /// The number of transition entries in this file.
    pub num_transitions: u32,

    /// The number of local time types in this file.
    pub num_local_time_types: u32,

    /// The number of characters of time zone abbreviation strings in this
    /// file.
    pub num_abbr_chars: u32,
}

/// The header as laid out on disk: the version byte at position 19, then
/// the six counts as big-endian 32-bit numbers in a fixed field order.
pub open spec fn spec_header_of(s: Seq<u8>) -> Header
    recommends
        s.len() >= 44,
{
    Header {
        version: s[19],
        num_gmt_flags: spec_u32_be(s, 20),
        num_standard_flags: spec_u32_be(s, 24),
        num_leap_seconds: spec_u32_be(s, 28),
        num_transitions: spec_u32_be(s, 32),
        num_local_time_types: spec_u32_be(s, 36),
        num_abbr_chars: spec_u32_be(s, 40),
    }
}

#[derive(Debug, PartialEq, Eq, Copy, Clone)]
pub struct TransitionData {
    /// The time at which the rules for computing local time change.
    pub timestamp: i32,

    /// Index into the local time types array for this transition.
    pub local_time_type_index: u8,
}

#[derive(Debug, PartialEq, Eq, Copy, Clone)]
pub struct LocalTimeTypeData {
    /// Number of seconds to be added to Universal Time.
    pub offset: i32,

    /// Whether to set DST.
    pub is_dst: u8,

    /// Position in the array of time zone abbreviation characters, elsewhere
    /// in the file.
    pub name_offset: u8,
}

#[derive(Debug, PartialEq, Eq, Copy, Clone)]
pub struct LeapSecondData {
    /// The time, as a number of seconds, at which a leap second occurs.
    pub timestamp: i32,

    /// Number of leap seconds to be added.
    pub leap_second_count: i32,
}

/// Maximum numbers of structures that can be loaded from a time zone data
/// file. If more than these would be loaded, an error will be returned
/// instead.
///
/// Why have limits? The header portion of the file (see `Header`) specifies
/// the numbers of structures that should be read as a `u32` four-byte
/// integer. This means that an invalid (or maliciously-crafted!) file could
/// try to read *gigabytes* of data while trying to read time zone
/// information. To prevent this, reasonable defaults are set, although they
/// can be turned off if necessary.
#[derive(Debug, Copy, Clone)]
pub struct Limits {
    /// Maximum number of transition structures
    pub max_transitions: Option<u32>,

    /// Maximum number of local time type structures
    pub max_local_time_types: Option<u32>,

    /// Maximum number of characters (bytes, technically) in timezone
    /// abbreviations
    pub max_abbreviation_chars: Option<u32>,

    /// Maximum number of leap second specifications
    pub max_leap_seconds: Option<u32>,
}

/// Whether a count read from the header is within a configured limit; an
/// unset limit admits every count.
pub open spec fn spec_count_within(count: u32, limit: Option<u32>) -> bool {
    match limit {
        Some(max) => count <= max,
        None => true,
    }
}

/// The outcome of holding one header count against one configured limit.
pub open spec fn spec_check(structures: Structures, intended_count: u32, limit: Option<u32>) -> Result<
    (),
    Error,
> {
    match limit {
        Some(max) => if intended_count > max {
            Err(Error::LimitReached { structures, intended_count, limit: max })
        } else {
            Ok(())
        },
        None => Ok(()),
    }
}

/// Whether every one of the six header counts is within its configured
/// limit. The two flag-array counts are held against the local-time-type
/// limit, since both arrays carry one byte per local time type.
pub open spec fn spec_limits_ok(limits: Limits, header: Header) -> bool {
    &&& spec_count_within(header.num_transitions, limits.max_transitions)
    &&& spec_count_within(header.num_local_time_types, limits.max_local_time_types)
    &&& spec_count_within(header.num_leap_seconds, limits.max_leap_seconds)
    &&& spec_count_within(header.num_gmt_flags, limits.max_local_time_types)
    &&& spec_count_within(header.num_standard_flags, limits.max_local_time_types)
    &&& spec_count_within(header.num_abbr_chars, limits.max_abbreviation_chars)
}

/// The exact result of `Limits::verify`: the checks run in a fixed order,
/// so the first violated limit, not the worst, is the one reported.
pub open spec fn spec_verify(limits: Limits, header: Header) -> Result<(), Error> {
    let c1 = spec_check(Structures::Transitions, header.num_transitions, limits.max_transitions);
    let c2 = spec_check(
        Structures::LocalTimeTypes,
        header.num_local_time_types,
        limits.max_local_time_types,
    );
    let c3 = spec_check(Structures::LeapSeconds, header.num_leap_seconds, limits.max_leap_seconds);
    let c4 = spec_check(Structures::GMTFlags, header.num_gmt_flags, limits.max_local_time_types);
    let c5 = spec_check(
        Structures::StandardFlags,
        header.num_standard_flags,
        limits.max_local_time_types,
    );
    let c6 = spec_check(
        Structures::TimezoneAbbrChars,
        header.num_abbr_chars,
        limits.max_abbreviation_chars,
    );
    if c1 is Err {
        c1
    } else if c2 is Err {
        c2
    } else if c3 is Err {
        c3
    } else if c4 is Err {
        c4
    } else if c5 is Err {
        c5
    } else if c6 is Err {
        c6
    } else {
        Ok(())
    }
}

/// The limit profile with no caps at all.
pub open spec fn spec_limits_none() -> Limits {
    Limits {
        max_transitions: None,
        max_local_time_types: None,
        max_abbreviation_chars: None,
        max_leap_seconds: None,
    }
}

/// The sensible default limit profile.
pub open spec fn spec_limits_sensible() -> Limits {
    Limits {
        max_transitions: Some(2000u32),
        max_local_time_types: Some(256u32),
        max_abbreviation_chars: Some(50u32),
        max_leap_seconds: Some(50u32),
    }
}

/// Holds one header count against one configured limit, reporting which
/// structure overflowed, the count that was asked for, and the cap.
fn check_limit(structures: Structures, intended_count: u32, limit: Option<u32>) -> (r: Result<
    (),
    Error,
>)
    ensures
        r == spec_check(structures, intended_count, limit),
{
    if let Some(max) = limit {
        if intended_count > max {
            return Err(Error::LimitReached { structures, intended_count, limit: max });
        }
    }
    Ok(())
}

impl Limits {
    /// No size limits. This might use *lots* of memory when reading an
    /// invalid file, so be careful.
    pub fn none() -> (r: Limits)
        ensures
            r == spec_limits_none(),
    {
        Limits {
            max_transitions: None,
            max_local_time_types: None,
            max_abbreviation_chars: None,
            max_leap_seconds: None,
        }
    }

    /// A reasonable set of default values that pose no danger of using lots
    /// of memory.
    pub fn sensible() -> (r: Limits)
        ensures
            r == spec_limits_sensible(),
    {
        Limits {
            max_transitions: Some(2000),
            max_local_time_types: Some(256),
            max_abbreviation_chars: Some(50),
            max_leap_seconds: Some(50),
        }
    }

    /// Makes sure the values we just read from the header are within this
    /// set of limits. Succeeds exactly when every count is within its limit
    /// (or the limit is unset); otherwise reports the first violated limit
    /// in a fixed checking order.
    pub fn verify(self, header: &Header) -> (r: Result<(), Error>)
        ensures
            r == spec_verify(self, *header),
            r is Ok <==> spec_limits_ok(self, *header),
    {
        match check_limit(Structures::Transitions, header.num_transitions, self.max_transitions) {
            Err(e) => return Err(e),
            Ok(()) => {},
        }
        match check_limit(
            Structures::LocalTimeTypes,
            header.num_local_time_types,
            self.max_local_time_types,
        ) {
            Err(e) => return Err(e),
            Ok(()) => {},
        }
        match check_limit(Structures::LeapSeconds, header.num_leap_seconds, self.max_leap_seconds) {
            Err(e) => return Err(e),
            Ok(()) => {},
        }
        match check_limit(Structures::GMTFlags, header.num_gmt_flags, self.max_local_time_types) {
            Err(e) => return Err(e),
            Ok(()) => {},
        }
        match check_limit(
            Structures::StandardFlags,
            header.num_standard_flags,
            self.max_local_time_types,
        ) {
            Err(e) => return Err(e),
            Ok(()) => {},
        }
        match check_limit(
            Structures::TimezoneAbbrChars,
            header.num_abbr_chars,
            self.max_abbreviation_chars,
        ) {
            Err(e) => return Err(e),
            Ok(()) => {},
        }
        Ok(())
    }
}

/// The header with each of the six counts shrunk to its configured limit
/// wherever it exceeded it.
pub open spec fn spec_clamped_header(limits: Limits, header: Header) -> Header {
    Header {
        version: header.version,
        num_gmt_flags: spec_clamped_count(header.num_gmt_flags, limits.max_local_time_types),
        num_standard_flags: spec_clamped_count(
            header.num_standard_flags,
            limits.max_local_time_types,
        ),
        num_leap_seconds: spec_clamped_count(header.num_leap_seconds, limits.max_leap_seconds),
        num_transitions: spec_clamped_count(header.num_transitions, limits.max_transitions),
        num_local_time_types: spec_clamped_count(
            header.num_local_time_types,
            limits.max_local_time_types,
        ),
        num_abbr_chars: spec_clamped_count(header.num_abbr_chars, limits.max_abbreviation_chars),
    }
}

/// A count shrunk to its configured limit when it exceeded it, and kept
/// as it was otherwise.
pub open spec fn spec_clamped_count(count: u32, limit: Option<u32>) -> u32 {
    match limit {
        Some(max) => if count > max {
            max
        } else {
            count
        },
        None => count,
    }
}

/// Verification of a header succeeds exactly when every one of the six
/// counts is within its configured limit, and shrinking each exceeded
/// count to its limit always flips the result to success.
pub proof fn lemma_verify_of_clamped_header_succeeds(limits: Limits, header: Header)
    ensures
        spec_verify(limits, header) is Ok <==> spec_limits_ok(limits, header),
        spec_limits_ok(limits, spec_clamped_header(limits, header)),
        spec_verify(limits, spec_clamped_header(limits, header)) is Ok,
{
}

/// The transition record `i` of a transition section that starts at byte
/// `base` and holds `count` records: its timestamp is stored among the
/// other timestamps, and its type index in a second block after all of
/// them.
pub open spec fn spec_transition_at(s: Seq<u8>, base: int, count: int, i: int) -> TransitionData
    recommends
        0 <= i < count,
        base + 5 * count <= s.len(),
{
    TransitionData {
        timestamp: spec_i32_be(s, base + 4 * i),
        local_time_type_index: s[base + 4 * count + i],
    }
}

/// The local-time-type record `i` of a section starting at byte `base`:
/// six bytes per record, a big-endian offset then two single-byte fields.
pub open spec fn spec_local_time_type_at(s: Seq<u8>, base: int, i: int) -> LocalTimeTypeData
    recommends
        0 <= i,
        base + 6 * i + 6 <= s.len(),
{
    LocalTimeTypeData {
        offset: spec_i32_be(s, base + 6 * i),
        is_dst: s[base + 6 * i + 4],
        name_offset: s[base + 6 * i + 5],
    }
}

/// The leap-second record `i` of a section starting at byte `base`: eight
/// bytes per record, two big-endian numbers.
pub open spec fn spec_leap_second_at(s: Seq<u8>, base: int, i: int) -> LeapSecondData
    recommends
        0 <= i,
        base + 8 * i + 8 <= s.len(),
{
    LeapSecondData {
        timestamp: spec_i32_be(s, base + 8 * i),
        leap_second_count: spec_i32_be(s, base + 8 * i + 4),
    }
}

/// Where the local-time-type section starts: the transition section begins
/// at byte 44 and holds five bytes per transition.
pub open spec fn spec_local_time_types_base(h: Header) -> int {
    44 + 5 * (h.num_transitions as int)
}

/// Where the abbreviation byte pool starts.
pub open spec fn spec_abbr_base(h: Header) -> int {
    spec_local_time_types_base(h) + 6 * (h.num_local_time_types as int)
}

/// Where the leap-second section starts.
pub open spec fn spec_leap_seconds_base(h: Header) -> int {
    spec_abbr_base(h) + h.num_abbr_chars as int
}

/// Where the standard/wall flag array starts.
pub open spec fn spec_standard_flags_base(h: Header) -> int {
    spec_leap_seconds_base(h) + 8 * (h.num_leap_seconds as int)
}

/// Where the GMT/UTC flag array starts.
pub open spec fn spec_gmt_flags_base(h: Header) -> int {
    spec_standard_flags_base(h) + h.num_standard_flags as int
}

/// How many bytes a successful parse consumes: the fixed 44-byte prefix
/// plus the five variable-length sections the header announces.
pub open spec fn spec_total_len(h: Header) -> int {
    spec_gmt_flags_base(h) + h.num_gmt_flags as int
}

/// The abstract content of a raw `TZData`: the header and the five
/// sections, with each variable-length section as a sequence.
#[verifier::ext_equal]
pub struct TZDataView {
    pub header: Header,
    pub transitions: Seq<TransitionData>,
    pub time_info: Seq<LocalTimeTypeData>,
    pub leap_seconds: Seq<LeapSecondData>,
    pub strings: Seq<u8>,
    pub standard_flags: Seq<u8>,
    pub gmt_flags: Seq<u8>,
}

impl TZDataView {
    /// The invariant of the raw model: the variable-length sections are
    /// exactly as long as the header counts say. The parser establishes
    /// this by construction.
    pub open spec fn wf(self) -> bool {
        &&& self.transitions.len() == self.header.num_transitions as int
        &&& self.time_info.len() == self.header.num_local_time_types as int
        &&& self.leap_seconds.len() == self.header.num_leap_seconds as int
    }
}

/// The internal structure of a zoneinfo file.
#[derive(Debug, PartialEq, Eq, Clone)]
pub struct TZData {
    pub header: Header,
    pub transitions: Vec<TransitionData>,
    pub time_info: Vec<LocalTimeTypeData>,
    pub leap_seconds: Vec<LeapSecondData>,
    pub strings: Vec<u8>,
    pub standard_flags: Vec<u8>,
    pub gmt_flags: Vec<u8>,
}

impl View for TZData {
    type V = TZDataView;

    open spec fn view(&self) -> TZDataView {
        TZDataView {
            header: self.header,
            transitions: self.transitions@,
            time_info: self.time_info@,
            leap_seconds: self.leap_seconds@,
            strings: self.strings@,
            standard_flags: self.standard_flags@,
            gmt_flags: self.gmt_flags@,
        }
    }
}

/// The raw model a well-formed byte sequence parses to: each record read
/// from its fixed place in the layout.
pub open spec fn spec_raw_of(s: Seq<u8>) -> TZDataView
    recommends
        s.len() >= spec_total_len(spec_header_of(s)),
{
    let h = spec_header_of(s);
    TZDataView {
        header: h,
        transitions: Seq::new(
            h.num_transitions as nat,
            |i: int| spec_transition_at(s, 44, h.num_transitions as int, i),
        ),
        time_info: Seq::new(
            h.num_local_time_types as nat,
            |i: int| spec_local_time_type_at(s, spec_local_time_types_base(h), i),
        ),
        leap_seconds: Seq::new(
            h.num_leap_seconds as nat,
            |i: int| spec_leap_second_at(s, spec_leap_seconds_base(h), i),
        ),
        strings: s.subrange(spec_abbr_base(h), spec_abbr_base(h) + h.num_abbr_chars as int),
        standard_flags: s.subrange(
            spec_standard_flags_base(h),
            spec_standard_flags_base(h) + h.num_standard_flags as int,
        ),
        gmt_flags: s.subrange(
            spec_gmt_flags_base(h),
            spec_gmt_flags_base(h) + h.num_gmt_flags as int,
        ),
    }
}

/// When parsing succeeds: the signature matches, the whole header is
/// present, every count is within its limit, and the buffer holds all the
/// bytes the counts announce.
pub open spec fn spec_parse_ok(s: Seq<u8>, limits: Limits) -> bool {
    &&& spec_magic_ok(s)
    &&& s.len() >= 44
    &&& spec_limits_ok(limits, spec_header_of(s))
    &&& s.len() >= spec_total_len(spec_header_of(s))
}

/// Which error a failed parse reports: a bad signature wins, then a header
/// cut short, then the first violated limit, then truncation within the
/// sections.
pub open spec fn spec_parse_err_matches(e: Error, s: Seq<u8>, limits: Limits) -> bool {
    if !spec_magic_ok(s) {
        e matches Error::InvalidMagicNumber { bytes_read } && bytes_read@ == spec_magic_bytes(s)
    } else if s.len() < 44 {
        e == Error::Truncated
    } else if !spec_limits_ok(limits, spec_header_of(s)) {
        spec_verify(limits, spec_header_of(s)) == Err::<(), Error>(e)
    } else {
        e == Error::Truncated
    }
}

/// A sequential, cursor-based reader over a byte buffer. Each read advances
/// the shared position; there is no backtracking and no random access.
struct Parser {
    buf: Vec<u8>,
    pos: usize,
}

impl Parser {
    spec fn wf(self) -> bool {
        self.pos <= self.buf@.len()
    }

    fn new(buf: Vec<u8>) -> (r: Parser)
        ensures
            r.wf(),
            r.buf@ == buf@,
            r.pos == 0,
    {
        Parser { buf, pos: 0 }
    }

    /// Reads the byte under the cursor and advances past it; fails when the
    /// buffer is exhausted.
    fn read_u8(&mut self) -> (r: Result<u8, Error>)
        requires
            old(self).wf(),
        ensures
            final(self).wf(),
            final(self).buf@ == old(self).buf@,
            r is Ok <==> old(self).pos < old(self).buf@.len(),
            r matches Ok(b) ==> b == old(self).buf@[old(self).pos as int] && final(self).pos
                == old(self).pos + 1,
            r matches Err(e) ==> e == Error::Truncated && *final(self) == *old(self),
    {
        if self.pos < self.buf.len() {
            let b = self.buf[self.pos];
            self.pos = self.pos + 1;
            Ok(b)
        } else {
            Err(Error::Truncated)
        }
    }

    /// Reads four bytes as a big-endian unsigned 32-bit number.
    fn read_u32_be(&mut self) -> (r: Result<u32, Error>)
        requires
            old(self).wf(),
        ensures
            final(self).wf(),
            final(self).buf@ == old(self).buf@,
            r is Ok <==> old(self).pos + 4 <= old(self).buf@.len(),
            r matches Ok(v) ==> v == spec_u32_be(old(self).buf@, old(self).pos as int)
                && final(self).pos == old(self).pos + 4,
            r matches Err(e) ==> e == Error::Truncated,
    {
        let b0 = match self.read_u8() {
            Ok(b) => b,
            Err(e) => return Err(e),
        };
        let b1 = match self.read_u8() {
            Ok(b) => b,
            Err(e) => return Err(e),
        };
        let b2 = match self.read_u8() {
            Ok(b) => b,
            Err(e) => return Err(e),
        };
        let b3 = match self.read_u8() {
            Ok(b) => b,
            Err(e) => return Err(e),
        };
        Ok((b0 as u32) * 0x100_0000 + (b1 as u32) * 0x1_0000 + (b2 as u32) * 0x100 + (b3 as u32))
    }

    /// Reads four bytes as a big-endian two's-complement 32-bit number.
    fn read_i32_be(&mut self) -> (r: Result<i32, Error>)
        requires
            old(self).wf(),
        ensures
            final(self).wf(),
            final(self).buf@ == old(self).buf@,
            r is Ok <==> old(self).pos + 4 <= old(self).buf@.len(),
            r matches Ok(v) ==> v == spec_i32_be(old(self).buf@, old(self).pos as int)
                && final(self).pos == old(self).pos + 4,
            r matches Err(e) ==> e == Error::Truncated,
    {
        let u = match self.read_u32_be() {
            Ok(v) => v,
            Err(e) => return Err(e),
        };
        if u >= 0x8000_0000u32 {
            let d: u32 = u - 0x8000_0000u32;
            Ok((d as i32) - 0x7FFF_FFFFi32 - 1i32)
        } else {
            Ok(u as i32)
        }
    }

    /// Reads the four-byte magic signature; succeeds only on the exact
    /// fixed value `b"TZif"`, and otherwise reports the bytes actually
    /// read, padded with zeroes when the buffer holds fewer than four.
    fn read_magic_number(&mut self) -> (r: Result<(), Error>)
        requires
            old(self).wf(),
            old(self).pos == 0,
        ensures
            final(self).wf(),
            final(self).buf@ == old(self).buf@,
            r is Ok <==> spec_magic_ok(old(self).buf@),
            r is Ok ==> final(self).pos == 4,
            r matches Err(e) ==> e matches Error::InvalidMagicNumber { bytes_read } && bytes_read@
                == spec_magic_bytes(old(self).buf@),
    {
        let len = self.buf.len();
        let b0 = if 0 < len { self.buf[0] } else { 0u8 };
        let b1 = if 1 < len { self.buf[1] } else { 0u8 };
        let b2 = if 2 < len { self.buf[2] } else { 0u8 };
        let b3 = if 3 < len { self.buf[3] } else { 0u8 };
        self.pos = if len < 4 { len } else { 4 };
        if b0 == 0x54 && b1 == 0x5A && b2 == 0x69 && b3 == 0x66 {
            Ok(())
        } else {
            let bytes_read = [b0, b1, b2, b3];
            proof {
                assert(bytes_read@ =~= spec_magic_bytes(self.buf@));
            }
            Err(Error::InvalidMagicNumber { bytes_read })
        }
    }

    /// Consumes the fixed fifteen-byte reserved region unconditionally; its
    /// content is not validated, and a short buffer is only noticed by the
    /// next read.
    fn skip_initial_zeroes(&mut self) -> (r: Result<(), Error>)
        requires
            old(self).wf(),
            old(self).pos == 4,
        ensures
            final(self).wf(),
            final(self).buf@ == old(self).buf@,
            r is Ok,
            final(self).pos == if old(self).buf@.len() < 19 {
                old(self).buf@.len() as int
            } else {
                19int
            },
    {
        let len = self.buf.len();
        self.pos = if len < 19 {
            len
        } else {
            19
        };
        Ok(())
    }

    /// Reads the version byte then the six 32-bit big-endian counts, in the
    /// fixed field order matching the on-disk layout exactly.
    fn read_header(&mut self) -> (r: Result<Header, Error>)
        requires
            old(self).wf(),
            old(self).pos == if old(self).buf@.len() < 19 {
                old(self).buf@.len() as int
            } else {
                19int
            },
        ensures
            final(self).wf(),
            final(self).buf@ == old(self).buf@,
            r is Ok <==> old(self).buf@.len() >= 44,
            r matches Ok(h) ==> h == spec_header_of(old(self).buf@) && final(self).pos == 44,
            r matches Err(e) ==> e == Error::Truncated,
    {
        let version = match self.read_u8() {
            Ok(b) => b,
            Err(e) => return Err(e),
        };
        let num_gmt_flags = match self.read_u32_be() {
            Ok(v) => v,
            Err(e) => return Err(e),
        };
        let num_standard_flags = match self.read_u32_be() {
            Ok(v) => v,
            Err(e) => return Err(e),
        };
        let num_leap_seconds = match self.read_u32_be() {
            Ok(v) => v,
            Err(e) => return Err(e),
        };
        let num_transitions = match self.read_u32_be() {
            Ok(v) => v,
            Err(e) => return Err(e),
        };
        let num_local_time_types = match self.read_u32_be() {
            Ok(v) => v,
            Err(e) => return Err(e),
        };
        let num_abbr_chars = match self.read_u32_be() {
            Ok(v) => v,
            Err(e) => return Err(e),
        };
        Ok(
            Header {
                version,
                num_gmt_flags,
                num_standard_flags,
                num_leap_seconds,
                num_transitions,
                num_local_time_types,
                num_abbr_chars,
            },
        )
    }

    /// Reads exactly `count` transition records: first all the timestamps,
    /// then all the type indices, pairing them up afterwards.
    fn read_transition_data(&mut self, count: usize) -> (r: Result<Vec<TransitionData>, Error>)
        requires
            old(self).wf(),
        ensures
            final(self).wf(),
            final(self).buf@ == old(self).buf@,
            r is Ok <==> old(self).pos + 5 * count <= old(self).buf@.len(),
            r matches Ok(v) ==> {
                &&& final(self).pos == old(self).pos + 5 * count
                &&& v@.len() == count
                &&& forall|i: int|
                    0 <= i < count ==> v@[i] == spec_transition_at(
                        old(self).buf@,
                        old(self).pos as int,
                        count as int,
                        i,
                    )
            },
            r matches Err(e) ==> e == Error::Truncated,
    {
        let ghost base = self.pos as int;
        let ghost s = self.buf@;
        let mut times: Vec<i32> = Vec::new();
        let mut j: usize = 0;
        while j < count
            invariant
                self.wf(),
                self.buf@ == s,
                s == old(self).buf@,
                base == old(self).pos as int,
                j <= count,
                self.pos as int == base + 4 * j,
                times@.len() == j,
                forall|k: int| 0 <= k < j ==> times@[k] == spec_i32_be(s, base + 4 * k),
            decreases count - j,
        {
            let t = match self.read_i32_be() {
                Ok(v) => v,
                Err(e) => return Err(e),
            };
            times.push(t);
            j += 1;
        }
        let mut types: Vec<u8> = Vec::new();
        let mut j2: usize = 0;
        while j2 < count
            invariant
                self.wf(),
                self.buf@ == s,
                s == old(self).buf@,
                base == old(self).pos as int,
                j2 <= count,
                self.pos as int == base + 4 * count + j2,
                types@.len() == j2,
                forall|k: int| 0 <= k < j2 ==> types@[k] == s[base + 4 * count + k],
            decreases count - j2,
        {
            let t = match self.read_u8() {
                Ok(v) => v,
                Err(e) => return Err(e),
            };
            types.push(t);
            j2 += 1;
        }
        let mut records: Vec<TransitionData> = Vec::new();
        let mut j3: usize = 0;
        while j3 < count
            invariant
                self.wf(),
                self.buf@ == s,
                s == old(self).buf@,
                base == old(self).pos as int,
                self.pos as int == base + 5 * count,
                times@.len() == count,
                types@.len() == count,
                forall|k: int| 0 <= k < count ==> times@[k] == spec_i32_be(s, base + 4 * k),
                forall|k: int| 0 <= k < count ==> types@[k] == s[base + 4 * count + k],
                j3 <= count,
                records@.len() == j3,
                forall|k: int|
                    0 <= k < j3 ==> records@[k] == spec_transition_at(s, base, count as int, k),
            decreases count - j3,
        {
            records.push(
                TransitionData { timestamp: times[j3], local_time_type_index: types[j3] },
            );
            j3 += 1;
        }
        Ok(records)
    }

    /// Reads exactly `count` raw bytes.
    fn read_octets(&mut self, count: usize) -> (r: Result<Vec<u8>, Error>)
        requires
            old(self).wf(),
        ensures
            final(self).wf(),
            final(self).buf@ == old(self).buf@,
            r is Ok <==> old(self).pos + count <= old(self).buf@.len(),
            r matches Ok(v) ==> final(self).pos == old(self).pos + count && v@ == old(
                self,
            ).buf@.subrange(old(self).pos as int, old(self).pos + count),
            r matches Err(e) ==> e == Error::Truncated,
    {
        let ghost base = self.pos as int;
        let ghost s = self.buf@;
        let mut octets: Vec<u8> = Vec::new();
        let mut j: usize = 0;
        while j < count
            invariant
                self.wf(),
                self.buf@ == s,
                s == old(self).buf@,
                base == old(self).pos as int,
                j <= count,
                self.pos as int == base + j,
                octets@.len() == j,
                forall|k: int| 0 <= k < j ==> octets@[k] == s[base + k],
            decreases count - j,
        {
            let b = match self.read_u8() {
                Ok(v) => v,
                Err(e) => return Err(e),
            };
            octets.push(b);
            j += 1;
        }
        proof {
            assert(octets@ =~= s.subrange(base, base + count));
        }
        Ok(octets)
    }

    /// Reads exactly `count` six-byte local-time-type records.
    fn read_local_time_type_data(&mut self, count: usize) -> (r: Result<
        Vec<LocalTimeTypeData>,
        Error,
    >)
        requires
            old(self).wf(),
        ensures
            final(self).wf(),
            final(self).buf@ == old(self).buf@,
            r is Ok <==> old(self).pos + 6 * count <= old(self).buf@.len(),
            r matches Ok(v) ==> {
                &&& final(self).pos == old(self).pos + 6 * count
                &&& v@.len() == count
                &&& forall|i: int|
                    0 <= i < count ==> v@[i] == spec_local_time_type_at(
                        old(self).buf@,
                        old(self).pos as int,
                        i,
                    )
            },
            r matches Err(e) ==> e == Error::Truncated,
    {
        let ghost base = self.pos as int;
        let ghost s = self.buf@;
        let mut records: Vec<LocalTimeTypeData> = Vec::new();
        let mut j: usize = 0;
        while j < count
            invariant
                self.wf(),
                self.buf@ == s,
                s == old(self).buf@,
                base == old(self).pos as int,
                j <= count,
                self.pos as int == base + 6 * j,
                records@.len() == j,
                forall|k: int| 0 <= k < j ==> records@[k] == spec_local_time_type_at(s, base, k),
            decreases count - j,
        {
            let offset = match self.read_i32_be() {
                Ok(v) => v,
                Err(e) => return Err(e),
            };
            let is_dst = match self.read_u8() {
                Ok(v) => v,
                Err(e) => return Err(e),
            };
            let name_offset = match self.read_u8() {
                Ok(v) => v,
                Err(e) => return Err(e),
            };
            records.push(LocalTimeTypeData { offset, is_dst, name_offset });
            j += 1;
        }
        Ok(records)
    }

    /// Reads exactly `count` eight-byte leap-second records.
    fn read_leap_second_data(&mut self, count: usize) -> (r: Result<Vec<LeapSecondData>, Error>)
        requires
            old(self).wf(),
        ensures
            final(self).wf(),
            final(self).buf@ == old(self).buf@,
            r is Ok <==> old(self).pos + 8 * count <= old(self).buf@.len(),
            r matches Ok(v) ==> {
                &&& final(self).pos == old(self).pos + 8 * count
                &&& v@.len() == count
                &&& forall|i: int|
                    0 <= i < count ==> v@[i] == spec_leap_second_at(
                        old(self).buf@,
                        old(self).pos as int,
                        i,
                    )
            },
            r matches Err(e) ==> e == Error::Truncated,
    {
        let ghost base = self.pos as int;
        let ghost s = self.buf@;
        let mut records: Vec<LeapSecondData> = Vec::new();
        let mut j: usize = 0;
        while j < count
            invariant
                self.wf(),
                self.buf@ == s,
                s == old(self).buf@,
                base == old(self).pos as int,
                j <= count,
                self.pos as int == base + 8 * j,
                records@.len() == j,
                forall|k: int| 0 <= k < j ==> records@[k] == spec_leap_second_at(s, base, k),
            decreases count - j,
        {
            let timestamp = match self.read_i32_be() {
                Ok(v) => v,
                Err(e) => return Err(e),
            };
            let leap_second_count = match self.read_i32_be() {
                Ok(v) => v,
                Err(e) => return Err(e),
            };
            records.push(LeapSecondData { timestamp, leap_second_count });
            j += 1;
        }
        Ok(records)
    }
}

/// Parse a series of bytes into a `TZData` structure.
///
/// Parsing succeeds exactly when the buffer begins with the fixed magic
/// signature, holds the whole 44-byte fixed prefix, declares counts that
/// are all within `limits`, and then holds every byte those counts
/// announce; the result is then the raw model read from the fixed layout.
/// The limits are checked before anything count-sized is allocated.
/// Trailing bytes after the announced sections are permitted and stay
/// unread.
pub fn parse(buf: Vec<u8>, limits: Limits) -> (r: Result<TZData, Error>)
    ensures
        r is Ok <==> spec_parse_ok(buf@, limits),
        r matches Ok(d) ==> d@ == spec_raw_of(buf@) && d@.wf(),
        r matches Err(e) ==> spec_parse_err_matches(e, buf@, limits),
{
    let ghost s = buf@;
    let mut parser = Parser::new(buf);
    match parser.read_magic_number() {
        Err(e) => return Err(e),
        Ok(()) => {},
    }
    match parser.skip_initial_zeroes() {
        Err(e) => return Err(e),
        Ok(()) => {},
    }
    let header = match parser.read_header() {
        Ok(h) => h,
        Err(e) => return Err(e),
    };
    match limits.verify(&header) {
        Err(e) => return Err(e),
        Ok(()) => {},
    }
    let transitions = match parser.read_transition_data(header.num_transitions as usize) {
        Ok(v) => v,
        Err(e) => return Err(e),
    };
    let time_info = match parser.read_local_time_type_data(header.num_local_time_types as usize) {
        Ok(v) => v,
        Err(e) => return Err(e),
    };
    let strings = match parser.read_octets(header.num_abbr_chars as usize) {
        Ok(v) => v,
        Err(e) => return Err(e),
    };
    let leap_seconds = match parser.read_leap_second_data(header.num_leap_seconds as usize) {
        Ok(v) => v,
        Err(e) => return Err(e),
    };
    let standard_flags = match parser.read_octets(header.num_standard_flags as usize) {
        Ok(v) => v,
        Err(e) => return Err(e),
    };
    let gmt_flags = match parser.read_octets(header.num_gmt_flags as usize) {
        Ok(v) => v,
        Err(e) => return Err(e),
    };
    let data = TZData {
        header,
        transitions,
        time_info,
        leap_seconds,
        strings,
        standard_flags,
        gmt_flags,
    };
    proof {
        assert(data@.transitions =~= spec_raw_of(s).transitions);
        assert(data@.time_info =~= spec_raw_of(s).time_info);
        assert(data@.leap_seconds =~= spec_raw_of(s).leap_seconds);
        assert(data@.strings =~= spec_raw_of(s).strings);
        assert(data@.standard_flags =~= spec_raw_of(s).standard_flags);
        assert(data@.gmt_flags =~= spec_raw_of(s).gmt_flags);
        assert(data@ =~= spec_raw_of(s));
    }
    Ok(data)
}

/// The error when a time zone file cannot be decoded.
#[derive(Debug, PartialEq, Eq, Copy, Clone)]
pub enum Error {
    /// The error when the first four bytes of the buffer weren't what they
    /// should be, reporting the bytes actually read.
    InvalidMagicNumber { bytes_read: [u8; 4] },

    /// The error when the buffer ran out before all the structures that the
    /// header announced could be read.
    Truncated,

    /// The error when too many structures would have been read from the
    /// buffer, in order to prevent this library from using too much memory.
    LimitReached {
        /// The type of structure that we attempted to read.
        structures: Structures,
        /// The number of these structures that we attempted to read.
        intended_count: u32,
        /// The maximum number of structures that we can get away with.
        limit: u32,
    },

    /// The error when an abbreviation name is not valid UTF-8.
    InvalidText,

    /// The error when a file doesn't contain any transitions or any local
    /// time types, so there is nothing to serve as the *base* offset from
    /// UTC.
    NoTransitions,

    /// The error when a transition refers to a local time type index beyond
    /// the set of local time types the file declared.
    InvalidTypeIndex,
}

impl Error {
    /// A short fixed description of the error kind.
    pub open spec fn spec_description(self) -> Seq<char> {
        match self {
            Error::InvalidMagicNumber { .. } => "invalid magic number"@,
            Error::Truncated => "truncated data"@,
            Error::LimitReached { .. } => "limit reached"@,
            Error::InvalidText => "invalid text"@,
            Error::NoTransitions => "no transitions"@,
            Error::InvalidTypeIndex => "invalid local time type index"@,
        }
    }

    /// A short fixed description of the error kind.
    pub fn description(&self) -> (r: &'static str)
        ensures
            r@ == self.spec_description(),
    {
        match *self {
            Error::InvalidMagicNumber { .. } => "invalid magic number",
            Error::Truncated => "truncated data",
            Error::LimitReached { .. } => "limit reached",
            Error::InvalidText => "invalid text",
            Error::NoTransitions => "no transitions",
            Error::InvalidTypeIndex => "invalid local time type index",
        }
    }
}

/// A description of which value is being read. This gets used solely for
/// error reporting.
#[derive(Debug, PartialEq, Eq, Copy, Clone)]
pub enum Structures {
    Transitions,
    LocalTimeTypes,
    LeapSeconds,
    GMTFlags,
    StandardFlags,
    TimezoneAbbrChars,
}

impl Structures {
    /// The name of the structure, as used in error messages.
    pub open spec fn spec_description(self) -> Seq<char> {
        match self {
            Structures::Transitions => "transitions"@,
            Structures::LocalTimeTypes => "local time types"@,
            Structures::LeapSeconds => "leap second"@,
            Structures::GMTFlags => "GMT flags"@,
            Structures::StandardFlags => "Standard Time flags"@,
            Structures::TimezoneAbbrChars => "timezone abbreviation chars"@,
        }
    }

    /// The name of the structure, as used in error messages.
    pub fn description(&self) -> (r: &'static str)
        ensures
            r@ == self.spec_description(),
    {
        match *self {
            Structures::Transitions => "transitions",
            Structures::LocalTimeTypes => "local time types",
            Structures::LeapSeconds => "leap second",
            Structures::GMTFlags => "GMT flags",
            Structures::StandardFlags => "Standard Time flags",
            Structures::TimezoneAbbrChars => "timezone abbreviation chars",
        }
    }
}

} // verus!
