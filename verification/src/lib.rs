//! This is a library for parsing compiled zoneinfo ("TZif") files.
//!
//! Decoding happens in two stages. The structural stage, in the [`parser`]
//! module, turns a raw byte buffer into strongly-typed raw records while
//! holding the header counts against a configurable [`parser::Limits`]
//! policy. The cooking stage, in this module, resolves the indirections
//! those records carry — name-pool offsets, per-type flag arrays split
//! into two parallel blocks, and type indices — into a self-contained
//! model: an ordered timeline of transitions, a catalog of leap seconds,
//! and a base regime that is in effect before any recorded transition.

use vstd::prelude::*;

pub mod parser;

verus! {

use crate::parser::{Error, TZDataView};

/// The bytes of an abbreviation name: scanning forward from `start` in the
/// pool until a NUL byte, or until the end of the pool when no NUL
/// follows.
pub open spec fn spec_name_bytes(pool: Seq<u8>, start: int) -> Seq<u8>
    decreases pool.len() - start,
{
    if start < 0 || start >= pool.len() || pool[start] == 0 {
        Seq::empty()
    } else {
        seq![pool[start]] + spec_name_bytes(pool, start + 1)
    }
}

/// Name extraction reads nothing beyond the first NUL after the offset:
/// two pools that agree from the start offset up to and including a NUL
/// byte yield the same name, whatever either pool holds elsewhere.
pub proof fn lemma_name_bytes_local(p1: Seq<u8>, p2: Seq<u8>, start: int, stop: int)
    requires
        0 <= start <= stop,
        stop < p1.len(),
        stop < p2.len(),
        p1[stop] == 0,
        forall|k: int| start <= k <= stop ==> p1[k] == p2[k],
    ensures
        spec_name_bytes(p1, start) == spec_name_bytes(p2, start),
    decreases stop - start,
{
    if p1[start] == 0 {
        assert(spec_name_bytes(p1, start) =~= spec_name_bytes(p2, start));
    } else {
        lemma_name_bytes_local(p1, p2, start + 1, stop);
        assert(spec_name_bytes(p1, start) =~= spec_name_bytes(p2, start));
    }
}

/// Isolates the bytes of a name by the index of the start of the string
/// and the next available NUL byte. If the pool ends before a NUL is
/// found, the name is simply the remaining bytes.
pub fn extract_name(pool: &Vec<u8>, start: u8) -> (r: Vec<u8>)
    ensures
        r@ == spec_name_bytes(pool@, start as int),
{
    let mut name: Vec<u8> = Vec::new();
    let mut i: usize = start as usize;
    while i < pool.len() && pool[i] != 0
        invariant
            start as int <= i as int,
            spec_name_bytes(pool@, start as int) == name@ + spec_name_bytes(pool@, i as int),
        decreases pool@.len() - i,
    {
        let ghost prev = i as int;
        let b = pool[i];
        name.push(b);
        i += 1;
        proof {
            assert(spec_name_bytes(pool@, prev) == seq![b] + spec_name_bytes(pool@, i as int));
            assert(name@ + spec_name_bytes(pool@, i as int) =~= spec_name_bytes(
                pool@,
                start as int,
            ));
        }
    }
    proof {
        assert(spec_name_bytes(pool@, i as int) =~= Seq::<u8>::empty());
        assert(name@ + Seq::<u8>::empty() =~= name@);
    }
    name
}

/// Whether the flag at index `i` of a flag array is set. An index beyond
/// the end of the array counts as an unset flag rather than an error: the
/// explicit defaulted-to-false policy for files whose flag arrays are
/// shorter than their local-time-type catalog.
pub open spec fn spec_flag_at(flags: Seq<u8>, i: int) -> bool {
    0 <= i < flags.len() && flags[i] != 0
}

/// Reads the flag at index `i`, defaulting to an unset flag when the
/// array is too short (see [`spec_flag_at`]).
pub fn flag_at(flags: &Vec<u8>, i: usize) -> (r: bool)
    ensures
        r == spec_flag_at(flags@, i as int),
{
    if i < flags.len() {
        flags[i] != 0
    } else {
        false
    }
}

/// Combines the two per-type flags into a single transition-time
/// classification, giving the UTC flag precedence over the standard flag.
pub open spec fn spec_time_type(standard: bool, utc: bool) -> TimeType {
    if utc {
        TimeType::UTC
    } else if standard {
        TimeType::Standard
    } else {
        TimeType::Wall
    }
}

/// How the transition times of a local time type are to be interpreted.
#[derive(Debug, PartialEq, Eq, Copy, Clone)]
pub enum TimeType {
    /// Transition times are standard time.
    Standard,

    /// Transition times are wall-clock time.
    Wall,

    /// Transition times are UTC.
    UTC,
}

/// Combine the two flags to get the type of this transition.
///
/// The transition type is stored as two separate flags in the data file.
/// The first set comes completely before the second, so these can only be
/// combined after the entire file has been read. For every pair of flags,
/// a set UTC flag yields UTC regardless of the standard flag; otherwise a
/// set standard flag yields Standard, and two unset flags yield Wall.
pub fn flags_to_transition_type(standard: bool, gmt: bool) -> (r: TimeType)
    ensures
        r == spec_time_type(standard, gmt),
        gmt ==> r == TimeType::UTC,
        !gmt && standard ==> r == TimeType::Standard,
        !gmt && !standard ==> r == TimeType::Wall,
{
    match (standard, gmt) {
        (_, true) => TimeType::UTC,
        (true, _) => TimeType::Standard,
        (false, false) => TimeType::Wall,
    }
}

/// The abstract content of a cooked local time type.
#[verifier::ext_equal]
pub struct LocalTimeTypeView {
    pub name: Seq<char>,
    pub offset: int,
    pub is_dst: bool,
    pub transition_type: TimeType,
}

/// A description of the local time in a particular timezone, during the
/// period in which the clocks do not change.
#[derive(Debug, PartialEq, Clone)]
pub struct LocalTimeType {
    /// The time zone abbreviation - such as "GMT" or "UTC".
    pub name: String,

    /// Number of seconds to be added to Universal Time.
    pub offset: i64,

    /// Whether to set DST.
    pub is_dst: bool,

    /// The current 'type' of time.
    pub transition_type: TimeType,
}

impl View for LocalTimeType {
    type V = LocalTimeTypeView;

    open spec fn view(&self) -> LocalTimeTypeView {
        LocalTimeTypeView {
            name: self.name@,
            offset: self.offset as int,
            is_dst: self.is_dst,
            transition_type: self.transition_type,
        }
    }
}

impl LocalTimeType {
    /// An exact copy of this local time type. Many transitions may refer
    /// to the same type, and each receives its own copy of the catalog
    /// entry.
    pub fn duplicate(&self) -> (r: LocalTimeType)
        ensures
            r == *self,
    {
        LocalTimeType {
            name: self.name.clone(),
            offset: self.offset,
            is_dst: self.is_dst,
            transition_type: self.transition_type,
        }
    }
}

/// A leap second specification.
#[derive(Debug, PartialEq, Eq, Copy, Clone)]
pub struct LeapSecond {
    /// Unix timestamp at which a leap second occurs.
    pub timestamp: i32,

    /// Number of leap seconds to be added.
    pub leap_second_count: i32,
}

/// The ordered timeline of a zone: the base regime, treated as having
/// always been in effect, and then the forward transitions in file order,
/// each carrying the timestamp at which it takes effect and the local time
/// type it changes to.
#[derive(Debug, PartialEq, Clone)]
pub struct FixedTimespanSet {
    /// The local time type in effect before any recorded transition.
    pub first: LocalTimeType,

    /// The remaining transitions, in the order given in the file.
    pub rest: Vec<(i64, LocalTimeType)>,
}

/// Parsed, interpreted contents of a zoneinfo file.
#[derive(Debug, PartialEq, Clone)]
pub struct TZData {
    /// The timeline of transitions that is described in this data.
    pub time_zone: FixedTimespanSet,

    /// The leap seconds that are described in this data.
    pub leap_seconds: Vec<LeapSecond>,
}

/// Relies on `String::from_utf8`: it succeeds exactly on byte sequences
/// that are valid UTF-8, and then returns the string whose characters are
/// the decoding of those bytes.
#[verifier::external_body]
fn string_from_utf8(bytes: Vec<u8>) -> (r: Result<String, Error>)
    ensures
        r is Ok <==> vstd::utf8::valid_utf8(bytes@),
        r matches Ok(s) ==> s@ == vstd::utf8::decode_utf8(bytes@),
        r matches Err(e) ==> e == Error::InvalidText,
{
    match String::from_utf8(bytes) {
        Ok(s) => Ok(s),
        Err(_) => Err(Error::InvalidText),
    }
}

/// The name bytes of local time type `i`: from its name offset in the
/// abbreviation pool to the first NUL.
pub open spec fn spec_type_name_bytes(tz: TZDataView, i: int) -> Seq<u8> {
    spec_name_bytes(tz.strings, tz.time_info[i].name_offset as int)
}

/// The cooked view of local time type `i` of the raw data: resolved name,
/// offset, DST flag, and the classification merged from the two flag
/// arrays.
pub open spec fn spec_type_view(tz: TZDataView, i: int) -> LocalTimeTypeView {
    LocalTimeTypeView {
        name: vstd::utf8::decode_utf8(spec_type_name_bytes(tz, i)),
        offset: tz.time_info[i].offset as int,
        is_dst: tz.time_info[i].is_dst != 0,
        transition_type: spec_time_type(
            spec_flag_at(tz.standard_flags, i),
            spec_flag_at(tz.gmt_flags, i),
        ),
    }
}

/// Whether every local time type's name resolves to valid UTF-8.
pub open spec fn spec_names_ok(tz: TZDataView) -> bool {
    forall|i: int|
        0 <= i < tz.time_info.len() ==> vstd::utf8::valid_utf8(#[trigger] spec_type_name_bytes(tz, i))
}

/// Whether every transition's type index refers to a local time type the
/// file declared.
pub open spec fn spec_indexes_ok(tz: TZDataView) -> bool {
    forall|i: int|
        0 <= i < tz.transitions.len() ==> (#[trigger] tz.transitions[i]).local_time_type_index
            < tz.time_info.len()
}

/// When cooking succeeds: every name is text, every type index resolves,
/// and there is at least one transition or one local time type to serve as
/// the base regime.
pub open spec fn spec_cook_ok(tz: TZDataView) -> bool {
    &&& spec_names_ok(tz)
    &&& spec_indexes_ok(tz)
    &&& tz.transitions.len() > 0 || tz.time_info.len() > 0
}

/// Which error a failed cook reports: a name that is not text wins (the
/// catalog is built before the transitions are linked), then a dangling
/// type index, then the empty-model case.
pub open spec fn spec_cook_err(tz: TZDataView) -> Error {
    if !spec_names_ok(tz) {
        Error::InvalidText
    } else if !spec_indexes_ok(tz) {
        Error::InvalidTypeIndex
    } else {
        Error::NoTransitions
    }
}

/// What a cooked model holds: the leap seconds copied field for field;
/// when the file records no transitions, local time type 0 as the base
/// regime and an empty timeline; and otherwise the first transition's type
/// as the base regime (its timestamp is discarded) with the remaining
/// transitions, in file order, as the forward timeline.
pub open spec fn spec_cooked_matches(m: TZData, tz: TZDataView) -> bool {
    let t = tz.transitions.len() as int;
    &&& m.leap_seconds@.len() == tz.leap_seconds.len()
    &&& (forall|i: int|
        0 <= i < tz.leap_seconds.len() ==> (#[trigger] m.leap_seconds@[i]).timestamp
            == tz.leap_seconds[i].timestamp && m.leap_seconds@[i].leap_second_count
            == tz.leap_seconds[i].leap_second_count)
    &&& if t == 0 {
        m.time_zone.first@ == spec_type_view(tz, 0) && m.time_zone.rest@.len() == 0
    } else {
        &&& m.time_zone.first@ == spec_type_view(
            tz,
            tz.transitions[0].local_time_type_index as int,
        )
        &&& m.time_zone.rest@.len() == t - 1
        &&& (forall|j: int|
            0 <= j < t - 1 ==> (#[trigger] m.time_zone.rest@[j]).0 == tz.transitions[j
                + 1].timestamp as i64 && m.time_zone.rest@[j].1@ == spec_type_view(
                tz,
                tz.transitions[j + 1].local_time_type_index as int,
            ))
    }
}

/// Cooking a raw model with M transitions yields exactly M - 1 forward
/// transitions when M > 0, since one of them is consumed as the base
/// regime; and with no transitions at all it yields an empty forward
/// timeline whose base regime is local time type 0.
pub proof fn lemma_cook_transition_count(m: TZData, tz: TZDataView)
    requires
        spec_cooked_matches(m, tz),
    ensures
        tz.transitions.len() > 0 ==> m.time_zone.rest@.len() == tz.transitions.len() - 1,
        tz.transitions.len() == 0 ==> m.time_zone.rest@.len() == 0 && m.time_zone.first@
            == spec_type_view(tz, 0),
{
}

/// Interpret a set of raw time zone data.
///
/// First builds the local-time-type catalog: each type's name is resolved
/// against the abbreviation pool and validated as UTF-8, and its
/// classification is merged from the two flag arrays. Then each transition
/// is linked with the type its index refers to; an index beyond the
/// catalog is reported as an error rather than a fault. The leap seconds
/// are copied as they are. When the file records no transitions, local
/// time type 0 serves as the base regime; otherwise the first transition
/// is removed from the list and its type becomes the base regime, treated
/// as having been in effect forever.
pub fn cook(tz: parser::TZData) -> (r: Result<TZData, Error>)
    requires
        tz@.wf(),
    ensures
        r is Ok <==> spec_cook_ok(tz@),
        r matches Ok(m) ==> spec_cooked_matches(m, tz@),
        r matches Err(e) ==> e == spec_cook_err(tz@),
{
    let mut local_time_types: Vec<LocalTimeType> = Vec::new();
    let mut i: usize = 0;
    while i < tz.time_info.len()
        invariant
            tz@.wf(),
            i <= tz.time_info@.len(),
            local_time_types@.len() == i,
            forall|k: int|
                0 <= k < i ==> vstd::utf8::valid_utf8(#[trigger] spec_type_name_bytes(tz@, k)),
            forall|k: int|
                0 <= k < i ==> (#[trigger] local_time_types@[k])@ == spec_type_view(tz@, k),
        decreases tz.time_info@.len() - i,
    {
        let info = tz.time_info[i];
        let name_bytes = extract_name(&tz.strings, info.name_offset);
        let name = match string_from_utf8(name_bytes) {
            Ok(s) => s,
            Err(e) => {
                proof {
                    assert(!vstd::utf8::valid_utf8(spec_type_name_bytes(tz@, i as int)));
                }
                return Err(e);
            },
        };
        let std_flag = flag_at(&tz.standard_flags, i);
        let gmt_flag = flag_at(&tz.gmt_flags, i);
        let ltt = LocalTimeType {
            name,
            offset: info.offset as i64,
            is_dst: info.is_dst != 0,
            transition_type: flags_to_transition_type(std_flag, gmt_flag),
        };
        local_time_types.push(ltt);
        i += 1;
    }
    let mut leap_seconds: Vec<LeapSecond> = Vec::new();
    let mut li: usize = 0;
    while li < tz.leap_seconds.len()
        invariant
            li <= tz.leap_seconds@.len(),
            leap_seconds@.len() == li,
            forall|k: int|
                0 <= k < li ==> (#[trigger] leap_seconds@[k]).timestamp
                    == tz.leap_seconds@[k].timestamp && leap_seconds@[k].leap_second_count
                    == tz.leap_seconds@[k].leap_second_count,
        decreases tz.leap_seconds@.len() - li,
    {
        let ls = tz.leap_seconds[li];
        leap_seconds.push(
            LeapSecond { timestamp: ls.timestamp, leap_second_count: ls.leap_second_count },
        );
        li += 1;
    }
    if tz.transitions.len() == 0 {
        if local_time_types.len() == 0 {
            return Err(Error::NoTransitions);
        }
        let first = local_time_types[0].duplicate();
        Ok(TZData { time_zone: FixedTimespanSet { first, rest: Vec::new() }, leap_seconds })
    } else {
        let first_index = tz.transitions[0].local_time_type_index as usize;
        if first_index >= local_time_types.len() {
            return Err(Error::InvalidTypeIndex);
        }
        let mut rest: Vec<(i64, LocalTimeType)> = Vec::new();
        let mut ti: usize = 1;
        while ti < tz.transitions.len()
            invariant
                tz@.wf(),
                spec_names_ok(tz@),
                1 <= ti <= tz.transitions@.len(),
                local_time_types@.len() == tz@.time_info.len(),
                forall|k: int|
                    0 <= k < local_time_types@.len() ==> (#[trigger] local_time_types@[k])@
                        == spec_type_view(tz@, k),
                rest@.len() == ti - 1,
                forall|j: int|
                    0 <= j < ti - 1 ==> (#[trigger] rest@[j]).0 == tz.transitions@[j
                        + 1].timestamp as i64 && rest@[j].1@ == spec_type_view(
                        tz@,
                        tz.transitions@[j + 1].local_time_type_index as int,
                    ),
                forall|j: int|
                    0 <= j < ti ==> (#[trigger] tz.transitions@[j]).local_time_type_index
                        < local_time_types@.len(),
            decreases tz.transitions@.len() - ti,
        {
            let tr = tz.transitions[ti];
            let index = tr.local_time_type_index as usize;
            if index >= local_time_types.len() {
                proof {
                    assert(!spec_indexes_ok(tz@));
                }
                return Err(Error::InvalidTypeIndex);
            }
            rest.push((tr.timestamp as i64, local_time_types[index].duplicate()));
            ti += 1;
        }
        let first = local_time_types[first_index].duplicate();
        Ok(TZData { time_zone: FixedTimespanSet { first, rest }, leap_seconds })
    }
}

/// Which error a failed decode reports: the structural errors, in their
/// own order of precedence, and then the cooking errors.
pub open spec fn spec_decode_err_matches(e: Error, s: Seq<u8>) -> bool {
    if !parser::spec_parse_ok(s, parser::spec_limits_sensible()) {
        parser::spec_parse_err_matches(e, s, parser::spec_limits_sensible())
    } else {
        e == spec_cook_err(parser::spec_raw_of(s))
    }
}

/// Parses a series of bytes into a timezone data structure, reading the
/// raw structures under the sensible default limits and then cooking them
/// into the resolved model.
pub fn parse(input: Vec<u8>) -> (r: Result<TZData, Error>)
    ensures
        r is Ok <==> parser::spec_parse_ok(input@, parser::spec_limits_sensible())
            && spec_cook_ok(parser::spec_raw_of(input@)),
        r matches Ok(m) ==> spec_cooked_matches(m, parser::spec_raw_of(input@)),
        r matches Err(e) ==> spec_decode_err_matches(e, input@),
{
    let limits = parser::Limits::sensible();
    let raw = match parser::parse(input, limits) {
        Ok(d) => d,
        Err(e) => return Err(e),
    };
    cook(raw)
}

} // verus!
