//! The date-range filter: decide for each station record whether its
//! operating window overlaps a caller-given `[start, end]` window.
//!
//! The record's date fields get a fixed midnight-UTC time component
//! appended, then the strict structural classification of
//! [`crate::instant`]. A malformed or missing start date degrades to the
//! minimum instant (the station has always existed); a malformed or
//! missing end date degrades to the current instant (the station is still
//! operating). A record is kept exactly when `window.start` is strictly
//! before the effective end and `window.end` is strictly after the
//! effective start: boundary equality means no overlap.

use vstd::prelude::*;
use crate::instant::{
    classify_date,
    is_strict_instant_str,
    parse_instant_str,
    spec_min_instant,
    Instant,
};
use crate::record::{field_lookup, StationRecord};

verus! {

/// The fixed time-of-day component appended to date-only fields.
pub open spec fn date_suffix() -> Seq<char> {
    "T00:00:00Z"@
}

/// The name of the start-of-operation date field.
pub open spec fn start_date_key() -> Seq<char> {
    "Start Date"@
}

/// The name of the end-of-operation date field.
pub open spec fn end_date_key() -> Seq<char> {
    "End Date"@
}

/// Whether the record's start-date field is present and, with the time
/// component appended, of the strict date-time shape.
pub open spec fn start_date_well_formed(r: Seq<(Seq<char>, Seq<char>)>) -> bool {
    match field_lookup(r, start_date_key()) {
        Some(s) => is_strict_instant_str(s + date_suffix()),
        None => false,
    }
}

/// Whether the record's end-date field is present and, with the time
/// component appended, of the strict date-time shape.
pub open spec fn end_date_well_formed(r: Seq<(Seq<char>, Seq<char>)>) -> bool {
    match field_lookup(r, end_date_key()) {
        Some(s) => is_strict_instant_str(s + date_suffix()),
        None => false,
    }
}

/// The instant the record's well-formed start-date field denotes.
pub open spec fn parsed_start_date(r: Seq<(Seq<char>, Seq<char>)>) -> Instant {
    parse_instant_str(field_lookup(r, start_date_key()).unwrap() + date_suffix())
}

/// The instant the record's well-formed end-date field denotes.
pub open spec fn parsed_end_date(r: Seq<(Seq<char>, Seq<char>)>) -> Instant {
    parse_instant_str(field_lookup(r, end_date_key()).unwrap() + date_suffix())
}

/// The effective start of operation: the parsed start date when well
/// formed, else the minimum instant.
pub open spec fn effective_start(r: Seq<(Seq<char>, Seq<char>)>) -> Instant {
    if start_date_well_formed(r) {
        parsed_start_date(r)
    } else {
        spec_min_instant()
    }
}

/// The effective end of operation: the parsed end date when well formed,
/// else the current instant `now`.
pub open spec fn effective_end(r: Seq<(Seq<char>, Seq<char>)>, now: Instant) -> Instant {
    if end_date_well_formed(r) {
        parsed_end_date(r)
    } else {
        now
    }
}

/// The keep decision: the station was operating at some point strictly
/// inside the window.
pub open spec fn keep_record_spec(
    r: Seq<(Seq<char>, Seq<char>)>,
    start: Instant,
    end: Instant,
    now: Instant,
) -> bool {
    start.spec_lt(effective_end(r, now)) && effective_start(r).spec_lt(end)
}

/// The records of `s` whose keep decision is positive, in order.
pub open spec fn filter_records(
    s: Seq<StationRecord>,
    start: Instant,
    end: Instant,
    now: Instant,
) -> Seq<StationRecord>
    decreases s.len(),
{
    if s.len() == 0 {
        s
    } else if keep_record_spec(s.first()@, start, end, now) {
        seq![s.first()] + filter_records(s.drop_first(), start, end, now)
    } else {
        filter_records(s.drop_first(), start, end, now)
    }
}

/// Decides whether a record is kept by the `[start, end]` window, with
/// `now` standing in for a missing or malformed end date.
pub fn keep_record(rec: &StationRecord, start: Instant, end: Instant, now: Instant) -> (b: bool)
    ensures
        b == keep_record_spec(rec@, start, end, now),
{
    let start_key = String::from_str("Start Date");
    let end_key = String::from_str("End Date");
    let eff_start = match rec.get(&start_key) {
        Some(v) => {
            let full = v.clone().concat("T00:00:00Z");
            match classify_date(full.as_str()) {
                Some(i) => i,
                None => Instant::min_instant(),
            }
        },
        None => Instant::min_instant(),
    };
    let eff_end = match rec.get(&end_key) {
        Some(v) => {
            let full = v.clone().concat("T00:00:00Z");
            match classify_date(full.as_str()) {
                Some(i) => i,
                None => now,
            }
        },
        None => now,
    };
    start.lt(&eff_end) && eff_start.lt(&end)
}

/// Overlap correctness: for a record with well-formed start and end dates
/// the keep decision is exactly the strict overlap test against the
/// parsed dates, whatever the current instant is.
pub proof fn lemma_overlap_correctness(
    r: Seq<(Seq<char>, Seq<char>)>,
    start: Instant,
    end: Instant,
    now: Instant,
)
    requires
        start_date_well_formed(r),
        end_date_well_formed(r),
    ensures
        keep_record_spec(r, start, end, now) == (start.spec_lt(parsed_end_date(r))
            && parsed_start_date(r).spec_lt(end)),
{
}

/// Default substitution: a record with a missing or malformed end date is
/// treated as operating until the current instant, so it is never dropped
/// for ending too early — its keep decision compares the window's start
/// against `now`, whatever the window is.
pub proof fn lemma_default_end_substitution(
    r: Seq<(Seq<char>, Seq<char>)>,
    start: Instant,
    end: Instant,
    now: Instant,
)
    requires
        !end_date_well_formed(r),
    ensures
        effective_end(r, now) == now,
        keep_record_spec(r, start, end, now) == (start.spec_lt(now) && effective_start(
            r,
        ).spec_lt(end)),
{
}

/// The start-side counterpart: a record with a missing or malformed
/// start date is treated as having always existed, so its keep decision
/// cannot fail on the start side — unless the window's end is the
/// minimum instant itself, nothing precedes it strictly.
pub proof fn lemma_default_start_substitution(
    r: Seq<(Seq<char>, Seq<char>)>,
    start: Instant,
    end: Instant,
    now: Instant,
)
    requires
        !start_date_well_formed(r),
    ensures
        effective_start(r) == spec_min_instant(),
        end != spec_min_instant() ==> keep_record_spec(r, start, end, now) == start.spec_lt(
            effective_end(r, now),
        ),
{
    crate::instant::lemma_min_instant_least(end);
}

/// Filtering only removes: the result is never longer than the input,
/// every record of the result is one of the input's, and every record of
/// the result passes the keep decision.
pub proof fn lemma_filter_only_removes(
    s: Seq<StationRecord>,
    start: Instant,
    end: Instant,
    now: Instant,
)
    ensures
        filter_records(s, start, end, now).len() <= s.len(),
        forall|k: int|
            0 <= k < filter_records(s, start, end, now).len() ==> s.contains(
                #[trigger] filter_records(s, start, end, now)[k],
            ),
        forall|k: int|
            0 <= k < filter_records(s, start, end, now).len() ==> keep_record_spec(
                (#[trigger] filter_records(s, start, end, now)[k])@,
                start,
                end,
                now,
            ),
    decreases s.len(),
{
    if s.len() == 0 {
    } else {
        let rest = s.drop_first();
        lemma_filter_only_removes(rest, start, end, now);
        let f = filter_records(s, start, end, now);
        let fr = filter_records(rest, start, end, now);
        assert forall|k: int| 0 <= k < fr.len() implies s.contains(fr[k]) by {
            assert(rest.contains(fr[k]));
            let j = choose|j: int| 0 <= j < rest.len() && rest[j] == fr[k];
            assert(s[j + 1] == rest[j]);
        }
        if keep_record_spec(s.first()@, start, end, now) {
            assert(f == seq![s.first()] + fr);
            assert(s.contains(s.first())) by {
                assert(s[0] == s.first());
            }
            assert forall|k: int| 0 <= k < f.len() implies s.contains(f[k]) && keep_record_spec(
                f[k]@,
                start,
                end,
                now,
            ) by {
                if k == 0 {
                    assert(f[0] == s.first());
                } else {
                    assert(f[k] == fr[k - 1]);
                }
            }
        } else {
            assert(f == fr);
        }
    }
}

/// Idempotence of the filter: applying the same window twice yields the
/// same records as applying it once, the keep decision of a record
/// depending on nothing but its own fields and the window.
pub proof fn lemma_filter_idempotent(s: Seq<StationRecord>, start: Instant, end: Instant, now: Instant)
    ensures
        filter_records(filter_records(s, start, end, now), start, end, now) == filter_records(
            s,
            start,
            end,
            now,
        ),
    decreases s.len(),
{
    if s.len() == 0 {
    } else {
        let rest = s.drop_first();
        lemma_filter_idempotent(rest, start, end, now);
        if keep_record_spec(s.first()@, start, end, now) {
            let f = filter_records(s, start, end, now);
            assert(f == seq![s.first()] + filter_records(rest, start, end, now));
            assert(f.len() > 0);
            assert(f.first() == s.first());
            assert(f.drop_first() =~= filter_records(rest, start, end, now));
            assert(filter_records(f, start, end, now) =~= f);
        } else {
            assert(filter_records(s, start, end, now) == filter_records(rest, start, end, now));
        }
    }
}

} // verus!
