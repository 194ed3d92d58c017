//! The metadata pipeline's record store and its operations.
//!
//! An `AURNMetadata` value owns the ordered sequence of station records:
//! populated once from the bulk CSV, then only shrunk by the date-range
//! filter or field-extended by enrichment, never re-populated or
//! reordered.

use vstd::prelude::*;
use crate::bulk::{acquired_records, acquisition_failure, records_from_csv};
use crate::clock::{clock_ranges, now_instant};
use crate::enrich::{anchor_selector, enrich_failure, enrich_record, enriched_fields};
use crate::error::PipelineError;
use crate::filter::{filter_records, keep_record};
use crate::instant::Instant;
use crate::page::selector_ok;
use crate::pattern::regex_ok;
use crate::record::StationRecord;

verus! {

/// The station metadata a pipeline run works on.
#[derive(Debug)]
pub struct AURNMetadata {
    metadata: Vec<StationRecord>,
}

impl View for AURNMetadata {
    type V = Seq<StationRecord>;

    closed spec fn view(&self) -> Seq<StationRecord> {
        self.metadata@
    }
}

impl AURNMetadata {
    /// Populates a metadata set from the bulk CSV text: either every data
    /// row becomes a record, or the first offending row aborts the whole
    /// acquisition and no records at all are returned.
    pub fn from_csv(csv_text: &String) -> (r: Result<AURNMetadata, PipelineError>)
        ensures
            match r {
                Ok(m) => acquired_records(csv_text@, m@),
                Err(e) => acquisition_failure(csv_text@, e),
            },
    {
        match records_from_csv(csv_text) {
            Ok(recs) => Ok(AURNMetadata { metadata: recs }),
            Err(e) => Err(e),
        }
    }

    /// Wraps an already-built record sequence.
    pub fn from_records(records: Vec<StationRecord>) -> (m: AURNMetadata)
        ensures
            m@ == records@,
    {
        AURNMetadata { metadata: records }
    }

    /// The number of records held.
    pub fn len(&self) -> (n: usize)
        ensures
            n == self@.len(),
    {
        self.metadata.len()
    }

    /// The record at an index.
    pub fn record<'a>(&'a self, i: usize) -> (r: &'a StationRecord)
        requires
            i < self@.len(),
        ensures
            *r == self@[i as int],
    {
        &self.metadata[i]
    }

    /// Enriches the record at an index from its station page; the other
    /// records are untouched.
    pub fn enrich_at(
        &mut self,
        i: usize,
        page_html: &String,
        marker: &String,
        token: &String,
    ) -> (r: Result<(), PipelineError>)
        requires
            i < old(self)@.len(),
        ensures
            final(self)@.len() == old(self)@.len(),
            forall|j: int|
                0 <= j < old(self)@.len() && j != i ==> final(self)@[j] == old(self)@[j],
            match r {
                Ok(_) => regex_ok(marker@) && regex_ok(token@) && selector_ok(anchor_selector())
                    && final(self)@[i as int]@ == enriched_fields(
                    old(self)@[i as int]@,
                    page_html@,
                    marker@,
                    token@,
                ),
                Err(e) => enrich_failure(marker@, token@, e) && final(self)@[i as int] == old(
                    self,
                )@[i as int],
            },
    {
        let ghost pre = self.metadata@;
        let mut rec = self.metadata.remove(i);
        let result = enrich_record(&mut rec, page_html, marker, token);
        self.metadata.insert(i, rec);
        proof {
            assert(self.metadata@ =~= pre.update(i as int, rec));
        }
        result
    }

    /// Removes every record whose operating window does not strictly
    /// overlap `[start_date, end_date]`, deciding against the given
    /// current instant; the kept records stay in order.
    pub fn select_between_dates_at(&mut self, start_date: Instant, end_date: Instant, now: Instant)
        ensures
            final(self)@ == filter_records(old(self)@, start_date, end_date, now),
    {
        let ghost orig = self.metadata@;
        let mut i: usize = self.metadata.len();
        proof {
            assert(orig.skip(i as int) =~= Seq::<StationRecord>::empty());
            assert(orig.take(i as int) =~= orig);
            assert(self.metadata@ =~= orig.take(i as int) + filter_records(
                orig.skip(i as int),
                start_date,
                end_date,
                now,
            ));
        }
        while i > 0
            invariant
                i <= orig.len(),
                self.metadata@ == orig.take(i as int) + filter_records(
                    orig.skip(i as int),
                    start_date,
                    end_date,
                    now,
                ),
            decreases i,
        {
            i = i - 1;
            proof {
                assert(orig.take(i + 1)[i as int] == orig[i as int]);
                assert(self.metadata@[i as int] == orig[i as int]);
                assert(orig.skip(i as int).first() == orig[i as int]);
                assert(orig.skip(i as int).drop_first() =~= orig.skip(i + 1));
            }
            let keep = keep_record(&self.metadata[i], start_date, end_date, now);
            if !keep {
                self.metadata.remove(i);
                proof {
                    assert(self.metadata@ =~= orig.take(i as int) + filter_records(
                        orig.skip(i as int),
                        start_date,
                        end_date,
                        now,
                    ));
                }
            } else {
                proof {
                    assert(orig.take(i + 1) =~= orig.take(i as int).push(orig[i as int]));
                    assert(self.metadata@ =~= orig.take(i as int) + filter_records(
                        orig.skip(i as int),
                        start_date,
                        end_date,
                        now,
                    ));
                }
            }
        }
        proof {
            assert(orig.skip(0) =~= orig);
            assert(self.metadata@ =~= filter_records(orig, start_date, end_date, now));
        }
    }

    /// Removes every record whose operating window does not strictly
    /// overlap `[start_date, end_date]`, reading the current instant from
    /// the clock: there is a current instant — within the clock's
    /// documented component ranges — against which the result is exactly
    /// the filtered sequence.
    pub fn select_between_dates(&mut self, start_date: Instant, end_date: Instant)
        ensures
            exists|now: Instant|
                clock_ranges(now) && final(self)@ == #[trigger] filter_records(
                    old(self)@,
                    start_date,
                    end_date,
                    now,
                ),
    {
        let now = now_instant();
        self.select_between_dates_at(start_date, end_date, now);
        proof {
            assert(clock_ranges(now) && self@ == filter_records(
                old(self)@,
                start_date,
                end_date,
                now,
            ));
        }
    }
}

} // verus!
