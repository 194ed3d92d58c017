//! Bulk acquisition: decode the stations CSV into records.
//!
//! The CSV's header row gives the field names; each data row becomes one
//! record pairing header names with row values. A row that cannot be
//! decoded against the header aborts the whole acquisition — partial
//! metadata with an unknown subset missing is worse than a hard failure —
//! as does a row without a non-empty station identifier.

use vstd::prelude::*;
use crate::error::PipelineError;
use crate::record::{field_lookup, StationRecord};

verus! {

/// The name of the station identifier field.
pub open spec fn station_id_key() -> Seq<char> {
    "UK-AIR ID"@
}

/// The header row of a CSV text, if one can be read.
pub uninterp spec fn csv_header_of(text: Seq<char>) -> Option<Seq<Seq<char>>>;

/// The data rows of a CSV text, in order; a row that cannot be decoded
/// against the header (a field-count mismatch) is `None`.
pub uninterp spec fn csv_rows_of(text: Seq<char>) -> Seq<Option<Seq<Seq<char>>>>;

/// Relies on csv::Reader::from_reader, Reader::headers and
/// Reader::records, reading non-flexibly: the first row is the header,
/// and each following row decodes to its fields, or to an error when its
/// field count differs from the header's (UnequalLengths).
#[verifier::external_body]
fn decode_csv(text: &String) -> (r: (Option<Vec<String>>, Vec<Option<Vec<String>>>))
    ensures
        r.0.deep_view() == csv_header_of(text@),
        r.1.deep_view() == csv_rows_of(text@),
{
    let mut reader = csv::Reader::from_reader(text.as_bytes());
    let header = match reader.headers() {
        Ok(h) => Some(h.iter().map(|f| f.to_string()).collect()),
        Err(_) => None,
    };
    let rows = reader
        .records()
        .map(|row| row.ok().map(|rec| rec.iter().map(|f| f.to_string()).collect()))
        .collect();
    (header, rows)
}

/// The fields of the record a data row yields: header names paired with
/// row values, position by position.
pub open spec fn record_fields_of(header: Seq<Seq<char>>, row: Seq<Seq<char>>) -> Seq<
    (Seq<char>, Seq<char>),
> {
    let n = if header.len() <= row.len() {
        header.len()
    } else {
        row.len()
    };
    Seq::new(n, |j: int| (header[j], row[j]))
}

/// Whether a data row carries a non-empty station identifier.
pub open spec fn row_has_id(header: Seq<Seq<char>>, row: Seq<Seq<char>>) -> bool {
    match field_lookup(record_fields_of(header, row), station_id_key()) {
        Some(v) => v.len() > 0,
        None => false,
    }
}

/// Builds one record from a data row.
fn build_record(header: &Vec<String>, row: &Vec<String>) -> (rec: StationRecord)
    ensures
        rec@ == record_fields_of(header.deep_view(), row.deep_view()),
{
    let mut rec = StationRecord::new();
    let n = if header.len() <= row.len() {
        header.len()
    } else {
        row.len()
    };
    let ghost target = record_fields_of(header.deep_view(), row.deep_view());
    proof {
        assert(rec@ =~= target.take(0));
    }
    let mut j: usize = 0;
    while j < n
        invariant
            j <= n,
            n == if header@.len() <= row@.len() {
                header@.len()
            } else {
                row@.len()
            },
            target == record_fields_of(header.deep_view(), row.deep_view()),
            target.len() == n,
            rec@ == target.take(j as int),
        decreases n - j,
    {
        rec.insert(header[j].clone(), row[j].clone());
        proof {
            assert(target.take(j + 1) =~= target.take(j as int).push(target[j as int]));
        }
        j = j + 1;
    }
    proof {
        assert(target.take(n as int) =~= target);
    }
    rec
}

/// A successful acquisition from a CSV text: one record per data row, in
/// row order, each pairing header names with row values and carrying a
/// non-empty station identifier.
pub open spec fn acquired_records(text: Seq<char>, recs: Seq<StationRecord>) -> bool {
    &&& csv_header_of(text) is Some
    &&& recs.len() == csv_rows_of(text).len()
    &&& forall|k: int|
        0 <= k < recs.len() ==> {
            &&& #[trigger] csv_rows_of(text)[k] is Some
            &&& recs[k]@ == record_fields_of(
                csv_header_of(text).unwrap(),
                csv_rows_of(text)[k].unwrap(),
            )
            &&& row_has_id(csv_header_of(text).unwrap(), csv_rows_of(text)[k].unwrap())
        }
}

/// A failed acquisition: the error names the first offending row — a row
/// that cannot be decoded, or the first without a non-empty identifier —
/// every row before it being decodable and carrying an identifier.
pub open spec fn acquisition_failure(text: Seq<char>, e: PipelineError) -> bool {
    match e {
        PipelineError::MalformedRow { row } => {
            ||| (csv_header_of(text) is None && row == 0)
            ||| {
                &&& csv_header_of(text) is Some
                &&& row < csv_rows_of(text).len()
                &&& csv_rows_of(text)[row as int] is None
                &&& forall|k: int|
                    0 <= k < row ==> #[trigger] csv_rows_of(text)[k] is Some && row_has_id(
                        csv_header_of(text).unwrap(),
                        csv_rows_of(text)[k].unwrap(),
                    )
            }
        },
        PipelineError::MissingId { row } => {
            &&& csv_header_of(text) is Some
            &&& row < csv_rows_of(text).len()
            &&& csv_rows_of(text)[row as int] is Some
            &&& !row_has_id(csv_header_of(text).unwrap(), csv_rows_of(text)[row as int].unwrap())
            &&& forall|k: int|
                0 <= k < row ==> #[trigger] csv_rows_of(text)[k] is Some && row_has_id(
                    csv_header_of(text).unwrap(),
                    csv_rows_of(text)[k].unwrap(),
                )
        },
        _ => false,
    }
}

/// Decodes the bulk CSV into station records: one record per data row,
/// in row order, pairing header names with row values. The whole
/// acquisition aborts on the first row that cannot be decoded against the
/// header, and on the first row without a non-empty station identifier —
/// on failure no records at all are returned.
pub fn records_from_csv(text: &String) -> (r: Result<Vec<StationRecord>, PipelineError>)
    ensures
        match r {
            Ok(recs) => acquired_records(text@, recs@),
            Err(e) => acquisition_failure(text@, e),
        },
{
    let (header_opt, rows) = decode_csv(text);
    let header = match header_opt {
        Some(h) => h,
        None => {
            return Err(PipelineError::MalformedRow { row: 0 });
        },
    };
    let ghost hdr = csv_header_of(text@).unwrap();
    let ghost rws = csv_rows_of(text@);
    proof {
        assert(header.deep_view() == hdr);
        assert(rows.deep_view() == rws);
    }
    let id_key = String::from_str("UK-AIR ID");
    let mut out: Vec<StationRecord> = Vec::new();
    let n = rows.len();
    let mut i: usize = 0;
    while i < n
        invariant
            i <= n,
            n == rows.len(),
            csv_header_of(text@) is Some,
            hdr == csv_header_of(text@).unwrap(),
            rws == csv_rows_of(text@),
            header.deep_view() == hdr,
            rows.deep_view() == rws,
            rws.len() == n,
            id_key@ == station_id_key(),
            out@.len() == i,
            forall|k: int|
                0 <= k < i ==> #[trigger] rws[k] is Some && out@[k]@ == record_fields_of(
                    hdr,
                    rws[k].unwrap(),
                ) && row_has_id(hdr, rws[k].unwrap()),
        decreases n - i,
    {
        let rec = match &rows[i] {
            Some(row) => {
                proof {
                    assert(rws[i as int] == rows@[i as int].deep_view());
                    assert(rws[i as int] == Some(row.deep_view()));
                }
                build_record(&header, row)
            },
            None => {
                proof {
                    assert(rws[i as int] == rows@[i as int].deep_view());
                    assert(rws[i as int] is None);
                }
                return Err(PipelineError::MalformedRow { row: i });
            },
        };
        match rec.get(&id_key) {
            Some(v) => {
                if v.as_str().is_empty() {
                    return Err(PipelineError::MissingId { row: i });
                }
            },
            None => {
                return Err(PipelineError::MissingId { row: i });
            },
        }
        out.push(rec);
        i = i + 1;
    }
    Ok(out)
}

} // verus!
