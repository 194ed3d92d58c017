//! The record store: loosely-typed station records.
//!
//! A station record is a mapping from field name to field value, with the
//! field set determined by the CSV header at run time. It is modelled as
//! the sequence of (name, value) pairs in which fields were written, and
//! looked up from the end, so that a later write to the same name wins —
//! the observable behaviour of overwriting a keyed map entry.

use vstd::prelude::*;

verus! {

/// Looks a field name up in a pair sequence, from the end, so that the
/// latest write wins.
pub open spec fn field_lookup(fields: Seq<(Seq<char>, Seq<char>)>, name: Seq<char>) -> Option<
    Seq<char>,
>
    decreases fields.len(),
{
    if fields.len() == 0 {
        None
    } else if fields.last().0 == name {
        Some(fields.last().1)
    } else {
        field_lookup(fields.drop_last(), name)
    }
}

/// Looks a name up in a vector of (name, value) pairs, the latest write
/// winning.
pub fn lookup_field<'a>(fields: &'a Vec<(String, String)>, name: &String) -> (r: Option<
    &'a String,
>)
    ensures
        match r {
            Some(v) => field_lookup(fields.deep_view(), name@) == Some(v@),
            None => field_lookup(fields.deep_view(), name@) is None,
        },
{
    let ghost fv = fields.deep_view();
    let n = fields.len();
    proof {
        assert(fv.len() == n);
        assert(fv.take(n as int) =~= fv);
    }
    let mut i: usize = n;
    while i > 0
        invariant
            i <= n,
            n == fields.len(),
            fields.deep_view() == fv,
            field_lookup(fv, name@) == field_lookup(fv.take(i as int), name@),
        decreases i,
    {
        i = i - 1;
        proof {
            assert(fv.take(i + 1).drop_last() =~= fv.take(i as int));
            assert(fv.take(i + 1).last() == fv[i as int]);
        }
        if fields[i].0 == *name {
            return Some(&fields[i].1);
        }
    }
    proof {
        assert(fv.take(0) =~= Seq::<(Seq<char>, Seq<char>)>::empty());
    }
    None
}

/// One station's metadata: field names mapped to string values.
#[derive(Debug)]
pub struct StationRecord {
    fields: Vec<(String, String)>,
}

impl View for StationRecord {
    type V = Seq<(Seq<char>, Seq<char>)>;

    closed spec fn view(&self) -> Seq<(Seq<char>, Seq<char>)> {
        self.fields.deep_view()
    }
}

impl StationRecord {
    /// An empty record.
    pub fn new() -> (r: StationRecord)
        ensures
            r@ == Seq::<(Seq<char>, Seq<char>)>::empty(),
    {
        let r = StationRecord { fields: Vec::new() };
        proof {
            assert(r@ =~= Seq::<(Seq<char>, Seq<char>)>::empty());
        }
        r
    }

    /// Writes a field. A later write to the same name shadows an earlier
    /// one.
    pub fn insert(&mut self, name: String, value: String)
        ensures
            final(self)@ == old(self)@.push((name@, value@)),
    {
        let ghost pre = self@;
        self.fields.push((name, value));
        proof {
            assert(self@ =~= pre.push((name@, value@)));
        }
    }

    /// Reads the field of the given name, if the record has one.
    pub fn get<'a>(&'a self, name: &String) -> (r: Option<&'a String>)
        ensures
            match r {
                Some(v) => field_lookup(self@, name@) == Some(v@),
                None => field_lookup(self@, name@) is None,
            },
    {
        lookup_field(&self.fields, name)
    }

    /// The number of field writes the record holds.
    pub fn len(&self) -> (n: usize)
        ensures
            n == self@.len(),
    {
        self.fields.len()
    }
}

} // verus!
