//! Per-station enrichment: extract a site code from a station's page.
//!
//! A station's page carries data anchors; each anchor whose link target
//! matches the configured marker pattern carries a site code as a trailing
//! token, extracted by the configured token pattern. Every match
//! overwrites the previous one, so the last matching anchor in document
//! order wins. A page with no matching anchor leaves the record without a
//! site-code field; that is a per-record soft outcome, not an error.

use vstd::prelude::*;
use crate::error::PipelineError;
use crate::page::{hrefs_of, select_hrefs, selector_compiles, selector_ok};
use crate::pattern::{
    regex_compiles,
    regex_find,
    regex_find_first,
    regex_is_match,
    regex_match,
    regex_ok,
};
use crate::record::StationRecord;

verus! {

/// The name of the field enrichment writes.
pub open spec fn site_code_key() -> Seq<char> {
    "Site Code"@
}

/// The selector identifying the data anchors on a station's page.
pub open spec fn anchor_selector() -> Seq<char> {
    "a[class=\"bData\"]"@
}

/// The site code a sequence of anchor link targets yields: the token the
/// token pattern extracts from the last link target that the marker
/// pattern matches and the token pattern matches, if any.
pub open spec fn site_code_of(
    hrefs: Seq<Option<Seq<char>>>,
    marker: Seq<char>,
    token: Seq<char>,
) -> Option<Seq<char>>
    decreases hrefs.len(),
{
    if hrefs.len() == 0 {
        None
    } else {
        let earlier = site_code_of(hrefs.drop_last(), marker, token);
        match hrefs.last() {
            Some(h) => if regex_match(marker, h) && regex_find(token, h) is Some {
                regex_find(token, h)
            } else {
                earlier
            },
            None => earlier,
        }
    }
}

/// Whether one link target yields a site code: it exists, the marker
/// pattern matches it, and the token pattern extracts a token from it.
pub open spec fn anchor_yields(href: Option<Seq<char>>, marker: Seq<char>, token: Seq<char>) -> bool {
    match href {
        Some(h) => regex_match(marker, h) && regex_find(token, h) is Some,
        None => false,
    }
}

/// The last matching anchor wins: when the link target at position `k`
/// yields a token and no later one yields any, the site code is exactly
/// the token extracted at `k`.
pub proof fn lemma_last_matching_anchor_wins(
    hrefs: Seq<Option<Seq<char>>>,
    marker: Seq<char>,
    token: Seq<char>,
    k: int,
)
    requires
        0 <= k < hrefs.len(),
        anchor_yields(hrefs[k], marker, token),
        forall|j: int| k < j < hrefs.len() ==> !anchor_yields(#[trigger] hrefs[j], marker, token),
    ensures
        site_code_of(hrefs, marker, token) == regex_find(token, hrefs[k].unwrap()),
    decreases hrefs.len(),
{
    if k == hrefs.len() - 1 {
    } else {
        assert(!anchor_yields(hrefs.last(), marker, token));
        assert(hrefs.drop_last()[k] == hrefs[k]);
        lemma_last_matching_anchor_wins(hrefs.drop_last(), marker, token, k);
    }
}

/// A page on which no anchor yields a token leaves the site code absent.
pub proof fn lemma_no_matching_anchor(
    hrefs: Seq<Option<Seq<char>>>,
    marker: Seq<char>,
    token: Seq<char>,
)
    requires
        forall|j: int| 0 <= j < hrefs.len() ==> !anchor_yields(#[trigger] hrefs[j], marker, token),
    ensures
        site_code_of(hrefs, marker, token) is None,
    decreases hrefs.len(),
{
    if hrefs.len() == 0 {
    } else {
        assert(!anchor_yields(hrefs.last(), marker, token));
        lemma_no_matching_anchor(hrefs.drop_last(), marker, token);
    }
}

/// Scans link targets in order, keeping the token of the latest one that
/// matches the marker pattern.
fn scan_site_code(hrefs: &Vec<Option<String>>, marker: &String, token: &String) -> (r: Option<
    String,
>)
    requires
        regex_ok(marker@),
        regex_ok(token@),
    ensures
        r.deep_view() == site_code_of(hrefs.deep_view(), marker@, token@),
{
    let ghost hv = hrefs.deep_view();
    proof {
        assert(hv.take(0) =~= Seq::<Option<Seq<char>>>::empty());
    }
    let mut code: Option<String> = None;
    let n = hrefs.len();
    let mut i: usize = 0;
    while i < n
        invariant
            i <= n,
            n == hrefs.len(),
            hrefs.deep_view() == hv,
            regex_ok(marker@),
            regex_ok(token@),
            code.deep_view() == site_code_of(hv.take(i as int), marker@, token@),
        decreases n - i,
    {
        proof {
            assert(hv.take(i + 1).drop_last() =~= hv.take(i as int));
            assert(hv.take(i + 1).last() == hv[i as int]);
        }
        match &hrefs[i] {
            Some(h) => {
                if regex_is_match(marker, h) {
                    match regex_find_first(token, h) {
                        Some(t) => {
                            code = Some(t);
                        },
                        None => {},
                    }
                }
            },
            None => {},
        }
        i = i + 1;
    }
    proof {
        assert(hv.take(n as int) =~= hv);
    }
    code
}

/// The fields of a record after enrichment from a page: unchanged when no
/// anchor yields a site code, else extended by the site-code field.
pub open spec fn enriched_fields(
    r0: Seq<(Seq<char>, Seq<char>)>,
    page: Seq<char>,
    marker: Seq<char>,
    token: Seq<char>,
) -> Seq<(Seq<char>, Seq<char>)> {
    match site_code_of(hrefs_of(page, anchor_selector()), marker, token) {
        Some(t) => r0.push((site_code_key(), t)),
        None => r0,
    }
}

/// Which configuration failure enrichment yields: the first configured
/// pattern that does not compile, else the built-in anchor selector when
/// it does not parse.
pub open spec fn enrich_failure(marker: Seq<char>, token: Seq<char>, e: PipelineError) -> bool {
    match e {
        PipelineError::BadPattern(p) => {
            ||| (!regex_ok(marker) && p@ == marker)
            ||| (regex_ok(marker) && !regex_ok(token) && p@ == token)
        },
        PipelineError::BadSelector(s) => regex_ok(marker) && regex_ok(token) && !selector_ok(
            anchor_selector(),
        ) && s@ == anchor_selector(),
        _ => false,
    }
}

/// Enriches one record from its station page: scans the page's data
/// anchors and writes the site code of the last anchor matching the
/// marker pattern, overwriting on each match. With no matching anchor the
/// record is left as it is. Fails only when a configured pattern or the
/// built-in anchor selector does not compile.
pub fn enrich_record(
    rec: &mut StationRecord,
    page_html: &String,
    marker: &String,
    token: &String,
) -> (r: Result<(), PipelineError>)
    ensures
        match r {
            Ok(_) => regex_ok(marker@) && regex_ok(token@) && selector_ok(anchor_selector()) && (
            final(rec)@ == enriched_fields(old(rec)@, page_html@, marker@, token@)),
            Err(e) => enrich_failure(marker@, token@, e) && *final(rec) == *old(rec),
        },
{
    if !regex_compiles(marker) {
        return Err(PipelineError::BadPattern(marker.clone()));
    }
    if !regex_compiles(token) {
        return Err(PipelineError::BadPattern(token.clone()));
    }
    let sel = String::from_str("a[class=\"bData\"]");
    if !selector_compiles(&sel) {
        return Err(PipelineError::BadSelector(sel));
    }
    let hrefs = select_hrefs(page_html, &sel);
    match scan_site_code(&hrefs, marker, token) {
        Some(t) => {
            rec.insert(String::from_str("Site Code"), t);
        },
        None => {},
    }
    Ok(())
}

} // verus!
