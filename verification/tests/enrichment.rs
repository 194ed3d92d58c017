use aurn_metadata::enrich::enrich_record;
use aurn_metadata::record::StationRecord;
use aurn_metadata::AURNMetadata;
use aurn_metadata::PipelineError;

fn marker() -> String {
    "\\?site_id=".to_string()
}

fn token() -> String {
    "\\w*?$".to_string()
}

fn base_record(id: &str) -> StationRecord {
    let mut rec = StationRecord::new();
    rec.insert("UK-AIR ID".to_string(), id.to_string());
    rec
}

// Enrichment overwrite order: with two matching anchors on the page, the
// token of the last one in document order wins.
#[test]
fn last_matching_anchor_wins() {
    let page = "<html><body>\
        <a class=\"bData\" href=\"https://x/?site_id=ABC1\">first</a>\
        <a class=\"bData\" href=\"https://x/unrelated\">skip</a>\
        <a class=\"bData\" href=\"https://x/?site_id=XYZ9\">second</a>\
        </body></html>"
        .to_string();
    let mut rec = base_record("UKA001");
    enrich_record(&mut rec, &page, &marker(), &token()).expect("patterns compile");
    let code_key = "Site Code".to_string();
    assert_eq!(rec.get(&code_key), Some(&"XYZ9".to_string()));
}

#[test]
fn single_matching_anchor_yields_its_token() {
    let page = "<html><body>\
        <a class=\"bData\" href=\"https://x/?site_id=ABC1\">only</a>\
        </body></html>"
        .to_string();
    let mut rec = base_record("UKA002");
    enrich_record(&mut rec, &page, &marker(), &token()).expect("patterns compile");
    let code_key = "Site Code".to_string();
    assert_eq!(rec.get(&code_key), Some(&"ABC1".to_string()));
}

// Anchors of other classes, and matching anchors without a link target,
// do not contribute.
#[test]
fn non_data_anchors_are_ignored() {
    let page = "<html><body>\
        <a class=\"other\" href=\"https://x/?site_id=WRONG\">no</a>\
        <a class=\"bData\">no target</a>\
        <a class=\"bData\" href=\"https://x/?site_id=GOOD\">yes</a>\
        </body></html>"
        .to_string();
    let mut rec = base_record("UKA003");
    enrich_record(&mut rec, &page, &marker(), &token()).expect("patterns compile");
    let code_key = "Site Code".to_string();
    assert_eq!(rec.get(&code_key), Some(&"GOOD".to_string()));
}

// A page without a matching anchor leaves the record without a site-code
// field; that is not an error.
#[test]
fn no_matching_anchor_is_soft() {
    let page = "<html><body>\
        <a class=\"bData\" href=\"https://x/unrelated\">skip</a>\
        </body></html>"
        .to_string();
    let mut rec = base_record("UKA004");
    enrich_record(&mut rec, &page, &marker(), &token()).expect("patterns compile");
    let code_key = "Site Code".to_string();
    assert_eq!(rec.get(&code_key), None);
    assert_eq!(rec.len(), 1);
}

#[test]
fn bad_marker_pattern_is_reported() {
    let page = "<html></html>".to_string();
    let mut rec = base_record("UKA005");
    match enrich_record(&mut rec, &page, &"(".to_string(), &token()) {
        Err(PipelineError::BadPattern(p)) => assert_eq!(p, "("),
        other => panic!("expected BadPattern, got {other:?}"),
    }
}

#[test]
fn bad_token_pattern_is_reported() {
    let page = "<html></html>".to_string();
    let mut rec = base_record("UKA006");
    match enrich_record(&mut rec, &page, &marker(), &"(".to_string()) {
        Err(PipelineError::BadPattern(p)) => assert_eq!(p, "("),
        other => panic!("expected BadPattern, got {other:?}"),
    }
}

// Enriching one record of a set touches no other record.
#[test]
fn enrich_at_touches_one_record() {
    let text = "UK-AIR ID,Site Name\nUKA007,Alpha\nUKA008,Beta\n".to_string();
    let mut set = AURNMetadata::from_csv(&text).expect("well-formed csv");
    let page = "<html><body>\
        <a class=\"bData\" href=\"https://x/?site_id=CODE7\">a</a>\
        </body></html>"
        .to_string();
    set.enrich_at(0, &page, &marker(), &token()).expect("patterns compile");
    let code_key = "Site Code".to_string();
    assert_eq!(set.record(0).get(&code_key), Some(&"CODE7".to_string()));
    assert_eq!(set.record(1).get(&code_key), None);
}
