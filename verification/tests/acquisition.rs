use aurn_metadata::config::Config;
use aurn_metadata::instant::Instant;
use aurn_metadata::page::find_csv_link;
use aurn_metadata::AURNMetadata;
use aurn_metadata::PipelineError;

fn instant(year: i64, month: u32, day: u32) -> Instant {
    Instant { year, month, day, hour: 0, minute: 0, second: 0 }
}

fn full_config_pairs() -> Vec<(String, String)> {
    vec![
        ("Domain".to_string(), "https://uk-air.defra.gov.uk/".to_string()),
        (
            "Metadata Query".to_string(),
            "networks/find-sites?site_name=&pollutant=9999&group_id=4&closed=true&country_id=9999&region_id=9999&location_type=9999&search=Search+Network&view=advanced&action=results".to_string(),
        ),
        ("Site Info URN".to_string(), "networks/site-info?uka_id=".to_string()),
        ("Regex CSV Link".to_string(), "a[class=\"bCSV\"]".to_string()),
        ("Regex Site ID Link".to_string(), "\\?site_id=".to_string()),
        ("Regex Site ID Code".to_string(), "\\w*?$".to_string()),
    ]
}

#[test]
fn config_accepts_complete_pairs() {
    let cfg = Config::from_pairs(&full_config_pairs()).expect("complete config");
    assert_eq!(cfg.domain, "https://uk-air.defra.gov.uk/");
    assert_eq!(cfg.site_info_urn, "networks/site-info?uka_id=");
    assert_eq!(cfg.site_id_marker, "\\?site_id=");
    assert_eq!(cfg.site_id_token, "\\w*?$");
}

#[test]
fn config_reports_first_missing_key() {
    for key in [
        "Domain",
        "Metadata Query",
        "Site Info URN",
        "Regex CSV Link",
        "Regex Site ID Link",
        "Regex Site ID Code",
    ] {
        let pairs: Vec<(String, String)> =
            full_config_pairs().into_iter().filter(|(k, _)| k != key).collect();
        match Config::from_pairs(&pairs) {
            Err(PipelineError::MissingKey(k)) => assert_eq!(k, key),
            other => panic!("expected MissingKey({key}), got {other:?}"),
        }
    }
}

#[test]
fn config_rejects_bad_pattern() {
    let mut pairs = full_config_pairs();
    for (k, v) in pairs.iter_mut() {
        if k == "Regex Site ID Link" {
            *v = "(".to_string();
        }
    }
    match Config::from_pairs(&pairs) {
        Err(PipelineError::BadPattern(p)) => assert_eq!(p, "("),
        other => panic!("expected BadPattern, got {other:?}"),
    }
}

#[test]
fn config_rejects_bad_selector() {
    let mut pairs = full_config_pairs();
    for (k, v) in pairs.iter_mut() {
        if k == "Regex CSV Link" {
            *v = "a[".to_string();
        }
    }
    match Config::from_pairs(&pairs) {
        Err(PipelineError::BadSelector(s)) => assert_eq!(s, "a["),
        other => panic!("expected BadSelector, got {other:?}"),
    }
}

#[test]
fn config_builds_urls() {
    let cfg = Config::from_pairs(&full_config_pairs()).expect("complete config");
    assert!(cfg.metadata_url().starts_with("https://uk-air.defra.gov.uk/networks/find-sites?"));
    assert_eq!(
        cfg.site_url(&"UKA00001".to_string()),
        "https://uk-air.defra.gov.uk/networks/site-info?uka_id=UKA00001"
    );
}

#[test]
fn csv_link_found_on_listing_page() {
    let page = "<html><body>\
        <a class=\"other\" href=\"https://x/nope\">no</a>\
        <a class=\"bCSV\" href=\"https://x/download.csv\">CSV</a>\
        </body></html>"
        .to_string();
    let sel = "a[class=\"bCSV\"]".to_string();
    let link = find_csv_link(&page, &sel).expect("link should be found");
    assert_eq!(link, "https://x/download.csv");
}

#[test]
fn csv_link_absent_is_reported() {
    let page = "<html><body><a class=\"other\" href=\"https://x/nope\">no</a></body></html>"
        .to_string();
    let sel = "a[class=\"bCSV\"]".to_string();
    assert!(matches!(find_csv_link(&page, &sel), Err(PipelineError::LinkNotFound)));
}

#[test]
fn csv_link_bad_selector_is_reported() {
    let page = "<html></html>".to_string();
    let sel = "a[".to_string();
    match find_csv_link(&page, &sel) {
        Err(PipelineError::BadSelector(s)) => assert_eq!(s, "a["),
        other => panic!("expected BadSelector, got {other:?}"),
    }
}

#[test]
fn csv_decodes_into_records() {
    let text = "UK-AIR ID,Site Name,Start Date,End Date\n\
        UKA001,Alpha,2000-01-01,2010-01-01\n\
        UKA002,Beta,2018-03-01,\n"
        .to_string();
    let set = AURNMetadata::from_csv(&text).expect("well-formed csv");
    assert_eq!(set.len(), 2);
    let id_key = "UK-AIR ID".to_string();
    let name_key = "Site Name".to_string();
    let start_key = "Start Date".to_string();
    let end_key = "End Date".to_string();
    assert_eq!(set.record(0).get(&id_key), Some(&"UKA001".to_string()));
    assert_eq!(set.record(0).get(&name_key), Some(&"Alpha".to_string()));
    assert_eq!(set.record(0).get(&start_key), Some(&"2000-01-01".to_string()));
    assert_eq!(set.record(0).get(&end_key), Some(&"2010-01-01".to_string()));
    assert_eq!(set.record(1).get(&id_key), Some(&"UKA002".to_string()));
    assert_eq!(set.record(1).get(&end_key), Some(&"".to_string()));
}

// Acquisition atomicity: one malformed row aborts the whole acquisition;
// no partial record set is returned.
#[test]
fn malformed_row_aborts_acquisition() {
    let text = "UK-AIR ID,Site Name,Start Date,End Date\n\
        UKA001,Alpha,2000-01-01,2010-01-01\n\
        UKA002,Beta,2001-01-01\n\
        UKA003,Gamma,2002-01-01,\n"
        .to_string();
    match AURNMetadata::from_csv(&text) {
        Err(PipelineError::MalformedRow { row }) => assert_eq!(row, 1),
        other => panic!("expected MalformedRow, got {other:?}"),
    }
}

#[test]
fn row_without_identifier_aborts_acquisition() {
    let text = "UK-AIR ID,Site Name,Start Date,End Date\n\
        UKA001,Alpha,2000-01-01,2010-01-01\n\
        ,Beta,2001-01-01,\n"
        .to_string();
    match AURNMetadata::from_csv(&text) {
        Err(PipelineError::MissingId { row }) => assert_eq!(row, 1),
        other => panic!("expected MissingId, got {other:?}"),
    }
}

#[test]
fn missing_identifier_column_aborts_acquisition() {
    let text = "Site Name,Start Date,End Date\nAlpha,2000-01-01,2010-01-01\n".to_string();
    match AURNMetadata::from_csv(&text) {
        Err(PipelineError::MissingId { row }) => assert_eq!(row, 0),
        other => panic!("expected MissingId, got {other:?}"),
    }
}

// End-to-end: a three-row bulk CSV filtered by [2017-01-01, 2020-01-01]
// retains exactly the open-ended station and the recently opened one.
#[test]
fn three_station_scenario() {
    let text = "UK-AIR ID,Site Name,Start Date,End Date\n\
        UKA001,Open Ended,1990-01-01,\n\
        UKA002,Closed Early,1980-01-01,2005-06-30\n\
        UKA003,Recent,2018-03-01,\n"
        .to_string();
    let mut set = AURNMetadata::from_csv(&text).expect("well-formed csv");
    assert_eq!(set.len(), 3);
    set.select_between_dates_at(instant(2017, 1, 1), instant(2020, 1, 1), instant(2024, 6, 1));
    assert_eq!(set.len(), 2);
    let id_key = "UK-AIR ID".to_string();
    assert_eq!(set.record(0).get(&id_key), Some(&"UKA001".to_string()));
    assert_eq!(set.record(1).get(&id_key), Some(&"UKA003".to_string()));
}
