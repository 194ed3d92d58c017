use aurn_metadata::record::StationRecord;
use aurn_metadata::AURNMetadata;

#[test]
fn empty_record_has_no_fields() {
    let rec = StationRecord::new();
    assert_eq!(rec.len(), 0);
    assert_eq!(rec.get(&"UK-AIR ID".to_string()), None);
}

#[test]
fn fields_are_read_back() {
    let mut rec = StationRecord::new();
    rec.insert("UK-AIR ID".to_string(), "UKA001".to_string());
    rec.insert("Site Name".to_string(), "Alpha".to_string());
    assert_eq!(rec.get(&"UK-AIR ID".to_string()), Some(&"UKA001".to_string()));
    assert_eq!(rec.get(&"Site Name".to_string()), Some(&"Alpha".to_string()));
    assert_eq!(rec.get(&"Absent".to_string()), None);
}

// Writing the same field name again shadows the earlier value, the
// behaviour of overwriting a keyed map entry.
#[test]
fn later_write_to_equal_key_wins() {
    let mut rec = StationRecord::new();
    rec.insert("Site Code".to_string(), "OLD1".to_string());
    rec.insert("Site Code".to_string(), "NEW2".to_string());
    assert_eq!(rec.get(&"Site Code".to_string()), Some(&"NEW2".to_string()));
}

#[test]
fn header_only_csv_yields_empty_set() {
    let text = "UK-AIR ID,Site Name,Start Date,End Date\n".to_string();
    let set = AURNMetadata::from_csv(&text).expect("header-only csv");
    assert_eq!(set.len(), 0);
}
