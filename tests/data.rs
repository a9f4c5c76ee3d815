use postnl::data::{ClockTime, DeliveryStatus, Hours, PartyType, RawHours, ShipmentType};

#[test]
fn hours_parse_both_ends() {
    let raw = RawHours { from: "08:30".to_string(), to: "17:05".to_string() };
    let h = Hours::try_from(&raw).unwrap();
    assert_eq!(h.from, ClockTime { hour: 8, minute: 30 });
    assert_eq!(h.to, ClockTime { hour: 17, minute: 5 });
}

#[test]
fn hours_reject_malformed_time() {
    assert!(Hours::try_from(&RawHours { from: "8h".into(), to: "17:00".into() }).is_err());
    assert!(Hours::try_from(&RawHours { from: "08:00".into(), to: "25:00".into() }).is_err());
}

#[test]
fn categories_show_their_names() {
    assert_eq!(DeliveryStatus::DeliveredAtPickup.to_string(), "DeliveredAtPickup");
    assert_eq!(ShipmentType::LetterboxParcel.to_string(), "LetterboxParcel");
    assert_eq!(PartyType::Return.to_string(), "Return");
}
