use profiler_marker::vocab::{
    format_from_name, is_valid_format_string, is_valid_marker_location, location_from_name, str_eq,
    Format, Location,
};

#[test]
fn every_location_name_is_valid() {
    for n in ["MarkerChart", "MarkerTable", "TimelineOverview", "TimelineMemory", "TimelineIPC", "TimelineFileIO", "StackChart"] {
        assert!(is_valid_marker_location(n), "{}", n);
    }
    assert_eq!(location_from_name("TimelineFileIO"), Some(Location::TimelineFileIO));
    assert_eq!(location_from_name("StackChart"), Some(Location::StackChart));
}

#[test]
fn unknown_locations_are_invalid() {
    assert!(!is_valid_marker_location("NotARealLocation"));
    assert!(!is_valid_marker_location("markerchart"));
    assert!(!is_valid_marker_location(""));
    assert!(!is_valid_marker_location("MarkerChart "));
    assert_eq!(location_from_name("Integer"), None);
}

#[test]
fn every_format_name_is_valid() {
    let names = [
        "Url", "FilePath", "SanitizedString", "String", "UniqueString", "Duration", "Time", "Seconds",
        "Milliseconds", "Microseconds", "Nanoseconds", "Bytes", "Percentage", "Integer", "Decimal",
    ];
    for n in names {
        assert!(is_valid_format_string(n), "{}", n);
    }
    assert_eq!(format_from_name("Microseconds"), Some(Format::Microseconds));
    assert_eq!(format_from_name("Milliseconds"), Some(Format::Milliseconds));
    assert_eq!(format_from_name("Decimal"), Some(Format::Decimal));
}

#[test]
fn unknown_formats_are_invalid() {
    assert!(!is_valid_format_string("MarkerChart"));
    assert!(!is_valid_format_string("url"));
    assert!(!is_valid_format_string("Strings"));
    assert_eq!(format_from_name(""), None);
}

#[test]
fn string_equality() {
    assert!(str_eq("", ""));
    assert!(str_eq("héllo", "héllo"));
    assert!(!str_eq("abc", "abd"));
    assert!(!str_eq("abc", "ab"));
}
