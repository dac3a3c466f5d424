//! The closed vocabularies of display locations and value formats.
use vstd::prelude::*;

verus! {

/// Marker locations to be displayed in the profiler front-end.
#[derive(Clone, Copy, Debug, PartialEq, Eq, Structural)]
pub enum MarkerSchema_Location {
    MarkerChart,
    MarkerTable,
    TimelineOverview,
    TimelineMemory,
    TimelineIPC,
    TimelineFileIO,
    StackChart,
}

/// Marker locations to be displayed in the profiler front-end.
pub type Location = MarkerSchema_Location;

/// Formats of marker properties for the profiler front-end.
#[derive(Clone, Copy, Debug, PartialEq, Eq, Structural)]
pub enum MarkerSchema_Format {
    Url,
    FilePath,
    SanitizedString,
    String,
    UniqueString,
    Duration,
    Time,
    Seconds,
    Milliseconds,
    Microseconds,
    Nanoseconds,
    Bytes,
    Percentage,
    Integer,
    Decimal,
}

/// Formats of marker properties for the profiler front-end.
pub type Format = MarkerSchema_Format;

/// Whether a property is searchable in the profiler front-end.
#[derive(Clone, Copy, Debug, PartialEq, Eq, Structural)]
pub enum MarkerSchema_Searchable {
    NotSearchable,
    Searchable,
}

/// Whether a property is searchable in the profiler front-end.
pub type Searchable = MarkerSchema_Searchable;

/// The identifier that names a location.
pub open spec fn location_name(l: Location) -> Seq<char> {
    match l {
        Location::MarkerChart => "MarkerChart"@,
        Location::MarkerTable => "MarkerTable"@,
        Location::TimelineOverview => "TimelineOverview"@,
        Location::TimelineMemory => "TimelineMemory"@,
        Location::TimelineIPC => "TimelineIPC"@,
        Location::TimelineFileIO => "TimelineFileIO"@,
        Location::StackChart => "StackChart"@,
    }
}

/// The identifier that names a format.
pub open spec fn format_name(f: Format) -> Seq<char> {
    match f {
        Format::Url => "Url"@,
        Format::FilePath => "FilePath"@,
        Format::SanitizedString => "SanitizedString"@,
        Format::String => "String"@,
        Format::UniqueString => "UniqueString"@,
        Format::Duration => "Duration"@,
        Format::Time => "Time"@,
        Format::Seconds => "Seconds"@,
        Format::Milliseconds => "Milliseconds"@,
        Format::Microseconds => "Microseconds"@,
        Format::Nanoseconds => "Nanoseconds"@,
        Format::Bytes => "Bytes"@,
        Format::Percentage => "Percentage"@,
        Format::Integer => "Integer"@,
        Format::Decimal => "Decimal"@,
    }
}

/// The location an identifier names, by exact, case-sensitive match.
pub open spec fn location_of(s: Seq<char>) -> Option<Location> {
    if s == "MarkerChart"@ {
        Some(Location::MarkerChart)
    } else if s == "MarkerTable"@ {
        Some(Location::MarkerTable)
    } else if s == "TimelineOverview"@ {
        Some(Location::TimelineOverview)
    } else if s == "TimelineMemory"@ {
        Some(Location::TimelineMemory)
    } else if s == "TimelineIPC"@ {
        Some(Location::TimelineIPC)
    } else if s == "TimelineFileIO"@ {
        Some(Location::TimelineFileIO)
    } else if s == "StackChart"@ {
        Some(Location::StackChart)
    } else {
        None
    }
}

/// The format an identifier names, by exact, case-sensitive match.
pub open spec fn format_of(s: Seq<char>) -> Option<Format> {
    if s == "Url"@ {
        Some(Format::Url)
    } else if s == "FilePath"@ {
        Some(Format::FilePath)
    } else if s == "SanitizedString"@ {
        Some(Format::SanitizedString)
    } else if s == "String"@ {
        Some(Format::String)
    } else if s == "UniqueString"@ {
        Some(Format::UniqueString)
    } else if s == "Duration"@ {
        Some(Format::Duration)
    } else if s == "Time"@ {
        Some(Format::Time)
    } else if s == "Seconds"@ {
        Some(Format::Seconds)
    } else if s == "Milliseconds"@ {
        Some(Format::Milliseconds)
    } else if s == "Microseconds"@ {
        Some(Format::Microseconds)
    } else if s == "Nanoseconds"@ {
        Some(Format::Nanoseconds)
    } else if s == "Bytes"@ {
        Some(Format::Bytes)
    } else if s == "Percentage"@ {
        Some(Format::Percentage)
    } else if s == "Integer"@ {
        Some(Format::Integer)
    } else if s == "Decimal"@ {
        Some(Format::Decimal)
    } else {
        None
    }
}

/// Character-by-character equality of two strings.
pub fn str_eq(a: &str, b: &str) -> (r: bool)
    ensures
        r == (a@ == b@),
{
    let n = a.unicode_len();
    if n != b.unicode_len() {
        return false;
    }
    let mut i: usize = 0;
    while i < n
        invariant
            n == a@.len(),
            n == b@.len(),
            i <= n,
            a@.subrange(0, i as int) == b@.subrange(0, i as int),
        decreases n - i,
    {
        if a.get_char(i) != b.get_char(i) {
            return false;
        }
        assert(a@.subrange(0, i + 1) == a@.subrange(0, i as int).push(a@[i as int]));
        assert(b@.subrange(0, i + 1) == b@.subrange(0, i as int).push(b@[i as int]));
        i = i + 1;
    }
    assert(a@ == a@.subrange(0, n as int));
    assert(b@ == b@.subrange(0, n as int));
    true
}

/// The location that `ident` names, if any.
pub fn location_from_name(ident: &str) -> (r: Option<Location>)
    ensures
        r == location_of(ident@),
{
    if str_eq(ident, "MarkerChart") {
        Some(Location::MarkerChart)
    } else if str_eq(ident, "MarkerTable") {
        Some(Location::MarkerTable)
    } else if str_eq(ident, "TimelineOverview") {
        Some(Location::TimelineOverview)
    } else if str_eq(ident, "TimelineMemory") {
        Some(Location::TimelineMemory)
    } else if str_eq(ident, "TimelineIPC") {
        Some(Location::TimelineIPC)
    } else if str_eq(ident, "TimelineFileIO") {
        Some(Location::TimelineFileIO)
    } else if str_eq(ident, "StackChart") {
        Some(Location::StackChart)
    } else {
        None
    }
}

/// The format that `ident` names, if any.
pub fn format_from_name(ident: &str) -> (r: Option<Format>)
    ensures
        r == format_of(ident@),
{
    if str_eq(ident, "Url") {
        Some(Format::Url)
    } else if str_eq(ident, "FilePath") {
        Some(Format::FilePath)
    } else if str_eq(ident, "SanitizedString") {
        Some(Format::SanitizedString)
    } else if str_eq(ident, "String") {
        Some(Format::String)
    } else if str_eq(ident, "UniqueString") {
        Some(Format::UniqueString)
    } else if str_eq(ident, "Duration") {
        Some(Format::Duration)
    } else if str_eq(ident, "Time") {
        Some(Format::Time)
    } else if str_eq(ident, "Seconds") {
        Some(Format::Seconds)
    } else if str_eq(ident, "Milliseconds") {
        Some(Format::Milliseconds)
    } else if str_eq(ident, "Microseconds") {
        Some(Format::Microseconds)
    } else if str_eq(ident, "Nanoseconds") {
        Some(Format::Nanoseconds)
    } else if str_eq(ident, "Bytes") {
        Some(Format::Bytes)
    } else if str_eq(ident, "Percentage") {
        Some(Format::Percentage)
    } else if str_eq(ident, "Integer") {
        Some(Format::Integer)
    } else if str_eq(ident, "Decimal") {
        Some(Format::Decimal)
    } else {
        None
    }
}

/// Whether `ident` is one of the display location names.
pub fn is_valid_marker_location(ident: &str) -> (r: bool)
    ensures
        r == location_of(ident@).is_some(),
        r == (exists|l: Location| location_name(l) == ident@),
{
    proof { lemma_location_names(); }
    location_from_name(ident).is_some()
}

/// Whether `ident` is one of the format names.
pub fn is_valid_format_string(ident: &str) -> (r: bool)
    ensures
        r == format_of(ident@).is_some(),
        r == (exists|f: Format| format_name(f) == ident@),
{
    proof { lemma_format_names(); }
    format_from_name(ident).is_some()
}

/// Every location name is recognised as that location, and every recognised
/// identifier is the name of the location it is recognised as.
pub proof fn lemma_location_names()
    ensures
        forall|l: Location| #[trigger] location_of(location_name(l)) == Some(l),
        forall|s: Seq<char>| #[trigger] location_of(s) is Some ==> location_name(location_of(s)->0) == s,
{
    reveal_strlit("MarkerChart");
    reveal_strlit("MarkerTable");
    reveal_strlit("TimelineOverview");
    reveal_strlit("TimelineMemory");
    reveal_strlit("TimelineIPC");
    reveal_strlit("TimelineFileIO");
    reveal_strlit("StackChart");
    assert("MarkerChart"@.len() == 11);
    assert("MarkerTable"@.len() == 11);
    assert("TimelineOverview"@.len() == 16);
    assert("TimelineMemory"@.len() == 14);
    assert("TimelineIPC"@.len() == 11);
    assert("TimelineFileIO"@.len() == 14);
    assert("StackChart"@.len() == 10);
    assert("MarkerChart"@[0] != "TimelineIPC"@[0]);
    assert("MarkerTable"@[0] != "TimelineIPC"@[0]);
    assert("MarkerChart"@[6] != "MarkerTable"@[6]);
    assert("TimelineMemory"@[8] != "TimelineFileIO"@[8]);
    assert forall|l: Location| #[trigger] location_of(location_name(l)) == Some(l) by {
        match l {
            Location::MarkerChart => {},
            Location::MarkerTable => {},
            Location::TimelineOverview => {},
            Location::TimelineMemory => {},
            Location::TimelineIPC => {},
            Location::TimelineFileIO => {},
            Location::StackChart => {},
        }
    }
}

/// Every format name is recognised as that format, and every recognised
/// identifier is the name of the format it is recognised as.
pub proof fn lemma_format_names()
    ensures
        forall|f: Format| #[trigger] format_of(format_name(f)) == Some(f),
        forall|s: Seq<char>| #[trigger] format_of(s) is Some ==> format_name(format_of(s)->0) == s,
{
    reveal_strlit("Url");
    reveal_strlit("FilePath");
    reveal_strlit("SanitizedString");
    reveal_strlit("String");
    reveal_strlit("UniqueString");
    reveal_strlit("Duration");
    reveal_strlit("Time");
    reveal_strlit("Seconds");
    reveal_strlit("Milliseconds");
    reveal_strlit("Microseconds");
    reveal_strlit("Nanoseconds");
    reveal_strlit("Bytes");
    reveal_strlit("Percentage");
    reveal_strlit("Integer");
    reveal_strlit("Decimal");
    assert("Url"@.len() == 3);
    assert("FilePath"@.len() == 8);
    assert("SanitizedString"@.len() == 15);
    assert("String"@.len() == 6);
    assert("UniqueString"@.len() == 12);
    assert("Duration"@.len() == 8);
    assert("Time"@.len() == 4);
    assert("Seconds"@.len() == 7);
    assert("Milliseconds"@.len() == 12);
    assert("Microseconds"@.len() == 12);
    assert("Nanoseconds"@.len() == 11);
    assert("Bytes"@.len() == 5);
    assert("Percentage"@.len() == 10);
    assert("Integer"@.len() == 7);
    assert("Decimal"@.len() == 7);
    assert("FilePath"@[0] != "Duration"@[0]);
    assert("UniqueString"@[0] != "Milliseconds"@[0]);
    assert("UniqueString"@[0] != "Microseconds"@[0]);
    assert("Milliseconds"@[2] != "Microseconds"@[2]);
    assert("Seconds"@[0] != "Integer"@[0]);
    assert("Seconds"@[0] != "Decimal"@[0]);
    assert("Integer"@[0] != "Decimal"@[0]);
    assert forall|f: Format| #[trigger] format_of(format_name(f)) == Some(f) by {
        match f {
            Format::Url => {},
            Format::FilePath => {},
            Format::SanitizedString => {},
            Format::String => {},
            Format::UniqueString => {},
            Format::Duration => {},
            Format::Time => {},
            Format::Seconds => {},
            Format::Milliseconds => {},
            Format::Microseconds => {},
            Format::Nanoseconds => {},
            Format::Bytes => {},
            Format::Percentage => {},
            Format::Integer => {},
            Format::Decimal => {},
        }
    }
}

} // verus!
