use profiler_marker::derive::{
    derive_profiler_marker, field_display, marker_locations, marker_type_display_impl,
    marker_type_name_impl, Attribute, DeriveError, ErrorKind, Field, NestedArg, RecordDefinition,
    Site,
};
use profiler_marker::marker::{marker_type_display, stream_marker_data, stream_matches_display, FieldValue};
use profiler_marker::writer::PropertyValue;
use profiler_marker::writer::JSONWriter;
use profiler_marker::schema::SchemaRow;
use profiler_marker::vocab::{Format, Location, Searchable};

fn ident(s: &str) -> NestedArg {
    NestedArg { path: s.to_string(), is_ident: true }
}

fn attr(path: &str, args: &[&str]) -> Attribute {
    Attribute { path: path.to_string(), outer: true, args: Some(args.iter().map(|a| ident(a)).collect()) }
}

fn flag(path: &str) -> Attribute {
    Attribute { path: path.to_string(), outer: true, args: None }
}

fn field(name: &str, attrs: Vec<Attribute>) -> Field {
    Field { name: name.to_string(), attrs }
}

fn record(name: &str, attrs: Vec<Attribute>, fields: Vec<Field>) -> RecordDefinition {
    RecordDefinition { name: name.to_string(), attrs, fields }
}

fn scenario_m() -> RecordDefinition {
    record(
        "M",
        vec![attr("marker_display", &["MarkerChart"])],
        vec![
            field("a", vec![attr("format", &["Integer"]), flag("searchable")]),
            field("b", vec![attr("format", &["String"])]),
        ],
    )
}

#[test]
fn scenario_two_fields_rows_in_order() {
    let m = derive_profiler_marker(&scenario_m()).unwrap();
    assert_eq!(m.marker_name, "M");
    assert_eq!(m.locations, vec![Location::MarkerChart]);
    assert_eq!(m.rows.len(), 2);
    assert_eq!(m.rows[0].key, "a");
    assert_eq!(m.rows[0].label, "a");
    assert_eq!(m.rows[0].format, Format::Integer);
    assert!(m.rows[0].searchable);
    assert_eq!(m.rows[1].key, "b");
    assert_eq!(m.rows[1].label, "b");
    assert_eq!(m.rows[1].format, Format::String);
    assert!(!m.rows[1].searchable);

    let schema = marker_type_display(&m);
    assert_eq!(schema.locations(), &vec![Location::MarkerChart]);
    assert_eq!(schema.chart_label().as_deref(), Some("Name: {marker.name}"));
    assert_eq!(schema.tooltip_label(), &None);
    assert_eq!(schema.table_label(), &None);
    assert!(!schema.has_special_frontend_location());
    let rows = schema.rows();
    assert_eq!(rows.len(), 2);
    match &rows[0] {
        SchemaRow::Dynamic { key, label, format, searchable } => {
            assert_eq!(key, "a");
            assert_eq!(label, "a");
            assert_eq!(*format, Format::Integer);
            assert_eq!(*searchable, Searchable::Searchable);
        }
        SchemaRow::Static { .. } => panic!("expected a data row"),
    }
    match &rows[1] {
        SchemaRow::Dynamic { key, label, format, searchable } => {
            assert_eq!(key, "b");
            assert_eq!(label, "b");
            assert_eq!(*format, Format::String);
            assert_eq!(*searchable, Searchable::NotSearchable);
        }
        SchemaRow::Static { .. } => panic!("expected a data row"),
    }
}

#[test]
fn scenario_duplicate_format_pinned_to_second() {
    let def = record(
        "M",
        vec![],
        vec![field("a", vec![attr("format", &["Integer"]), attr("format", &["String"])])],
    );
    let e = derive_profiler_marker(&def).unwrap_err();
    assert_eq!(e, DeriveError { kind: ErrorKind::TooManyFormats, site: Site::FieldAttr { field: 0, attr: 1 } });
    assert_eq!(e.kind.message(), "Too many format arguments");
}

#[test]
fn scenario_unknown_location() {
    let def = record("M", vec![attr("marker_display", &["NotARealLocation"])], vec![]);
    let e = derive_profiler_marker(&def).unwrap_err();
    assert_eq!(e, DeriveError { kind: ErrorKind::UnsupportedLocation, site: Site::TypeArg { attr: 0, arg: 0 } });
    assert_eq!(e.kind.message(), "Unsupported marker display location");
}

#[test]
fn unknown_format_rejected() {
    let def = record("M", vec![], vec![field("x", vec![]), field("a", vec![attr("format", &["Kilograms"])])]);
    let e = derive_profiler_marker(&def).unwrap_err();
    assert_eq!(
        e,
        DeriveError { kind: ErrorKind::UnsupportedFormat, site: Site::FieldArg { field: 1, attr: 0, arg: 0 } }
    );
    assert_eq!(e.kind.message(), "Unsupported format specifier");
}

#[test]
fn format_is_case_sensitive() {
    let r = field_display(&field("a", vec![attr("format", &["integer"])]), 3);
    assert_eq!(
        r.unwrap_err(),
        DeriveError { kind: ErrorKind::UnsupportedFormat, site: Site::FieldArg { field: 3, attr: 0, arg: 0 } }
    );
}

#[test]
fn searchable_without_format_defaults_to_string() {
    let row = field_display(&field("name", vec![flag("searchable")]), 0).unwrap();
    assert_eq!(row.key, "name");
    assert_eq!(row.label, "name");
    assert_eq!(row.format, Format::String);
    assert!(row.searchable);
}

#[test]
fn field_without_annotations_gets_default_row() {
    let row = field_display(&field("plain", vec![]), 0).unwrap();
    assert_eq!(row.key, "plain");
    assert_eq!(row.format, Format::String);
    assert!(!row.searchable);
}

#[test]
fn one_row_per_field_in_order() {
    let def = record(
        "Many",
        vec![],
        vec![
            field("z", vec![]),
            field("y", vec![attr("format", &["Bytes"])]),
            field("x", vec![flag("searchable"), attr("format", &["Url"])]),
        ],
    );
    let rows = marker_type_display_impl(&def.fields).unwrap();
    let keys: Vec<&str> = rows.iter().map(|r| r.key.as_str()).collect();
    assert_eq!(keys, vec!["z", "y", "x"]);
    assert_eq!(rows[1].format, Format::Bytes);
    assert_eq!(rows[2].format, Format::Url);
    assert!(rows[2].searchable);
}

#[test]
fn derivation_is_deterministic() {
    let a = derive_profiler_marker(&scenario_m()).unwrap();
    let b = derive_profiler_marker(&scenario_m()).unwrap();
    assert_eq!(format!("{:?}", a), format!("{:?}", b));
    let sa = marker_type_display(&a);
    let sb = marker_type_display(&b);
    assert_eq!(format!("{:?}", sa), format!("{:?}", sb));
}

#[test]
fn requested_locations_are_validated_and_kept() {
    let attrs = vec![
        attr("marker_display", &["MarkerChart", "MarkerTable"]),
        attr("derive", &["Debug"]),
        attr("marker_display", &["TimelineIPC"]),
    ];
    let ls = marker_locations(&attrs).unwrap();
    assert_eq!(ls, vec![Location::MarkerChart, Location::MarkerTable, Location::TimelineIPC]);
    let m = derive_profiler_marker(&record("E", attrs, vec![])).unwrap();
    let schema = marker_type_display(&m);
    assert_eq!(schema.locations(), &vec![Location::MarkerChart]);
    assert!(schema.rows().is_empty());
}

#[test]
fn location_argument_must_be_an_identifier() {
    let bad = Attribute {
        path: "marker_display".to_string(),
        outer: true,
        args: Some(vec![ident("MarkerChart"), NestedArg { path: "a :: b".to_string(), is_ident: false }]),
    };
    let e = marker_locations(&vec![bad]).unwrap_err();
    assert_eq!(e, DeriveError { kind: ErrorKind::ExpectedLocation, site: Site::TypeArg { attr: 0, arg: 1 } });
}

#[test]
fn format_argument_must_be_an_identifier() {
    let bad = Attribute {
        path: "format".to_string(),
        outer: true,
        args: Some(vec![NestedArg { path: "x :: Integer".to_string(), is_ident: false }]),
    };
    let e = field_display(&field("a", vec![bad]), 2).unwrap_err();
    assert_eq!(
        e,
        DeriveError { kind: ErrorKind::ExpectedFormat, site: Site::FieldArg { field: 2, attr: 0, arg: 0 } }
    );
}

#[test]
fn annotations_without_list_are_rejected() {
    let e = marker_locations(&vec![flag("marker_display")]).unwrap_err();
    assert_eq!(e, DeriveError { kind: ErrorKind::ExpectedArguments, site: Site::TypeAttr { attr: 0 } });
    let e = field_display(&field("a", vec![flag("searchable"), flag("format")]), 1).unwrap_err();
    assert_eq!(e, DeriveError { kind: ErrorKind::ExpectedArguments, site: Site::FieldAttr { field: 1, attr: 1 } });
}

#[test]
fn inner_and_unknown_annotations_are_ignored() {
    let inner = Attribute {
        path: "format".to_string(),
        outer: false,
        args: Some(vec![ident("NotAFormat")]),
    };
    let row = field_display(&field("a", vec![inner, attr("doc", &["x"]), attr("format", &["Percentage"])]), 0)
        .unwrap();
    assert_eq!(row.format, Format::Percentage);
    assert!(!row.searchable);
    let inner_type = Attribute {
        path: "marker_display".to_string(),
        outer: false,
        args: Some(vec![ident("Nowhere")]),
    };
    assert_eq!(marker_locations(&vec![inner_type]).unwrap(), vec![]);
}

#[test]
fn several_format_arguments_rejected() {
    let e = field_display(&field("a", vec![attr("format", &["Integer", "Decimal"])]), 0).unwrap_err();
    assert_eq!(e, DeriveError { kind: ErrorKind::ExpectedFormat, site: Site::FieldAttr { field: 0, attr: 0 } });
}

#[test]
fn empty_format_list_rejected() {
    let e = field_display(&field("a", vec![flag("searchable"), attr("format", &[])]), 4).unwrap_err();
    assert_eq!(e, DeriveError { kind: ErrorKind::ExpectedFormat, site: Site::FieldAttr { field: 4, attr: 1 } });
    let def = record("M", vec![], vec![field("ok", vec![]), field("a", vec![attr("format", &[]), attr("format", &["Time"])])]);
    let e = derive_profiler_marker(&def).unwrap_err();
    assert_eq!(e, DeriveError { kind: ErrorKind::ExpectedFormat, site: Site::FieldAttr { field: 1, attr: 0 } });
}

#[test]
fn type_errors_come_before_field_errors() {
    let def = record(
        "M",
        vec![attr("marker_display", &["Nowhere"])],
        vec![field("a", vec![attr("format", &["Nothing"])])],
    );
    let e = derive_profiler_marker(&def).unwrap_err();
    assert_eq!(e.kind, ErrorKind::UnsupportedLocation);
}

#[test]
fn marker_name_is_type_identifier() {
    assert_eq!(marker_type_name_impl(&"ExampleMarker".to_string()), "ExampleMarker");
    let m = derive_profiler_marker(&record("ExampleMarker", vec![], vec![])).unwrap();
    assert_eq!(m.marker_name, "ExampleMarker");
    assert!(m.rows.is_empty());
}

#[test]
fn error_messages() {
    assert_eq!(
        ErrorKind::ExpectedLocation.message(),
        "Expected a marker display location as argument to 'marker_display'"
    );
    assert_eq!(ErrorKind::ExpectedFormat.message(), "Expected a marker format specifier as argument to 'format'");
    assert_eq!(ErrorKind::ExpectedArguments.message(), "Expected a parenthesised list of arguments");
}

#[test]
fn streamed_keys_follow_schema_rows() {
    let m = derive_profiler_marker(&scenario_m()).unwrap();
    let mut w = JSONWriter::new();
    w.int_property("a", 1);
    w.string_property("b", "x");
    assert!(stream_matches_display(&m, &w));
    let mut swapped = JSONWriter::new();
    swapped.string_property("b", "x");
    swapped.int_property("a", 1);
    assert!(!stream_matches_display(&m, &swapped));
    let mut short = JSONWriter::new();
    short.int_property("a", 1);
    assert!(!stream_matches_display(&m, &short));
}

#[test]
fn marker_data_streamed_in_row_order_and_format() {
    let def = record(
        "D",
        vec![],
        vec![
            field("n", vec![attr("format", &["Integer"])]),
            field("u", vec![attr("format", &["UniqueString"])]),
            field("s", vec![]),
            field("v", vec![attr("format", &["UniqueString"])]),
            field("f", vec![attr("format", &["Decimal"])]),
        ],
    );
    let m = derive_profiler_marker(&def).unwrap();
    let values = vec![
        FieldValue::Int(42),
        FieldValue::Str("gpu".to_string()),
        FieldValue::Str("plain".to_string()),
        FieldValue::Str("gpu".to_string()),
        FieldValue::Null,
    ];
    let mut w = JSONWriter::new();
    w.bool_property("before", false);
    stream_marker_data(&m.rows, &values, &mut w);
    let ps = w.properties();
    let names: Vec<&str> = ps.iter().map(|p| p.name.as_str()).collect();
    assert_eq!(names, vec!["before", "n", "u", "s", "v", "f"]);
    assert_eq!(ps[1].value, PropertyValue::Int(42));
    assert_eq!(ps[2].value, PropertyValue::UniqueString(0));
    assert_eq!(ps[3].value, PropertyValue::Str("plain".to_string()));
    assert_eq!(ps[4].value, PropertyValue::UniqueString(0));
    assert_eq!(ps[5].value, PropertyValue::Null);
    assert_eq!(w.strings(), &vec!["gpu".to_string()]);

    let mut fresh = JSONWriter::new();
    stream_marker_data(&m.rows, &values, &mut fresh);
    assert!(stream_matches_display(&m, &fresh));
}
