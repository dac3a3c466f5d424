use profiler_marker::schema::{MarkerSchema, SchemaRow};
use profiler_marker::vocab::{Format, Location, Searchable};

fn dynamic(row: &SchemaRow) -> (&str, &str, Format, Searchable) {
    match row {
        SchemaRow::Dynamic { key, label, format, searchable } => (key.as_str(), label.as_str(), *format, *searchable),
        SchemaRow::Static { .. } => panic!("expected a data row"),
    }
}

#[test]
fn new_schema_is_empty() {
    let s = MarkerSchema::new(&[Location::MarkerTable, Location::StackChart]);
    assert_eq!(s.locations(), &vec![Location::MarkerTable, Location::StackChart]);
    assert!(!s.has_special_frontend_location());
    assert!(s.rows().is_empty());
    assert_eq!(s.chart_label(), &None);
    let s = MarkerSchema::new(&[]);
    assert!(s.locations().is_empty());
}

#[test]
fn special_frontend_schema() {
    let s = MarkerSchema::new_with_special_frontend_location();
    assert!(s.has_special_frontend_location());
    assert!(s.locations().is_empty());
    assert!(s.rows().is_empty());
}

#[test]
fn labels_are_set() {
    let mut s = MarkerSchema::new(&[Location::MarkerChart]);
    s.set_chart_label("c {marker.data.a}").set_tooltip_label("t").set_table_label("tab");
    assert_eq!(s.chart_label().as_deref(), Some("c {marker.data.a}"));
    assert_eq!(s.tooltip_label().as_deref(), Some("t"));
    assert_eq!(s.table_label().as_deref(), Some("tab"));
    s.set_all_labels("all");
    assert_eq!(s.chart_label().as_deref(), Some("all"));
    assert_eq!(s.tooltip_label().as_deref(), Some("all"));
    assert_eq!(s.table_label().as_deref(), Some("all"));
}

#[test]
fn rows_are_appended_in_order() {
    let mut s = MarkerSchema::new(&[Location::MarkerChart]);
    s.add_key_format("a", Format::Integer)
        .add_key_label_format("b", "B Value", Format::Bytes)
        .add_key_format_searchable("c", Format::Url, Searchable::Searchable)
        .add_key_label_format_searchable("d", "D", Format::Duration, Searchable::NotSearchable)
        .add_static_label_value("Kind", "static");
    let rows = s.rows();
    assert_eq!(rows.len(), 5);
    assert_eq!(dynamic(&rows[0]), ("a", "a", Format::Integer, Searchable::NotSearchable));
    assert_eq!(dynamic(&rows[1]), ("b", "B Value", Format::Bytes, Searchable::NotSearchable));
    assert_eq!(dynamic(&rows[2]), ("c", "c", Format::Url, Searchable::Searchable));
    assert_eq!(dynamic(&rows[3]), ("d", "D", Format::Duration, Searchable::NotSearchable));
    match &rows[4] {
        SchemaRow::Static { label, value } => {
            assert_eq!(label, "Kind");
            assert_eq!(value, "static");
        }
        SchemaRow::Dynamic { .. } => panic!("expected a static row"),
    }
}
