//! The routines a derived marker type provides, built from the product of a
//! derivation.
use vstd::prelude::*;
use crate::derive::{MarkerImpl, MarkerImplView, RowSpec, RowView};
use crate::schema::{MarkerSchema, MarkerSchemaView, RowEntry};
use crate::vocab::{Format, Location, Searchable};
use crate::vocab::str_eq;
use crate::writer::{JSONWriter, ValueView};

verus! {

/// What every marker type provides: its name, its display schema, and the
/// streaming of one marker's data.
pub trait ProfilerMarker {
    /// The name of the marker type.
    fn marker_type_name() -> &'static str;

    /// The display schema of the marker type.
    fn marker_type_display() -> MarkerSchema;

    /// Streams the marker's data as JSON object properties.
    fn stream_json_marker_data(&self, json_writer: &mut JSONWriter);
}

/// The schema line of a derived display row.
pub open spec fn row_entry(r: RowView) -> RowEntry {
    RowEntry::Dynamic {
        key: r.key,
        label: r.label,
        format: r.format,
        searchable: if r.searchable {
            Searchable::Searchable
        } else {
            Searchable::NotSearchable
        },
    }
}

/// The chart label every derived marker type starts with.
pub open spec fn default_chart_label() -> Seq<char> {
    "Name: {marker.name}"@
}

/// The display schema of a derived marker type: shown in the marker chart,
/// labelled by the marker's name, with one line per derived row in order.
pub open spec fn display_schema(m: MarkerImplView) -> MarkerSchemaView {
    MarkerSchemaView {
        locations: seq![Location::MarkerChart],
        special_frontend_location: false,
        chart_label: Some(default_chart_label()),
        tooltip_label: None,
        table_label: None,
        rows: m.rows.map_values(|r: RowView| row_entry(r)),
    }
}

/// Builds the display schema of a derived marker type.
pub fn marker_type_display(m: &MarkerImpl) -> (r: MarkerSchema)
    ensures
        r@ == display_schema(m@),
{
    let locations = vec![Location::MarkerChart];
    let mut schema = MarkerSchema::new(locations.as_slice());
    schema.set_chart_label("Name: {marker.name}");
    let ghost start = schema@;
    assert(locations@ =~= seq![Location::MarkerChart]);
    assert(start.rows =~= Seq::<RowEntry>::empty());
    assert(start == (MarkerSchemaView { rows: Seq::empty(), ..display_schema(m@) }));
    assert(m@.rows.subrange(0, 0).map_values(|r: RowView| row_entry(r)) =~= Seq::<RowEntry>::empty());
    let mut i: usize = 0;
    while i < m.rows.len()
        invariant
            i <= m.rows@.len(),
            schema@ == (MarkerSchemaView {
                rows: m@.rows.subrange(0, i as int).map_values(|r: RowView| row_entry(r)),
                ..start
            }),
            start == (MarkerSchemaView { rows: Seq::empty(), ..display_schema(m@) }),
        decreases m.rows@.len() - i,
    {
        let row = &m.rows[i];
        if row.searchable {
            schema.add_key_label_format_searchable(
                row.key.as_str(),
                row.label.as_str(),
                row.format,
                Searchable::Searchable,
            );
        } else {
            schema.add_key_label_format(row.key.as_str(), row.label.as_str(), row.format);
        }
        assert(m@.rows.subrange(0, i + 1).map_values(|r: RowView| row_entry(r))
            =~= m@.rows.subrange(0, i as int).map_values(|r: RowView| row_entry(r)).push(row_entry(m@.rows[i as int])));
        i = i + 1;
    }
    assert(m@.rows.subrange(0, i as int) =~= m@.rows);
    schema
}

/// Whether the properties streamed into a writer are keyed, one for one and in
/// order, by the rows of a derived marker type's display schema.
pub open spec fn stream_matches(rows: Seq<RowView>, props: Seq<(Seq<char>, ValueView)>) -> bool {
    &&& props.len() == rows.len()
    &&& forall|i: int| 0 <= i < rows.len() ==> #[trigger] props[i].0 == rows[i].key
}

/// Checks that the data streamed into `w` writes exactly the keys that the
/// display schema of `m` declares, in the same order.
pub fn stream_matches_display(m: &MarkerImpl, w: &JSONWriter) -> (r: bool)
    ensures
        r == stream_matches(m@.rows, w@.properties),
{
    let props = w.properties();
    if props.len() != m.rows.len() {
        return false;
    }
    let mut i: usize = 0;
    while i < props.len()
        invariant
            props@.len() == m.rows@.len(),
            crate::writer::properties_view(props@) == w@.properties,
            i <= props@.len(),
            forall|j: int| 0 <= j < i ==> #[trigger] w@.properties[j].0 == m@.rows[j].key,
        decreases props@.len() - i,
    {
        if !str_eq(props[i].name.as_str(), m.rows[i].key.as_str()) {
            assert(w@.properties[i as int].0 == props@[i as int].name@);
            assert(m@.rows[i as int].key == m.rows@[i as int].key@);
            return false;
        }
        i = i + 1;
    }
    true
}

/// The value of one field of a marker, as handed to the writer. A float is
/// held as its IEEE-754 bits.
#[derive(Clone, Debug, PartialEq, Eq)]
pub enum FieldValue {
    Int(i64),
    FloatBits(u64),
    Bool(bool),
    Str(String),
    Null,
}

/// Whether `out` is what streaming `v` in format `fmt` writes, given the
/// writer's string table: a string in the `UniqueString` format is written as
/// its index in the table, everything else as itself.
pub open spec fn value_written(fmt: Format, v: FieldValue, out: ValueView, strings: Seq<Seq<char>>) -> bool {
    match v {
        FieldValue::Int(x) => out == ValueView::Int(x),
        FieldValue::FloatBits(b) => out == ValueView::FloatBits(b),
        FieldValue::Bool(b) => out == ValueView::Bool(b),
        FieldValue::Null => out == ValueView::Null,
        FieldValue::Str(s) => if fmt == Format::UniqueString {
            &&& out is UniqueString
            &&& out->UniqueString_0 < strings.len()
            &&& strings[out->UniqueString_0 as int] == s@
        } else {
            out == ValueView::Str(s@)
        },
    }
}

/// Streams one value per display row, in row order, each under its row's key
/// and in its row's format: the data-writing routine of a derived marker type.
pub fn stream_marker_data(rows: &Vec<RowSpec>, values: &Vec<FieldValue>, w: &mut JSONWriter)
    requires
        old(w).wf(),
        values@.len() == rows@.len(),
    ensures
        final(w).wf(),
        final(w)@.properties.len() == old(w)@.properties.len() + rows@.len(),
        final(w)@.properties.subrange(0, old(w)@.properties.len() as int) == old(w)@.properties,
        stream_matches(
            crate::derive::rows_view(rows@),
            final(w)@.properties.subrange(old(w)@.properties.len() as int, final(w)@.properties.len() as int),
        ),
        forall|i: int| 0 <= i < rows@.len() ==> value_written(
            rows@[i].format,
            values@[i],
            #[trigger] final(w)@.properties[old(w)@.properties.len() + i].1,
            final(w)@.strings,
        ),
{
    let ghost start = w@.properties;
    let mut i: usize = 0;
    while i < rows.len()
        invariant
            w.wf(),
            values@.len() == rows@.len(),
            i <= rows@.len(),
            w@.properties.len() == start.len() + i,
            w@.properties.subrange(0, start.len() as int) == start,
            forall|j: int| 0 <= j < i ==> {
                &&& (#[trigger] w@.properties[start.len() + j]).0 == rows@[j].key@
                &&& value_written(rows@[j].format, values@[j], w@.properties[start.len() + j].1, w@.strings)
            },
        decreases rows@.len() - i,
    {
        let row = &rows[i];
        let key = row.key.as_str();
        let ghost before = w@;
        match &values[i] {
            FieldValue::Int(x) => w.int_property(key, *x),
            FieldValue::FloatBits(b) => w.float_property_bits(key, *b),
            FieldValue::Bool(b) => w.bool_property(key, *b),
            FieldValue::Null => w.null_property(key),
            FieldValue::Str(s) => {
                if row.format == Format::UniqueString {
                    w.unique_string_property(key, s.as_str());
                } else {
                    w.string_property(key, s.as_str());
                }
            },
        }
        assert(w@.properties.subrange(0, before.properties.len() as int) == before.properties);
        assert(w@.properties.subrange(0, start.len() as int) =~= start);
        i = i + 1;
    }
    let ghost out = w@.properties.subrange(start.len() as int, w@.properties.len() as int);
    assert forall|k: int| 0 <= k < rows@.len() implies #[trigger] out[k].0 == crate::derive::rows_view(rows@)[k].key by {
        assert(out[k] == w@.properties[start.len() + k]);
    }
}

} // verus!
