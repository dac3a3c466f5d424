//! The display schema of a marker type and the writer that streams a marker's
//! data as JSON properties.
use vstd::prelude::*;
use crate::vocab::{Format, Location, Searchable, str_eq};

verus! {

/// One line of a display schema: a data element with its label, format and
/// searchability, or a static label with a fixed value.
#[derive(Clone, Debug)]
pub enum SchemaRow {
    Dynamic { key: String, label: String, format: Format, searchable: Searchable },
    Static { label: String, value: String },
}

/// The mathematical value of a schema line.
pub enum RowEntry {
    Dynamic { key: Seq<char>, label: Seq<char>, format: Format, searchable: Searchable },
    Static { label: Seq<char>, value: Seq<char> },
}

impl View for SchemaRow {
    type V = RowEntry;

    open spec fn view(&self) -> RowEntry {
        match self {
            SchemaRow::Dynamic { key, label, format, searchable } => RowEntry::Dynamic {
                key: key@,
                label: label@,
                format: *format,
                searchable: *searchable,
            },
            SchemaRow::Static { label, value } => RowEntry::Static { label: label@, value: value@ },
        }
    }
}

pub open spec fn entries_view(rows: Seq<SchemaRow>) -> Seq<RowEntry> {
    rows.map_values(|r: SchemaRow| r@)
}

pub open spec fn label_view(l: Option<String>) -> Option<Seq<char>> {
    match l {
        Some(s) => Some(s@),
        None => None,
    }
}

/// This object collects all the information needed to stream the JSON schema
/// that tells the front-end how to display one type of marker.
#[derive(Clone, Debug)]
pub struct MarkerSchema {
    locations: Vec<Location>,
    special_frontend_location: bool,
    chart_label: Option<String>,
    tooltip_label: Option<String>,
    table_label: Option<String>,
    rows: Vec<SchemaRow>,
}

/// The mathematical value of a display schema.
pub struct MarkerSchemaView {
    pub locations: Seq<Location>,
    pub special_frontend_location: bool,
    pub chart_label: Option<Seq<char>>,
    pub tooltip_label: Option<Seq<char>>,
    pub table_label: Option<Seq<char>>,
    pub rows: Seq<RowEntry>,
}

impl View for MarkerSchema {
    type V = MarkerSchemaView;

    closed spec fn view(&self) -> MarkerSchemaView {
        MarkerSchemaView {
            locations: self.locations@,
            special_frontend_location: self.special_frontend_location,
            chart_label: label_view(self.chart_label),
            tooltip_label: label_view(self.tooltip_label),
            table_label: label_view(self.table_label),
            rows: entries_view(self.rows@),
        }
    }
}

/// A schema shown in the given locations, with no labels and no rows.
pub open spec fn fresh_schema(locations: Seq<Location>, special: bool) -> MarkerSchemaView {
    MarkerSchemaView {
        locations,
        special_frontend_location: special,
        chart_label: None,
        tooltip_label: None,
        table_label: None,
        rows: Seq::empty(),
    }
}

/// `s` with one more line at its end.
pub open spec fn with_row(s: MarkerSchemaView, e: RowEntry) -> MarkerSchemaView {
    MarkerSchemaView { rows: s.rows.push(e), ..s }
}

impl MarkerSchema {
    /// A marker schema shown in the given locations.
    pub fn new(locations: &[Location]) -> (r: Self)
        ensures
            r@ == fresh_schema(locations@, false),
    {
        let mut ls: Vec<Location> = Vec::new();
        let mut i: usize = 0;
        while i < locations.len()
            invariant
                i <= locations@.len(),
                ls@ == locations@.subrange(0, i as int),
            decreases locations@.len() - i,
        {
            ls.push(locations[i]);
            i = i + 1;
        }
        assert(ls@ =~= locations@);
        let r = MarkerSchema {
            locations: ls,
            special_frontend_location: false,
            chart_label: None,
            tooltip_label: None,
            table_label: None,
            rows: Vec::new(),
        };
        assert(r@.rows =~= Seq::<RowEntry>::empty());
        r
    }

    /// A marker schema for types that the front-end handles specially; nothing
    /// else should be set on it.
    pub fn new_with_special_frontend_location() -> (r: Self)
        ensures
            r@ == fresh_schema(Seq::empty(), true),
    {
        let r = MarkerSchema {
            locations: Vec::new(),
            special_frontend_location: true,
            chart_label: None,
            tooltip_label: None,
            table_label: None,
            rows: Vec::new(),
        };
        assert(r@.rows =~= Seq::<RowEntry>::empty());
        assert(r@.locations =~= Seq::<Location>::empty());
        r
    }

    /// Sets the label in the marker chart. It may hold element keys in braces,
    /// as in "This is {marker.data.text}".
    pub fn set_chart_label(&mut self, label: &str) -> (r: &mut Self)
        ensures
            r@ == (MarkerSchemaView { chart_label: Some(label@), ..old(self)@ }),
            *final(self) == *final(r),
    {
        self.chart_label = Some(label.to_owned());
        self
    }

    /// Sets the label in the marker chart tooltip.
    pub fn set_tooltip_label(&mut self, label: &str) -> (r: &mut Self)
        ensures
            r@ == (MarkerSchemaView { tooltip_label: Some(label@), ..old(self)@ }),
            *final(self) == *final(r),
    {
        self.tooltip_label = Some(label.to_owned());
        self
    }

    /// Sets the label in the marker table.
    pub fn set_table_label(&mut self, label: &str) -> (r: &mut Self)
        ensures
            r@ == (MarkerSchemaView { table_label: Some(label@), ..old(self)@ }),
            *final(self) == *final(r),
    {
        self.table_label = Some(label.to_owned());
        self
    }

    /// Sets the chart, tooltip and table labels to the same text.
    pub fn set_all_labels(&mut self, label: &str) -> (r: &mut Self)
        ensures
            r@ == (MarkerSchemaView {
                chart_label: Some(label@),
                tooltip_label: Some(label@),
                table_label: Some(label@),
                ..old(self)@
            }),
            *final(self) == *final(r),
    {
        self.chart_label = Some(label.to_owned());
        self.tooltip_label = Some(label.to_owned());
        self.table_label = Some(label.to_owned());
        self
    }

    fn push_row(&mut self, row: SchemaRow)
        ensures
            final(self)@ == with_row(old(self)@, row@),
    {
        let ghost before = self.rows@;
        self.rows.push(row);
        assert(entries_view(self.rows@) =~= entries_view(before).push(row@));
    }

    /// Adds a row for data element `key`, labelled by the key itself.
    pub fn add_key_format(&mut self, key: &str, format: Format) -> (r: &mut Self)
        ensures
            r@ == with_row(old(self)@, RowEntry::Dynamic {
                key: key@,
                label: key@,
                format,
                searchable: Searchable::NotSearchable,
            }),
            *final(self) == *final(r),
    {
        self.push_row(SchemaRow::Dynamic {
            key: key.to_owned(),
            label: key.to_owned(),
            format,
            searchable: Searchable::NotSearchable,
        });
        self
    }

    /// Adds a row for data element `key` with its own label.
    pub fn add_key_label_format(&mut self, key: &str, label: &str, format: Format) -> (r: &mut Self)
        ensures
            r@ == with_row(old(self)@, RowEntry::Dynamic {
                key: key@,
                label: label@,
                format,
                searchable: Searchable::NotSearchable,
            }),
            *final(self) == *final(r),
    {
        self.push_row(SchemaRow::Dynamic {
            key: key.to_owned(),
            label: label.to_owned(),
            format,
            searchable: Searchable::NotSearchable,
        });
        self
    }

    /// Adds a row for data element `key`, labelled by the key itself, that is
    /// searchable or not as given.
    pub fn add_key_format_searchable(&mut self, key: &str, format: Format, searchable: Searchable) -> (r: &mut Self)
        ensures
            r@ == with_row(old(self)@, RowEntry::Dynamic { key: key@, label: key@, format, searchable }),
            *final(self) == *final(r),
    {
        self.push_row(SchemaRow::Dynamic { key: key.to_owned(), label: key.to_owned(), format, searchable });
        self
    }

    /// Adds a row for data element `key` with its own label, searchable or
    /// not as given.
    pub fn add_key_label_format_searchable(
        &mut self,
        key: &str,
        label: &str,
        format: Format,
        searchable: Searchable,
    ) -> (r: &mut Self)
        ensures
            r@ == with_row(old(self)@, RowEntry::Dynamic { key: key@, label: label@, format, searchable }),
            *final(self) == *final(r),
    {
        self.push_row(SchemaRow::Dynamic { key: key.to_owned(), label: label.to_owned(), format, searchable });
        self
    }

    /// Adds a static row: a label with a fixed value.
    pub fn add_static_label_value(&mut self, label: &str, value: &str) -> (r: &mut Self)
        ensures
            r@ == with_row(old(self)@, RowEntry::Static { label: label@, value: value@ }),
            *final(self) == *final(r),
    {
        self.push_row(SchemaRow::Static { label: label.to_owned(), value: value.to_owned() });
        self
    }

    /// The locations the marker is shown in.
    pub fn locations(&self) -> (r: &Vec<Location>)
        ensures
            r@ == self@.locations,
    {
        &self.locations
    }

    /// Whether the front-end handles this marker type specially.
    pub fn has_special_frontend_location(&self) -> (r: bool)
        ensures
            r == self@.special_frontend_location,
    {
        self.special_frontend_location
    }

    /// The label in the marker chart, if set.
    pub fn chart_label(&self) -> (r: &Option<String>)
        ensures
            label_view(*r) == self@.chart_label,
    {
        &self.chart_label
    }

    /// The label in the marker chart tooltip, if set.
    pub fn tooltip_label(&self) -> (r: &Option<String>)
        ensures
            label_view(*r) == self@.tooltip_label,
    {
        &self.tooltip_label
    }

    /// The label in the marker table, if set.
    pub fn table_label(&self) -> (r: &Option<String>)
        ensures
            label_view(*r) == self@.table_label,
    {
        &self.table_label
    }

    /// The lines of the schema, in the order they were added.
    pub fn rows(&self) -> (r: &Vec<SchemaRow>)
        ensures
            entries_view(r@) == self@.rows,
    {
        &self.rows
    }
}

} // verus!
