//! The writer that streams a marker's data as JSON object properties.
use vstd::prelude::*;
use crate::vocab::str_eq;

verus! {

/// The value of one streamed property. A float is held as its IEEE-754 bits;
/// a unique string as its index in the writer's string table.
#[derive(Clone, Debug, PartialEq, Eq)]
pub enum PropertyValue {
    Int(i64),
    FloatBits(u64),
    Bool(bool),
    Str(String),
    UniqueString(usize),
    Null,
}

/// The mathematical value of a property's value.
pub enum ValueView {
    Int(i64),
    FloatBits(u64),
    Bool(bool),
    Str(Seq<char>),
    UniqueString(nat),
    Null,
}

impl View for PropertyValue {
    type V = ValueView;

    open spec fn view(&self) -> ValueView {
        match self {
            PropertyValue::Int(v) => ValueView::Int(*v),
            PropertyValue::FloatBits(b) => ValueView::FloatBits(*b),
            PropertyValue::Bool(b) => ValueView::Bool(*b),
            PropertyValue::Str(s) => ValueView::Str(s@),
            PropertyValue::UniqueString(i) => ValueView::UniqueString(*i as nat),
            PropertyValue::Null => ValueView::Null,
        }
    }
}

/// One streamed property: `"<name>": <value>`.
#[derive(Clone, Debug)]
pub struct Property {
    pub name: String,
    pub value: PropertyValue,
}

impl View for Property {
    type V = (Seq<char>, ValueView);

    open spec fn view(&self) -> (Seq<char>, ValueView) {
        (self.name@, self.value@)
    }
}

pub open spec fn properties_view(ps: Seq<Property>) -> Seq<(Seq<char>, ValueView)> {
    ps.map_values(|p: Property| p@)
}

pub open spec fn strings_view(ss: Seq<String>) -> Seq<Seq<char>> {
    ss.map_values(|s: String| s@)
}

/// Whether no string appears twice in `t`.
pub open spec fn distinct(t: Seq<Seq<char>>) -> bool {
    forall|i: int, j: int| 0 <= i < j < t.len() ==> t[i] != t[j]
}

/// The streamed properties in call order, and the table of unique strings in
/// the order they were first met.
pub struct WriterView {
    pub properties: Seq<(Seq<char>, ValueView)>,
    pub strings: Seq<Seq<char>>,
}

/// Streams marker data as JSON object properties, in call order.
#[derive(Clone, Debug)]
pub struct JSONWriter {
    properties: Vec<Property>,
    strings: Vec<String>,
}

impl View for JSONWriter {
    type V = WriterView;

    closed spec fn view(&self) -> WriterView {
        WriterView { properties: properties_view(self.properties@), strings: strings_view(self.strings@) }
    }
}

/// `w` with one more property at its end.
pub open spec fn with_property(w: WriterView, name: Seq<char>, v: ValueView) -> WriterView {
    WriterView { properties: w.properties.push((name, v)), ..w }
}

impl JSONWriter {
    /// The writer's invariant: its string table holds no string twice.
    pub open spec fn wf(&self) -> bool {
        distinct(self@.strings)
    }

    /// A writer with nothing streamed yet.
    pub fn new() -> (r: Self)
        ensures
            r.wf(),
            r@.properties == Seq::<(Seq<char>, ValueView)>::empty(),
            r@.strings == Seq::<Seq<char>>::empty(),
    {
        let r = JSONWriter { properties: Vec::new(), strings: Vec::new() };
        assert(r@.properties =~= Seq::<(Seq<char>, ValueView)>::empty());
        assert(r@.strings =~= Seq::<Seq<char>>::empty());
        r
    }

    fn push_property(&mut self, name: &str, value: PropertyValue)
        ensures
            final(self)@ == with_property(old(self)@, name@, value@),
            final(self).wf() == old(self).wf(),
    {
        let ghost before = self.properties@;
        self.properties.push(Property { name: name.to_owned(), value });
        assert(properties_view(self.properties@) =~= properties_view(before).push((name@, value@)));
    }

    /// Adds an int property: `"<name>": <value>`.
    pub fn int_property(&mut self, name: &str, value: i64)
        requires
            old(self).wf(),
        ensures
            final(self).wf(),
            final(self)@ == with_property(old(self)@, name@, ValueView::Int(value)),
    {
        self.push_property(name, PropertyValue::Int(value));
    }

    /// Adds a float property, given by its IEEE-754 bits: `"<name>": <value>`.
    pub fn float_property_bits(&mut self, name: &str, bits: u64)
        requires
            old(self).wf(),
        ensures
            final(self).wf(),
            final(self)@ == with_property(old(self)@, name@, ValueView::FloatBits(bits)),
    {
        self.push_property(name, PropertyValue::FloatBits(bits));
    }

    /// Adds a bool property: `"<name>": <value>`.
    pub fn bool_property(&mut self, name: &str, value: bool)
        requires
            old(self).wf(),
        ensures
            final(self).wf(),
            final(self)@ == with_property(old(self)@, name@, ValueView::Bool(value)),
    {
        self.push_property(name, PropertyValue::Bool(value));
    }

    /// Adds a string property: `"<name>": "<value>"`.
    pub fn string_property(&mut self, name: &str, value: &str)
        requires
            old(self).wf(),
        ensures
            final(self).wf(),
            final(self)@ == with_property(old(self)@, name@, ValueView::Str(value@)),
    {
        self.push_property(name, PropertyValue::Str(value.to_owned()));
    }

    /// Adds a unique string property: `"<name>": <index>`, where the index
    /// is the string's place in the string table. A string met for the first
    /// time is added at the end of the table.
    pub fn unique_string_property(&mut self, name: &str, value: &str)
        requires
            old(self).wf(),
        ensures
            final(self).wf(),
            old(self)@.strings.contains(value@) ==> final(self)@.strings == old(self)@.strings,
            !old(self)@.strings.contains(value@) ==> final(self)@.strings == old(self)@.strings.push(value@),
            exists|i: nat|
                i < final(self)@.strings.len() && final(self)@.strings[i as int] == value@
                    && (forall|j: int| 0 <= j < final(self)@.strings.len() && final(self)@.strings[j] == value@ ==> j == i)
                    && #[trigger] final(self)@.properties == old(self)@.properties.push(
                    (name@, ValueView::UniqueString(i)),
                ),
    {
        let mut i: usize = 0;
        while i < self.strings.len()
            invariant
                i <= self.strings@.len(),
                forall|j: int| 0 <= j < i ==> self@.strings[j] != value@,
            ensures
                i <= self.strings@.len(),
                forall|j: int| 0 <= j < i ==> self@.strings[j] != value@,
                i < self.strings@.len() ==> self@.strings[i as int] == value@,
            decreases self.strings@.len() - i,
        {
            if str_eq(self.strings[i].as_str(), value) {
                break;
            }
            i = i + 1;
        }
        if i == self.strings.len() {
            let ghost before = self.strings@;
            self.strings.push(value.to_owned());
            assert(strings_view(self.strings@) =~= strings_view(before).push(value@));
        }
        assert(self@.strings[i as int] == value@);
        self.push_property(name, PropertyValue::UniqueString(i));
    }

    /// Adds a null property: `"<name>": null`.
    pub fn null_property(&mut self, name: &str)
        requires
            old(self).wf(),
        ensures
            final(self).wf(),
            final(self)@ == with_property(old(self)@, name@, ValueView::Null),
    {
        self.push_property(name, PropertyValue::Null);
    }

    /// The streamed properties, in call order.
    pub fn properties(&self) -> (r: &Vec<Property>)
        ensures
            properties_view(r@) == self@.properties,
    {
        &self.properties
    }

    /// The table of unique strings, in the order they were first met.
    pub fn strings(&self) -> (r: &Vec<String>)
        ensures
            strings_view(r@) == self@.strings,
    {
        &self.strings
    }
}

} // verus!
