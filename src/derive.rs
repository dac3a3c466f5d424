//! The schema derivation engine: from an annotated record definition to the
//! type name, the validated display locations and the display rows of the
//! marker type, or to the first annotation error met.
use vstd::prelude::*;
use crate::vocab::{
    Format, Location, format_of, location_of, format_from_name, location_from_name, str_eq,
};

verus! {

/// One argument inside an annotation's parentheses, `Integer` in `#[format(Integer)]`.
#[derive(Clone, Debug)]
pub struct NestedArg {
    /// The argument's path as written.
    pub path: String,
    /// Whether the path is a single identifier.
    pub is_ident: bool,
}

/// An annotation on the record type or on one of its fields.
#[derive(Clone, Debug)]
pub struct Attribute {
    /// The annotation's path as written, `format` in `#[format(Integer)]`.
    pub path: String,
    /// Outer annotations (`#[..]`) are read; inner ones (`#![..]`) are skipped.
    pub outer: bool,
    /// The arguments in parentheses, or `None` where the annotation is not a
    /// well-formed parenthesised list of paths.
    pub args: Option<Vec<NestedArg>>,
}

/// A named field of the record with its annotations.
#[derive(Clone, Debug)]
pub struct Field {
    pub name: String,
    pub attrs: Vec<Attribute>,
}

/// The input of the derivation: a record type with named fields.
#[derive(Clone, Debug)]
pub struct RecordDefinition {
    pub name: String,
    pub attrs: Vec<Attribute>,
    pub fields: Vec<Field>,
}

/// What went wrong in a derivation.
#[derive(Clone, Copy, Debug, PartialEq, Eq, Structural)]
pub enum ErrorKind {
    /// A `marker_display` argument names no display location.
    UnsupportedLocation,
    /// A `marker_display` argument is not a single identifier.
    ExpectedLocation,
    /// A `format` argument names no format.
    UnsupportedFormat,
    /// A `format` list is not exactly one argument, or its argument is not
    /// a single identifier.
    ExpectedFormat,
    /// A field carries a second `format` annotation.
    TooManyFormats,
    /// A `marker_display` or `format` annotation has no parenthesised list.
    ExpectedArguments,
}

/// The annotation, or the argument inside it, that an error is pinned to.
/// Indices count the annotations of the type or of a field, the fields of the
/// record, and the arguments of an annotation, all from zero.
#[derive(Clone, Copy, Debug, PartialEq, Eq, Structural)]
pub enum Site {
    TypeAttr { attr: usize },
    TypeArg { attr: usize, arg: usize },
    FieldAttr { field: usize, attr: usize },
    FieldArg { field: usize, attr: usize, arg: usize },
}

/// A derivation error, pinned to the offending annotation.
#[derive(Clone, Copy, Debug, PartialEq, Eq, Structural)]
pub struct DeriveError {
    pub kind: ErrorKind,
    pub site: Site,
}

impl ErrorKind {
    /// The human-readable message of this kind of error.
    pub fn message(&self) -> (r: &'static str)
        ensures
            r@ == error_message(*self),
    {
        match self {
            ErrorKind::UnsupportedLocation => "Unsupported marker display location",
            ErrorKind::ExpectedLocation => "Expected a marker display location as argument to 'marker_display'",
            ErrorKind::UnsupportedFormat => "Unsupported format specifier",
            ErrorKind::ExpectedFormat => "Expected a marker format specifier as argument to 'format'",
            ErrorKind::TooManyFormats => "Too many format arguments",
            ErrorKind::ExpectedArguments => "Expected a parenthesised list of arguments",
        }
    }
}

/// The message of each kind of error.
pub open spec fn error_message(k: ErrorKind) -> Seq<char> {
    match k {
        ErrorKind::UnsupportedLocation => "Unsupported marker display location"@,
        ErrorKind::ExpectedLocation => "Expected a marker display location as argument to 'marker_display'"@,
        ErrorKind::UnsupportedFormat => "Unsupported format specifier"@,
        ErrorKind::ExpectedFormat => "Expected a marker format specifier as argument to 'format'"@,
        ErrorKind::TooManyFormats => "Too many format arguments"@,
        ErrorKind::ExpectedArguments => "Expected a parenthesised list of arguments"@,
    }
}

/// One display row of a marker type: the data key, its label, its format and
/// whether it is searchable.
#[derive(Clone, Debug)]
pub struct RowSpec {
    pub key: String,
    pub label: String,
    pub format: Format,
    pub searchable: bool,
}

/// The mathematical value of a display row.
pub struct RowView {
    pub key: Seq<char>,
    pub label: Seq<char>,
    pub format: Format,
    pub searchable: bool,
}

impl View for RowSpec {
    type V = RowView;

    open spec fn view(&self) -> RowView {
        RowView { key: self.key@, label: self.label@, format: self.format, searchable: self.searchable }
    }
}

/// What a successful derivation produces for a record type.
#[derive(Clone, Debug)]
pub struct MarkerImpl {
    /// The name the marker type reports.
    pub marker_name: String,
    /// The validated display locations requested by `marker_display`.
    pub locations: Vec<Location>,
    /// One display row per field, in field order.
    pub rows: Vec<RowSpec>,
}

/// The mathematical value of a derivation's product.
pub struct MarkerImplView {
    pub marker_name: Seq<char>,
    pub locations: Seq<Location>,
    pub rows: Seq<RowView>,
}

pub open spec fn rows_view(rows: Seq<RowSpec>) -> Seq<RowView> {
    rows.map_values(|r: RowSpec| r@)
}

impl View for MarkerImpl {
    type V = MarkerImplView;

    open spec fn view(&self) -> MarkerImplView {
        MarkerImplView {
            marker_name: self.marker_name@,
            locations: self.locations@,
            rows: rows_view(self.rows@),
        }
    }
}

/// Whether `a` is an outer annotation with the single-identifier path `name`.
pub open spec fn is_annotation(a: Attribute, name: Seq<char>) -> bool {
    a.outer && a.path@ == name
}

/// The location named by the `k`-th argument of the type's `i`-th annotation.
pub open spec fn location_arg(arg: NestedArg, i: nat, k: nat) -> Result<Location, DeriveError> {
    let site = Site::TypeArg { attr: i as usize, arg: k as usize };
    if !arg.is_ident {
        Err(DeriveError { kind: ErrorKind::ExpectedLocation, site })
    } else {
        match location_of(arg.path@) {
            Some(l) => Ok(l),
            None => Err(DeriveError { kind: ErrorKind::UnsupportedLocation, site }),
        }
    }
}

/// The locations named by the first `n` arguments of the type's `i`-th
/// annotation, or the first error among them.
pub open spec fn location_args(args: Seq<NestedArg>, i: nat, n: nat) -> Result<Seq<Location>, DeriveError>
    decreases n,
{
    if n == 0 {
        Ok(Seq::empty())
    } else {
        match location_args(args, i, (n - 1) as nat) {
            Err(e) => Err(e),
            Ok(ls) => match location_arg(args[n - 1], i, (n - 1) as nat) {
                Err(e) => Err(e),
                Ok(l) => Ok(ls.push(l)),
            },
        }
    }
}

/// The locations requested by the type's `i`-th annotation: none unless it is
/// `marker_display`.
pub open spec fn attr_locations(a: Attribute, i: nat) -> Result<Seq<Location>, DeriveError> {
    if !is_annotation(a, "marker_display"@) {
        Ok(Seq::empty())
    } else {
        match a.args {
            None => Err(DeriveError { kind: ErrorKind::ExpectedArguments, site: Site::TypeAttr { attr: i as usize } }),
            Some(args) => location_args(args@, i, args@.len()),
        }
    }
}

/// The locations requested by the first `n` annotations of the type, in order,
/// or the first error among them.
pub open spec fn type_locations(attrs: Seq<Attribute>, n: nat) -> Result<Seq<Location>, DeriveError>
    decreases n,
{
    if n == 0 {
        Ok(Seq::empty())
    } else {
        match type_locations(attrs, (n - 1) as nat) {
            Err(e) => Err(e),
            Ok(ls) => match attr_locations(attrs[n - 1], (n - 1) as nat) {
                Err(e) => Err(e),
                Ok(more) => Ok(ls + more),
            },
        }
    }
}

/// The format named by the `k`-th argument of annotation `ai` of field `fi`.
pub open spec fn format_arg(arg: NestedArg, fi: nat, ai: nat, k: nat) -> Result<Format, DeriveError> {
    let site = Site::FieldArg { field: fi as usize, attr: ai as usize, arg: k as usize };
    if !arg.is_ident {
        Err(DeriveError { kind: ErrorKind::ExpectedFormat, site })
    } else {
        match format_of(arg.path@) {
            Some(f) => Ok(f),
            None => Err(DeriveError { kind: ErrorKind::UnsupportedFormat, site }),
        }
    }
}

/// The format named by the list of annotation `ai` of field `fi`: the list
/// must hold exactly one argument, an identifier from the format vocabulary.
pub open spec fn format_list(args: Seq<NestedArg>, fi: nat, ai: nat) -> Result<Format, DeriveError> {
    if args.len() != 1 {
        Err(DeriveError { kind: ErrorKind::ExpectedFormat, site: Site::FieldAttr { field: fi as usize, attr: ai as usize } })
    } else {
        format_arg(args[0], fi, ai, 0)
    }
}

/// The effect of annotation `ai` of field `fi` on the field's format and
/// searchable flag.
pub open spec fn scan_step(a: Attribute, fi: nat, ai: nat, fmt: Option<Format>, searchable: bool) -> Result<(Option<Format>, bool), DeriveError> {
    if is_annotation(a, "searchable"@) {
        Ok((fmt, true))
    } else if is_annotation(a, "format"@) {
        if fmt is Some {
            Err(DeriveError { kind: ErrorKind::TooManyFormats, site: Site::FieldAttr { field: fi as usize, attr: ai as usize } })
        } else {
            match a.args {
                None => Err(DeriveError { kind: ErrorKind::ExpectedArguments, site: Site::FieldAttr { field: fi as usize, attr: ai as usize } }),
                Some(args) => match format_list(args@, fi, ai) {
                    Err(e) => Err(e),
                    Ok(f) => Ok((Some(f), searchable)),
                },
            }
        }
    } else {
        Ok((fmt, searchable))
    }
}

/// The format and searchable flag set by the first `n` annotations of field
/// `fi`, or the first error among them.
pub open spec fn field_scan(attrs: Seq<Attribute>, fi: nat, n: nat) -> Result<(Option<Format>, bool), DeriveError>
    decreases n,
{
    if n == 0 {
        Ok((None, false))
    } else {
        match field_scan(attrs, fi, (n - 1) as nat) {
            Err(e) => Err(e),
            Ok(st) => scan_step(attrs[n - 1], fi, (n - 1) as nat, st.0, st.1),
        }
    }
}

/// The display row of field `fi`: keyed and labelled by the field's name, in
/// the declared format or `String` where none is declared.
pub open spec fn field_row(f: Field, fi: nat) -> Result<RowView, DeriveError> {
    match field_scan(f.attrs@, fi, f.attrs@.len()) {
        Err(e) => Err(e),
        Ok(st) => Ok(RowView {
            key: f.name@,
            label: f.name@,
            format: match st.0 {
                Some(x) => x,
                None => Format::String,
            },
            searchable: st.1,
        }),
    }
}

/// The display rows of the first `n` fields, in order, or the first error
/// among them.
pub open spec fn fields_rows(fields: Seq<Field>, n: nat) -> Result<Seq<RowView>, DeriveError>
    decreases n,
{
    if n == 0 {
        Ok(Seq::empty())
    } else {
        match fields_rows(fields, (n - 1) as nat) {
            Err(e) => Err(e),
            Ok(rs) => match field_row(fields[n - 1], (n - 1) as nat) {
                Err(e) => Err(e),
                Ok(r) => Ok(rs.push(r)),
            },
        }
    }
}

/// The whole derivation: the type's annotations are checked first, then the
/// fields in order; the first error met is the result.
pub open spec fn derive_spec(def: RecordDefinition) -> Result<MarkerImplView, DeriveError> {
    match type_locations(def.attrs@, def.attrs@.len()) {
        Err(e) => Err(e),
        Ok(ls) => match fields_rows(def.fields@, def.fields@.len()) {
            Err(e) => Err(e),
            Ok(rs) => Ok(MarkerImplView { marker_name: def.name@, locations: ls, rows: rs }),
        },
    }
}

/// Once an error is met among the first `k` arguments, it stays the result.
pub proof fn lemma_location_args_err(args: Seq<NestedArg>, i: nat, k: nat, n: nat)
    requires
        k <= n,
        location_args(args, i, k) is Err,
    ensures
        location_args(args, i, n) == location_args(args, i, k),
    decreases n,
{
    if n > k {
        lemma_location_args_err(args, i, k, (n - 1) as nat);
    }
}

/// Once an error is met among the first `k` annotations, it stays the result.
pub proof fn lemma_type_locations_err(attrs: Seq<Attribute>, k: nat, n: nat)
    requires
        k <= n,
        type_locations(attrs, k) is Err,
    ensures
        type_locations(attrs, n) == type_locations(attrs, k),
    decreases n,
{
    if n > k {
        lemma_type_locations_err(attrs, k, (n - 1) as nat);
    }
}

/// Once an error is met among the first `k` annotations, it stays the result.
pub proof fn lemma_field_scan_err(attrs: Seq<Attribute>, fi: nat, k: nat, n: nat)
    requires
        k <= n,
        field_scan(attrs, fi, k) is Err,
    ensures
        field_scan(attrs, fi, n) == field_scan(attrs, fi, k),
    decreases n,
{
    if n > k {
        lemma_field_scan_err(attrs, fi, k, (n - 1) as nat);
    }
}

/// Once an error is met among the first `k` fields, it stays the result.
pub proof fn lemma_fields_rows_err(fields: Seq<Field>, k: nat, n: nat)
    requires
        k <= n,
        fields_rows(fields, k) is Err,
    ensures
        fields_rows(fields, n) == fields_rows(fields, k),
    decreases n,
{
    if n > k {
        lemma_fields_rows_err(fields, k, (n - 1) as nat);
    }
}

/// The locations requested by annotation `i` of the record type.
pub fn parse_marker_display(a: &Attribute, i: usize) -> (r: Result<Vec<Location>, DeriveError>)
    ensures
        match r {
            Ok(v) => attr_locations(*a, i as nat) == Ok::<Seq<Location>, DeriveError>(v@),
            Err(e) => attr_locations(*a, i as nat) == Err::<Seq<Location>, DeriveError>(e),
        },
{
    let mut out: Vec<Location> = Vec::new();
    if !a.outer || !str_eq(a.path.as_str(), "marker_display") {
        return Ok(out);
    }
    match &a.args {
        None => Err(DeriveError { kind: ErrorKind::ExpectedArguments, site: Site::TypeAttr { attr: i } }),
        Some(args) => {
            let mut k: usize = 0;
            while k < args.len()
                invariant
                    a.args == Some(*args),
                    is_annotation(*a, "marker_display"@),
                    k <= args@.len(),
                    location_args(args@, i as nat, k as nat) == Ok::<Seq<Location>, DeriveError>(out@),
                decreases args@.len() - k,
            {
                let arg = &args[k];
                let site = Site::TypeArg { attr: i, arg: k };
                if !arg.is_ident {
                    proof { lemma_location_args_err(args@, i as nat, (k + 1) as nat, args@.len()); }
                    return Err(DeriveError { kind: ErrorKind::ExpectedLocation, site });
                }
                match location_from_name(arg.path.as_str()) {
                    None => {
                        proof { lemma_location_args_err(args@, i as nat, (k + 1) as nat, args@.len()); }
                        return Err(DeriveError { kind: ErrorKind::UnsupportedLocation, site });
                    },
                    Some(l) => {
                        out.push(l);
                    },
                }
                k = k + 1;
            }
            Ok(out)
        },
    }
}

/// The display locations requested by the record type's annotations, in
/// order, or the first error among them.
pub fn marker_locations(attrs: &Vec<Attribute>) -> (r: Result<Vec<Location>, DeriveError>)
    ensures
        match r {
            Ok(v) => type_locations(attrs@, attrs@.len()) == Ok::<Seq<Location>, DeriveError>(v@),
            Err(e) => type_locations(attrs@, attrs@.len()) == Err::<Seq<Location>, DeriveError>(e),
        },
{
    let mut out: Vec<Location> = Vec::new();
    let mut i: usize = 0;
    while i < attrs.len()
        invariant
            i <= attrs@.len(),
            type_locations(attrs@, i as nat) == Ok::<Seq<Location>, DeriveError>(out@),
        decreases attrs@.len() - i,
    {
        match parse_marker_display(&attrs[i], i) {
            Err(e) => {
                proof { lemma_type_locations_err(attrs@, (i + 1) as nat, attrs@.len()); }
                return Err(e);
            },
            Ok(more) => {
                let mut more = more;
                out.append(&mut more);
            },
        }
        i = i + 1;
    }
    Ok(out)
}

/// The format named by annotation `ai` of field `fi`, a `format` annotation
/// with a parenthesised list.
pub fn parse_format(a: &Attribute, fi: usize, ai: usize) -> (r: Result<Format, DeriveError>)
    requires
        a.args is Some,
    ensures
        match r {
            Ok(f) => format_list(a.args->0@, fi as nat, ai as nat) == Ok::<Format, DeriveError>(f),
            Err(e) => format_list(a.args->0@, fi as nat, ai as nat) == Err::<Format, DeriveError>(e),
        },
{
    let args = match &a.args {
        Some(args) => args,
        None => {
            return Err(DeriveError { kind: ErrorKind::ExpectedArguments, site: Site::FieldAttr { field: fi, attr: ai } });
        },
    };
    if args.len() != 1 {
        return Err(DeriveError { kind: ErrorKind::ExpectedFormat, site: Site::FieldAttr { field: fi, attr: ai } });
    }
    let arg = &args[0];
    let site = Site::FieldArg { field: fi, attr: ai, arg: 0 };
    if !arg.is_ident {
        return Err(DeriveError { kind: ErrorKind::ExpectedFormat, site });
    }
    match format_from_name(arg.path.as_str()) {
        None => Err(DeriveError { kind: ErrorKind::UnsupportedFormat, site }),
        Some(f) => Ok(f),
    }
}

/// The display row of field `fi`.
pub fn field_display(f: &Field, fi: usize) -> (r: Result<RowSpec, DeriveError>)
    ensures
        match r {
            Ok(row) => field_row(*f, fi as nat) == Ok::<RowView, DeriveError>(row@),
            Err(e) => field_row(*f, fi as nat) == Err::<RowView, DeriveError>(e),
        },
{
    let mut fmt: Option<Format> = None;
    let mut searchable = false;
    let mut ai: usize = 0;
    while ai < f.attrs.len()
        invariant
            ai <= f.attrs@.len(),
            field_scan(f.attrs@, fi as nat, ai as nat) == Ok::<(Option<Format>, bool), DeriveError>((fmt, searchable)),
        decreases f.attrs@.len() - ai,
    {
        let a = &f.attrs[ai];
        if a.outer && str_eq(a.path.as_str(), "searchable") {
            searchable = true;
        } else if a.outer && str_eq(a.path.as_str(), "format") {
            if fmt.is_some() {
                proof { lemma_field_scan_err(f.attrs@, fi as nat, (ai + 1) as nat, f.attrs@.len()); }
                return Err(DeriveError { kind: ErrorKind::TooManyFormats, site: Site::FieldAttr { field: fi, attr: ai } });
            }
            if a.args.is_none() {
                proof { lemma_field_scan_err(f.attrs@, fi as nat, (ai + 1) as nat, f.attrs@.len()); }
                return Err(DeriveError { kind: ErrorKind::ExpectedArguments, site: Site::FieldAttr { field: fi, attr: ai } });
            }
            match parse_format(a, fi, ai) {
                Err(e) => {
                    proof { lemma_field_scan_err(f.attrs@, fi as nat, (ai + 1) as nat, f.attrs@.len()); }
                    return Err(e);
                },
                Ok(x) => {
                    fmt = Some(x);
                },
            }
        }
        ai = ai + 1;
    }
    let format = match fmt {
        Some(x) => x,
        None => Format::String,
    };
    Ok(RowSpec { key: f.name.clone(), label: f.name.clone(), format, searchable })
}

/// The display rows of all fields, one per field in field order, or the
/// first error among them.
pub fn marker_type_display_impl(fields: &Vec<Field>) -> (r: Result<Vec<RowSpec>, DeriveError>)
    ensures
        match r {
            Ok(rows) => fields_rows(fields@, fields@.len()) == Ok::<Seq<RowView>, DeriveError>(rows_view(rows@)),
            Err(e) => fields_rows(fields@, fields@.len()) == Err::<Seq<RowView>, DeriveError>(e),
        },
{
    let mut rows: Vec<RowSpec> = Vec::new();
    assert(rows_view(rows@) =~= Seq::<RowView>::empty());
    let mut fi: usize = 0;
    while fi < fields.len()
        invariant
            fi <= fields@.len(),
            fields_rows(fields@, fi as nat) == Ok::<Seq<RowView>, DeriveError>(rows_view(rows@)),
        decreases fields@.len() - fi,
    {
        match field_display(&fields[fi], fi) {
            Err(e) => {
                proof { lemma_fields_rows_err(fields@, (fi + 1) as nat, fields@.len()); }
                return Err(e);
            },
            Ok(row) => {
                let ghost before = rows@;
                rows.push(row);
                proof {
                    assert(rows_view(rows@) =~= rows_view(before).push(row@));
                }
            },
        }
        fi = fi + 1;
    }
    Ok(rows)
}

/// The name a marker type reports: the record type's identifier.
pub fn marker_type_name_impl(name: &String) -> (r: String)
    ensures
        r@ == name@,
{
    name.clone()
}

/// Derives a marker type from its record definition: the type's annotations
/// are validated, then each field yields one display row; the first error
/// aborts the whole derivation.
pub fn derive_profiler_marker(def: &RecordDefinition) -> (r: Result<MarkerImpl, DeriveError>)
    ensures
        match r {
            Ok(m) => derive_spec(*def) == Ok::<MarkerImplView, DeriveError>(m@),
            Err(e) => derive_spec(*def) == Err::<MarkerImplView, DeriveError>(e),
        },
{
    let locations = match marker_locations(&def.attrs) {
        Err(e) => {
            return Err(e);
        },
        Ok(ls) => ls,
    };
    let rows = match marker_type_display_impl(&def.fields) {
        Err(e) => {
            return Err(e);
        },
        Ok(rs) => rs,
    };
    let marker_name = marker_type_name_impl(&def.name);
    Ok(MarkerImpl { marker_name, locations, rows })
}

} // verus!
