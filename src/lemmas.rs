//! Laws of the derivation, stated over its mathematical model and proved.
use vstd::prelude::*;
use crate::derive::{
    Attribute, DeriveError, ErrorKind, Field, MarkerImplView, RecordDefinition, RowView,
    Site, derive_spec, field_row, field_scan, fields_rows, format_list, is_annotation,
    location_args, type_locations, attr_locations,
};
use crate::marker::{display_schema, row_entry};
use crate::schema::RowEntry;
use crate::vocab::{Format, Searchable, format_of, location_of};

verus! {

proof fn lemma_fields_rows_shape(fields: Seq<Field>, n: nat)
    requires
        n <= fields.len(),
        fields_rows(fields, n) is Ok,
    ensures
        fields_rows(fields, n)->Ok_0.len() == n,
        forall|i: int| 0 <= i < n ==> {
            &&& (#[trigger] fields_rows(fields, n)->Ok_0[i]).key == fields[i].name@
            &&& fields_rows(fields, n)->Ok_0[i].label == fields[i].name@
            &&& field_row(fields[i], i as nat) == Ok::<RowView, DeriveError>(fields_rows(fields, n)->Ok_0[i])
        },
    decreases n,
{
    if n > 0 {
        lemma_fields_rows_shape(fields, (n - 1) as nat);
    }
}

/// Every successful derivation yields exactly one display row per field, in
/// field order, keyed and labelled by the field's name; the schema built from
/// it holds exactly those rows, in that order.
pub proof fn lemma_one_row_per_field(def: RecordDefinition)
    requires
        derive_spec(def) is Ok,
    ensures
        ({
            let m = derive_spec(def)->Ok_0;
            let s = display_schema(m);
            &&& m.rows.len() == def.fields@.len()
            &&& s.rows.len() == def.fields@.len()
            &&& forall|i: int| 0 <= i < def.fields@.len() ==> {
                &&& (#[trigger] m.rows[i]).key == def.fields@[i].name@
                &&& m.rows[i].label == def.fields@[i].name@
                &&& field_row(def.fields@[i], i as nat) == Ok::<RowView, DeriveError>(m.rows[i])
                &&& s.rows[i] == row_entry(m.rows[i])
            }
        }),
{
    lemma_fields_rows_shape(def.fields@, def.fields@.len());
}

/// Deriving the same record definition twice gives the same result.
pub proof fn lemma_derive_deterministic(a: RecordDefinition, b: RecordDefinition)
    requires
        a == b,
    ensures
        derive_spec(a) == derive_spec(b),
        derive_spec(a) is Ok ==> display_schema(derive_spec(a)->Ok_0) == display_schema(derive_spec(b)->Ok_0),
{
}

/// Whether `a` is a `format` annotation whose list is exactly one
/// identifier from the format vocabulary.
pub open spec fn is_valid_format_annotation(a: Attribute) -> bool {
    &&& is_annotation(a, "format"@)
    &&& a.args is Some
    &&& a.args->0@.len() == 1
    &&& a.args->0@[0].is_ident
    &&& format_of(a.args->0@[0].path@) is Some
}

proof fn lemma_annotation_names_distinct()
    ensures
        "format"@ != "searchable"@,
{
    reveal_strlit("format");
    reveal_strlit("searchable");
    assert("format"@.len() == 6);
    assert("searchable"@.len() == 10);
}

proof fn lemma_scan_before_second_format(attrs: Seq<Attribute>, fi: nat, i: nat, j: nat, n: nat)
    requires
        i < j < attrs.len(),
        n <= j,
        is_valid_format_annotation(attrs[i as int]),
        forall|k: int| 0 <= k < j && k != i ==> !is_annotation(#[trigger] attrs[k], "format"@),
    ensures
        field_scan(attrs, fi, n) is Ok,
        ((field_scan(attrs, fi, n)->Ok_0).0 is Some) == (n > i),
    decreases n,
{
    lemma_annotation_names_distinct();
    if n > 0 {
        lemma_scan_before_second_format(attrs, fi, i, j, (n - 1) as nat);
    }
}

/// A field whose annotations hold a well-formed `format` annotation and,
/// later, a second `format` annotation, with no other `format` annotation
/// before the second, is rejected with the too-many-formats error pinned to
/// the second one.
pub proof fn lemma_second_format_rejected(f: Field, fi: nat, i: nat, j: nat)
    requires
        fi <= usize::MAX,
        j <= usize::MAX,
        i < j < f.attrs@.len(),
        is_valid_format_annotation(f.attrs@[i as int]),
        is_annotation(f.attrs@[j as int], "format"@),
        forall|k: int| 0 <= k < j && k != i ==> !is_annotation(#[trigger] f.attrs@[k], "format"@),
    ensures
        field_row(f, fi) == Err::<RowView, DeriveError>(
            DeriveError { kind: ErrorKind::TooManyFormats, site: Site::FieldAttr { field: fi as usize, attr: j as usize } },
        ),
{
    let attrs = f.attrs@;
    lemma_annotation_names_distinct();
    lemma_scan_before_second_format(attrs, fi, i, j, j);
    crate::derive::lemma_field_scan_err(attrs, fi, j + 1, attrs.len());
}

/// A field with a `searchable` annotation and no `format` annotation gets a
/// row in the `String` format that is searchable.
pub proof fn lemma_default_format(f: Field, fi: nat)
    requires
        exists|k: int| 0 <= k < f.attrs@.len() && is_annotation(#[trigger] f.attrs@[k], "searchable"@),
        forall|k: int| 0 <= k < f.attrs@.len() ==> !is_annotation(#[trigger] f.attrs@[k], "format"@),
    ensures
        field_row(f, fi) == Ok::<RowView, DeriveError>(
            RowView { key: f.name@, label: f.name@, format: Format::String, searchable: true },
        ),
        row_entry(field_row(f, fi)->Ok_0) == (RowEntry::Dynamic {
            key: f.name@,
            label: f.name@,
            format: Format::String,
            searchable: Searchable::Searchable,
        }),
{
    lemma_scan_without_format(f.attrs@, fi, f.attrs@.len());
}

proof fn lemma_scan_without_format(attrs: Seq<Attribute>, fi: nat, n: nat)
    requires
        n <= attrs.len(),
        forall|k: int| 0 <= k < attrs.len() ==> !is_annotation(#[trigger] attrs[k], "format"@),
    ensures
        field_scan(attrs, fi, n) == Ok::<(Option<Format>, bool), DeriveError>(
            (None, exists|k: int| 0 <= k < n && is_annotation(#[trigger] attrs[k], "searchable"@)),
        ),
    decreases n,
{
    if n > 0 {
        lemma_scan_without_format(attrs, fi, (n - 1) as nat);
        let m = (n - 1) as int;
        if is_annotation(attrs[m], "searchable"@) {
            assert(exists|k: int| 0 <= k < n && is_annotation(#[trigger] attrs[k], "searchable"@)) by {
                assert(is_annotation(attrs[m], "searchable"@));
            }
        } else {
            assert((exists|k: int| 0 <= k < n && is_annotation(#[trigger] attrs[k], "searchable"@))
                == (exists|k: int| 0 <= k < m && is_annotation(#[trigger] attrs[k], "searchable"@)));
        }
    }
}

/// A `marker_display` argument that is an identifier outside the location
/// vocabulary makes the derivation fail; where nothing before it is wrong,
/// with the unsupported-location error pinned to that argument.
pub proof fn lemma_unknown_location_rejected(def: RecordDefinition, i: nat, k: nat)
    requires
        i <= usize::MAX,
        k <= usize::MAX,
        i < def.attrs@.len(),
        is_annotation(def.attrs@[i as int], "marker_display"@),
        def.attrs@[i as int].args is Some,
        k < def.attrs@[i as int].args->0@.len(),
        def.attrs@[i as int].args->0@[k as int].is_ident,
        location_of(def.attrs@[i as int].args->0@[k as int].path@) is None,
    ensures
        derive_spec(def) is Err,
        type_locations(def.attrs@, i) is Ok && location_args(def.attrs@[i as int].args->0@, i, k) is Ok
            ==> derive_spec(def) == Err::<MarkerImplView, DeriveError>(
                DeriveError { kind: ErrorKind::UnsupportedLocation, site: Site::TypeArg { attr: i as usize, arg: k as usize } },
            ),
{
    let attrs = def.attrs@;
    let args = attrs[i as int].args->0@;
    assert(location_args(args, i, k + 1) is Err);
    crate::derive::lemma_location_args_err(args, i, k + 1, args.len());
    assert(attr_locations(attrs[i as int], i) is Err);
    assert(type_locations(attrs, i + 1) is Err);
    crate::derive::lemma_type_locations_err(attrs, i + 1, attrs.len());
}

/// A `format` annotation whose one argument is an identifier outside the
/// format vocabulary makes the field's row fail; where no format was set by
/// an earlier annotation of the field and nothing before it is wrong, with
/// the unsupported-format error pinned to that argument.
pub proof fn lemma_unknown_format_rejected(f: Field, fi: nat, ai: nat)
    requires
        fi <= usize::MAX,
        ai <= usize::MAX,
        ai < f.attrs@.len(),
        is_annotation(f.attrs@[ai as int], "format"@),
        f.attrs@[ai as int].args is Some,
        f.attrs@[ai as int].args->0@.len() == 1,
        f.attrs@[ai as int].args->0@[0].is_ident,
        format_of(f.attrs@[ai as int].args->0@[0].path@) is None,
    ensures
        field_row(f, fi) is Err,
        field_scan(f.attrs@, fi, ai) is Ok && (field_scan(f.attrs@, fi, ai)->Ok_0).0 is None
            ==> field_row(f, fi) == Err::<RowView, DeriveError>(
                DeriveError {
                    kind: ErrorKind::UnsupportedFormat,
                    site: Site::FieldArg { field: fi as usize, attr: ai as usize, arg: 0 },
                },
            ),
{
    lemma_annotation_names_distinct();
    let attrs = f.attrs@;
    assert(field_scan(attrs, fi, ai + 1) is Err);
    crate::derive::lemma_field_scan_err(attrs, fi, ai + 1, attrs.len());
}

/// A `format` annotation whose list does not hold exactly one argument makes
/// the field's row fail; where no format was set by an earlier annotation of
/// the field and nothing before it is wrong, with the expected-format error
/// pinned to that annotation.
pub proof fn lemma_malformed_format_rejected(f: Field, fi: nat, ai: nat)
    requires
        fi <= usize::MAX,
        ai <= usize::MAX,
        ai < f.attrs@.len(),
        is_annotation(f.attrs@[ai as int], "format"@),
        f.attrs@[ai as int].args is Some,
        f.attrs@[ai as int].args->0@.len() != 1,
    ensures
        field_row(f, fi) is Err,
        field_scan(f.attrs@, fi, ai) is Ok && (field_scan(f.attrs@, fi, ai)->Ok_0).0 is None
            ==> field_row(f, fi) == Err::<RowView, DeriveError>(
                DeriveError { kind: ErrorKind::ExpectedFormat, site: Site::FieldAttr { field: fi as usize, attr: ai as usize } },
            ),
{
    lemma_annotation_names_distinct();
    let attrs = f.attrs@;
    assert(field_scan(attrs, fi, ai + 1) is Err);
    crate::derive::lemma_field_scan_err(attrs, fi, ai + 1, attrs.len());
}

/// A field whose row fails makes the whole derivation fail; where the type's
/// annotations and the fields before it are sound, with that field's error.
pub proof fn lemma_field_error_fails_derivation(def: RecordDefinition, fi: nat)
    requires
        fi < def.fields@.len(),
        field_row(def.fields@[fi as int], fi) is Err,
    ensures
        derive_spec(def) is Err,
        type_locations(def.attrs@, def.attrs@.len()) is Ok && fields_rows(def.fields@, fi) is Ok
            ==> derive_spec(def) == Err::<MarkerImplView, DeriveError>(field_row(def.fields@[fi as int], fi)->Err_0),
{
    let fields = def.fields@;
    assert(fields_rows(fields, fi + 1) is Err);
    crate::derive::lemma_fields_rows_err(fields, fi + 1, fields.len());
}

/// A record with a field that carries a well-formed `format` annotation and,
/// later, a second one fails to derive; where the type's annotations and the
/// fields before it are sound, with the too-many-formats error pinned to the
/// second annotation.
pub proof fn lemma_second_format_fails_derivation(def: RecordDefinition, fi: nat, i: nat, j: nat)
    requires
        fi < def.fields@.len(),
        fi <= usize::MAX,
        j <= usize::MAX,
        i < j < def.fields@[fi as int].attrs@.len(),
        is_valid_format_annotation(def.fields@[fi as int].attrs@[i as int]),
        is_annotation(def.fields@[fi as int].attrs@[j as int], "format"@),
        forall|k: int| 0 <= k < j && k != i ==> !is_annotation(#[trigger] def.fields@[fi as int].attrs@[k], "format"@),
    ensures
        derive_spec(def) is Err,
        type_locations(def.attrs@, def.attrs@.len()) is Ok && fields_rows(def.fields@, fi) is Ok
            ==> derive_spec(def) == Err::<MarkerImplView, DeriveError>(
                DeriveError { kind: ErrorKind::TooManyFormats, site: Site::FieldAttr { field: fi as usize, attr: j as usize } },
            ),
{
    lemma_second_format_rejected(def.fields@[fi as int], fi, i, j);
    lemma_field_error_fails_derivation(def, fi);
}

/// A record with a field whose `format` annotation names an identifier
/// outside the format vocabulary fails to derive; where nothing before it is
/// wrong, with the unsupported-format error pinned to that argument.
pub proof fn lemma_unknown_format_fails_derivation(def: RecordDefinition, fi: nat, ai: nat)
    requires
        fi < def.fields@.len(),
        fi <= usize::MAX,
        ai <= usize::MAX,
        ai < def.fields@[fi as int].attrs@.len(),
        is_annotation(def.fields@[fi as int].attrs@[ai as int], "format"@),
        def.fields@[fi as int].attrs@[ai as int].args is Some,
        def.fields@[fi as int].attrs@[ai as int].args->0@.len() == 1,
        def.fields@[fi as int].attrs@[ai as int].args->0@[0].is_ident,
        format_of(def.fields@[fi as int].attrs@[ai as int].args->0@[0].path@) is None,
    ensures
        derive_spec(def) is Err,
        type_locations(def.attrs@, def.attrs@.len()) is Ok && fields_rows(def.fields@, fi) is Ok
            && field_scan(def.fields@[fi as int].attrs@, fi, ai) is Ok
            && (field_scan(def.fields@[fi as int].attrs@, fi, ai)->Ok_0).0 is None
            ==> derive_spec(def) == Err::<MarkerImplView, DeriveError>(
                DeriveError {
                    kind: ErrorKind::UnsupportedFormat,
                    site: Site::FieldArg { field: fi as usize, attr: ai as usize, arg: 0 },
                },
            ),
{
    lemma_unknown_format_rejected(def.fields@[fi as int], fi, ai);
    lemma_field_error_fails_derivation(def, fi);
}

/// In a successful derivation, a field with a `searchable` annotation and no
/// `format` annotation gets the row keyed and labelled by its name, in the
/// `String` format, searchable; the schema holds it as a searchable line.
pub proof fn lemma_default_format_in_derivation(def: RecordDefinition, fi: nat)
    requires
        derive_spec(def) is Ok,
        fi < def.fields@.len(),
        exists|k: int| 0 <= k < def.fields@[fi as int].attrs@.len() && is_annotation(#[trigger] def.fields@[fi as int].attrs@[k], "searchable"@),
        forall|k: int| 0 <= k < def.fields@[fi as int].attrs@.len() ==> !is_annotation(#[trigger] def.fields@[fi as int].attrs@[k], "format"@),
    ensures
        derive_spec(def)->Ok_0.rows[fi as int] == (RowView {
            key: def.fields@[fi as int].name@,
            label: def.fields@[fi as int].name@,
            format: Format::String,
            searchable: true,
        }),
        display_schema(derive_spec(def)->Ok_0).rows[fi as int] == (RowEntry::Dynamic {
            key: def.fields@[fi as int].name@,
            label: def.fields@[fi as int].name@,
            format: Format::String,
            searchable: Searchable::Searchable,
        }),
{
    lemma_one_row_per_field(def);
    lemma_default_format(def.fields@[fi as int], fi);
    let m = derive_spec(def)->Ok_0;
    assert(m.rows[fi as int] == field_row(def.fields@[fi as int], fi)->Ok_0);
}

} // verus!
