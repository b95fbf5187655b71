//! Rendering a record as a list of field descriptors and as canonical text.
use crate::record::{Field, FieldValue, Record};
use vstd::prelude::*;
use wp_data_fmt::{DataFormat, Json};
use wp_model_core::model::{DataField, DataRecord, FieldStorage};

verus! {

/// A rendering-only projection of one field: its name, its kind and its value as text.
#[derive(Debug)]
pub struct ParsedField {
    pub name: String,
    pub field_type: String,
    pub value: String,
}

/// The encodings in which a record can be rendered as canonical text.
#[derive(Debug, Clone, Copy, PartialEq, Eq, Structural)]
pub enum Encoding {
    Json,
}

/// The character of a decimal digit `d < 10`.
pub open spec fn digit_char(d: nat) -> char {
    if d == 0 { '0' } else if d == 1 { '1' } else if d == 2 { '2' } else if d == 3 { '3' }
    else if d == 4 { '4' } else if d == 5 { '5' } else if d == 6 { '6' } else if d == 7 { '7' }
    else if d == 8 { '8' } else { '9' }
}

/// The decimal digits of a natural number, most significant first, without leading zeros.
pub open spec fn nat_decimal(n: nat) -> Seq<char>
    decreases n,
{
    if n < 10 {
        seq![digit_char(n)]
    } else {
        nat_decimal(n / 10).push(digit_char(n % 10))
    }
}

/// The decimal text of an integer, with a leading `-` when it is negative.
pub open spec fn decimal(i: int) -> Seq<char> {
    if i < 0 {
        seq!['-'] + nat_decimal((-i) as nat)
    } else {
        nat_decimal(i as nat)
    }
}

/// The kind name of a value, as the record model spells it.
pub open spec fn kind_name(v: FieldValue) -> Seq<char> {
    match v {
        FieldValue::Bool(_) => "bool"@,
        FieldValue::Int(_) => "int"@,
        FieldValue::Chars(_) => "chars"@,
    }
}

/// The value of a field as text.
pub open spec fn value_text(v: FieldValue) -> Seq<char> {
    match v {
        FieldValue::Bool(b) => if b { "true"@ } else { "false"@ },
        FieldValue::Int(d) => decimal(d as int),
        FieldValue::Chars(s) => s@,
    }
}

/// The descriptor that describes field `f`.
pub open spec fn describes(p: ParsedField, f: Field) -> bool {
    &&& p.name@ == f.name@
    &&& p.field_type@ == kind_name(f.value)
    &&& p.value@ == value_text(f.value)
}

/// The descriptors `ps` describe the fields `fs` one for one, in the same order.
pub open spec fn describes_all(ps: Seq<ParsedField>, fs: Seq<Field>) -> bool {
    &&& ps.len() == fs.len()
    &&& forall|i: int| 0 <= i < fs.len() ==> #[trigger] describes(ps[i], fs[i])
}

/// The JSON text that the record formatter gives for a record with these fields.
pub uninterp spec fn json_of(fields: Seq<Field>) -> Seq<char>;

/// The canonical text of a record in an encoding.
pub open spec fn rendered(fields: Seq<Field>, enc: Encoding) -> Seq<char> {
    match enc {
        Encoding::Json => json_of(fields),
    }
}

/// Relies on `i64`'s `Display` (through `to_string`): the decimal digits of the
/// value, with a leading `-` when it is negative.
#[verifier::external_body]
fn int_text(v: i64) -> (r: String)
    ensures
        r@ == decimal(v as int),
{
    v.to_string()
}

/// Relies on wp_data_fmt's `Json::format_record`, applied to the record's fields
/// (each one a `DataField` of the same name, kind and value): the text depends on
/// the fields alone.
#[verifier::external_body]
fn json_text(r: &Record) -> (s: String)
    ensures
        s@ == json_of(r.fields@),
{
    let items: Vec<FieldStorage> = r.fields.iter().map(|f| FieldStorage::from_owned(match &f.value {
        FieldValue::Bool(b) => DataField::from_bool(f.name.clone(), *b),
        FieldValue::Int(d) => DataField::from_int(f.name.clone(), *d),
        FieldValue::Chars(c) => DataField::from_chars(f.name.clone(), c.clone()),
    })).collect();
    #[allow(deprecated)]
    Json.format_record(&DataRecord::from(items))
}

/// Rendering is a function of the record: two field lists that both describe
/// the same fields agree field by field in name, kind and value text, and the
/// canonical text in an encoding is one text.
pub proof fn lemma_rendering_deterministic(ps1: Seq<ParsedField>, ps2: Seq<ParsedField>, fs: Seq<Field>, enc: Encoding)
    requires
        describes_all(ps1, fs),
        describes_all(ps2, fs),
    ensures
        ps1.len() == ps2.len(),
        forall|i: int| 0 <= i < ps1.len() ==> {
            &&& (#[trigger] ps1[i]).name@ == ps2[i].name@
            &&& ps1[i].field_type@ == ps2[i].field_type@
            &&& ps1[i].value@ == ps2[i].value@
        },
        rendered(fs, enc) == rendered(fs, enc),
{
    assert forall|i: int| 0 <= i < ps1.len() implies {
        &&& (#[trigger] ps1[i]).name@ == ps2[i].name@
        &&& ps1[i].field_type@ == ps2[i].field_type@
        &&& ps1[i].value@ == ps2[i].value@
    } by {
        assert(describes(ps1[i], fs[i]));
        assert(describes(ps2[i], fs[i]));
    }
}

/// The field list of a record has one descriptor per declared field, and each
/// descriptor carries its field's name and the text of its value.
pub proof fn lemma_field_list_matches_record(ps: Seq<ParsedField>, fs: Seq<Field>)
    requires
        describes_all(ps, fs),
    ensures
        ps.len() == fs.len(),
        forall|i: int| 0 <= i < fs.len() ==> (#[trigger] ps[i]).name@ == fs[i].name@ && ps[i].value@ == value_text(fs[i].value),
{
    assert forall|i: int| 0 <= i < fs.len() implies (#[trigger] ps[i]).name@ == fs[i].name@ && ps[i].value@ == value_text(fs[i].value) by {
        assert(describes(ps[i], fs[i]));
    }
}

/// Describes one field.
pub fn describe(f: &Field) -> (p: ParsedField)
    ensures
        describes(p, *f),
{
    broadcast use vstd::string::to_string_from_display_ensures_for_str;
    let (field_type, value) = match &f.value {
        FieldValue::Bool(b) => (
            "bool".to_string(),
            if *b { "true".to_string() } else { "false".to_string() },
        ),
        FieldValue::Int(d) => ("int".to_string(), int_text(*d)),
        FieldValue::Chars(s) => ("chars".to_string(), s.clone()),
    };
    ParsedField { name: f.name.clone(), field_type, value }
}

/// The field descriptors of a record, in the record's own field order.
pub fn to_fields(r: &Record) -> (out: Vec<ParsedField>)
    ensures
        describes_all(out@, r.fields@),
{
    let mut out: Vec<ParsedField> = Vec::new();
    let mut i: usize = 0;
    while i < r.fields.len()
        invariant
            i <= r.fields@.len(),
            describes_all(out@, r.fields@.subrange(0, i as int)),
        decreases r.fields@.len() - i,
    {
        let p = describe(&r.fields[i]);
        out.push(p);
        i = i + 1;
        assert(describes_all(out@, r.fields@.subrange(0, i as int))) by {
            assert forall|k: int| 0 <= k < i implies #[trigger] describes(out@[k], r.fields@.subrange(0, i as int)[k]) by {
                if k < i - 1 {
                    assert(r.fields@.subrange(0, i as int)[k] == r.fields@.subrange(0, i - 1)[k]);
                }
            }
        }
    }
    assert(r.fields@.subrange(0, i as int) =~= r.fields@);
    out
}

/// The canonical text of a record in the chosen encoding.
pub fn render(r: &Record, enc: Encoding) -> (s: String)
    ensures
        s@ == rendered(r.fields@, enc),
{
    match enc {
        Encoding::Json => json_text(r),
    }
}

} // verus!
