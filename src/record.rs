//! The structured record that the stages produce and consume.
use vstd::prelude::*;

verus! {

/// The value of one field, tagged with its kind.
#[derive(Debug)]
pub enum FieldValue {
    Bool(bool),
    Int(i64),
    Chars(String),
}

/// One named field of a record.
#[derive(Debug)]
pub struct Field {
    pub name: String,
    pub value: FieldValue,
}

/// A parsed or transformed log entry: its fields in declaration order.
#[derive(Debug)]
pub struct Record {
    pub fields: Vec<Field>,
}

impl FieldValue {
    /// An independent copy of the value.
    pub fn duplicate(&self) -> (r: FieldValue)
        ensures
            r == *self,
    {
        match self {
            FieldValue::Bool(b) => FieldValue::Bool(*b),
            FieldValue::Int(d) => FieldValue::Int(*d),
            FieldValue::Chars(s) => FieldValue::Chars(s.clone()),
        }
    }
}

impl Field {
    /// An independent copy of the field.
    pub fn duplicate(&self) -> (r: Field)
        ensures
            r == *self,
    {
        Field { name: self.name.clone(), value: self.value.duplicate() }
    }
}

impl Record {
    /// A record with the given fields, in the given order.
    pub fn new(fields: Vec<Field>) -> (r: Record)
        ensures
            r.fields@ == fields@,
    {
        Record { fields }
    }

    /// The number of fields that the record declares.
    pub fn field_count(&self) -> (n: usize)
        ensures
            n == self.fields@.len(),
    {
        self.fields.len()
    }

    /// An independent snapshot of the record.
    pub fn duplicate(&self) -> (r: Record)
        ensures
            r.fields@ == self.fields@,
    {
        let mut out: Vec<Field> = Vec::new();
        let mut i: usize = 0;
        while i < self.fields.len()
            invariant
                i <= self.fields@.len(),
                out@ == self.fields@.subrange(0, i as int),
            decreases self.fields@.len() - i,
        {
            out.push(self.fields[i].duplicate());
            i = i + 1;
            assert(out@ =~= self.fields@.subrange(0, i as int));
        }
        assert(out@ =~= self.fields@);
        Record { fields: out }
    }
}

} // verus!
