//! What a supplier answers: a JSON document as plain values.
use crate::binary64::Binary64;
use crate::text::same;
use vstd::prelude::*;

verus! {

/// A JSON value. Numbers are those that a program computes with.
#[derive(Debug)]
pub enum Json {
    Null,
    Bool(bool),
    Number(Binary64),
    Text(String),
    List(Vec<Json>),
    Record(Vec<Field>),
}

/// A field of a record.
#[derive(Debug)]
pub struct Field {
    pub name: String,
    pub value: Json,
}

/// The value of the first field with a name.
pub open spec fn value_of(fields: Seq<Field>, name: Seq<char>) -> Option<Json>
    decreases fields.len(),
{
    if fields.len() == 0 {
        None
    } else if fields[0].name@ == name {
        Some(fields[0].value)
    } else {
        value_of(fields.drop_first(), name)
    }
}

impl Json {
    /// The value of a field, where this is a record that has it.
    pub open spec fn spec_field(self, name: Seq<char>) -> Option<Json> {
        match self {
            Json::Record(fields) => value_of(fields@, name),
            _ => None,
        }
    }

    /// The text in a field, where there is one.
    pub open spec fn spec_text_field(self, name: Seq<char>) -> Option<String> {
        match self.spec_field(name) {
            Some(Json::Text(text)) => Some(text),
            _ => None,
        }
    }

    /// The number in a field, where there is one.
    pub open spec fn spec_number_field(self, name: Seq<char>) -> Option<Binary64> {
        match self.spec_field(name) {
            Some(Json::Number(number)) => Some(number),
            _ => None,
        }
    }

    /// The rows of a response: what its field `results` lists.
    pub open spec fn spec_results(self) -> Seq<Json> {
        match self.spec_field("results"@) {
            Some(Json::List(rows)) => rows@,
            _ => Seq::empty(),
        }
    }

    /// The value of a field, where this is a record that has it.
    pub fn field(&self, name: &str) -> (r: Option<&Json>)
        ensures
            match r {
                Some(value) => self.spec_field(name@) == Some(*value),
                None => self.spec_field(name@) is None,
            },
    {
        let fields = match self {
            Json::Record(fields) => fields,
            _ => {
                return None;
            },
        };
        let ghost all = fields@;
        let mut i: usize = 0;
        assert(all.skip(0) =~= all);
        while i < fields.len()
            invariant
                i <= fields.len(),
                all == fields@,
                self.spec_field(name@) == value_of(all.skip(i as int), name@),
            decreases fields.len() - i,
        {
            assert(all.skip(i as int).drop_first() =~= all.skip(i + 1));
            if same(fields[i].name.as_str(), name) {
                return Some(&fields[i].value);
            }
            i += 1;
        }
        None
    }

    /// The text in a field, where there is one.
    pub fn text_field(&self, name: &str) -> (r: Option<String>)
        ensures
            r == self.spec_text_field(name@),
    {
        match self.field(name) {
            Some(Json::Text(text)) => Some(text.clone()),
            _ => None,
        }
    }

    /// The number in a field, where there is one.
    pub fn number_field(&self, name: &str) -> (r: Option<Binary64>)
        ensures
            r == self.spec_number_field(name@),
    {
        match self.field(name) {
            Some(Json::Number(number)) => Some(*number),
            _ => None,
        }
    }

    /// The rows of a response, where it lists any.
    pub fn results(&self) -> (r: Option<&Vec<Json>>)
        ensures
            match r {
                Some(rows) => rows@ == self.spec_results(),
                None => self.spec_results() == Seq::<Json>::empty(),
            },
    {
        match self.field("results") {
            Some(Json::List(rows)) => Some(rows),
            _ => None,
        }
    }
}

} // verus!
