//! The example data model a form edits, and its attribute bindings.
//!
//! A field descriptor refers to a model attribute through [`Attr`]; the
//! model exposes a getter and a setter per attribute over the tagged
//! raw-value union [`FieldValue`].

use vstd::prelude::*;

verus! {

/// The attributes of [`HelloWorldFormData`] a field descriptor can bind to.
#[derive(Clone, Copy, PartialEq, Eq, Structural, Debug)]
pub enum Attr {
    First,
    Last,
    Age,
    Sport,
}

/// A raw field value: either text or an unsigned number.
#[derive(Clone, PartialEq, Eq, Debug)]
pub enum FieldValue {
    Text(String),
    Num(u32),
}

/// Whether an attribute holds a numeric value (all others hold text).
pub open spec fn attr_is_numeric(a: Attr) -> bool {
    a is Age
}

/// Read-only data supplied by the hosting page at render time, passed
/// through to validation unchanged. This form needs none, so the context
/// carries nothing.
#[derive(Clone, Copy, PartialEq, Eq, Structural, Debug)]
pub struct Context {}

/// The record the example form edits.
#[derive(Clone, PartialEq, Eq, Debug)]
pub struct HelloWorldFormData {
    pub first: String,
    pub last: String,
    pub age: u32,
    pub sport: String,
}

impl HelloWorldFormData {
    /// The value of one attribute.
    pub open spec fn spec_get(self, a: Attr) -> FieldValue {
        match a {
            Attr::First => FieldValue::Text(self.first),
            Attr::Last => FieldValue::Text(self.last),
            Attr::Age => FieldValue::Num(self.age),
            Attr::Sport => FieldValue::Text(self.sport),
        }
    }

    /// The model with one attribute replaced. A value of the wrong raw
    /// type for the attribute leaves the model unchanged.
    pub open spec fn spec_set(self, a: Attr, v: FieldValue) -> Self {
        match (a, v) {
            (Attr::First, FieldValue::Text(s)) => Self { first: s, ..self },
            (Attr::Last, FieldValue::Text(s)) => Self { last: s, ..self },
            (Attr::Age, FieldValue::Num(n)) => Self { age: n, ..self },
            (Attr::Sport, FieldValue::Text(s)) => Self { sport: s, ..self },
            _ => self,
        }
    }

    /// Getter: extracts the raw value of one attribute.
    pub fn get_attr(&self, a: Attr) -> (v: FieldValue)
        ensures
            v == self.spec_get(a),
    {
        match a {
            Attr::First => FieldValue::Text(self.first.clone()),
            Attr::Last => FieldValue::Text(self.last.clone()),
            Attr::Age => FieldValue::Num(self.age),
            Attr::Sport => FieldValue::Text(self.sport.clone()),
        }
    }

    /// Setter: replaces the raw value of one attribute in place.
    pub fn set_attr(&mut self, a: Attr, v: FieldValue)
        ensures
            *final(self) == old(self).spec_set(a, v),
    {
        match (a, v) {
            (Attr::First, FieldValue::Text(s)) => {
                self.first = s;
            },
            (Attr::Last, FieldValue::Text(s)) => {
                self.last = s;
            },
            (Attr::Age, FieldValue::Num(n)) => {
                self.age = n;
            },
            (Attr::Sport, FieldValue::Text(s)) => {
                self.sport = s;
            },
            _ => {},
        }
    }
}

impl Default for HelloWorldFormData {
    /// All text attributes empty and the age zero.
    fn default() -> (r: Self)
        ensures
            r.first@ == Seq::<char>::empty(),
            r.last@ == Seq::<char>::empty(),
            r.age == 0,
            r.sport@ == Seq::<char>::empty(),
    {
        HelloWorldFormData {
            first: String::new(),
            last: String::new(),
            age: 0,
            sport: String::new(),
        }
    }
}

/// Writing an attribute's own value back through its setter leaves the
/// model unchanged: the getter/setter pair of every attribute binding is
/// a round trip.
pub proof fn lemma_getter_setter_round_trip(m: HelloWorldFormData, a: Attr)
    ensures
        m.spec_set(a, m.spec_get(a)) == m,
{
}

} // verus!
