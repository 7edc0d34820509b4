//! The shape of a request body.
//!
//! A descriptor goes over the wire as a JSON object. Which fields that
//! object has, under which names and in which order, is decided here, as a
//! [`WireValue`]; writing the value out as JSON text is left to the caller.
//! A field that is absent in the descriptor is left out of the object: it
//! never appears with a null.

use vstd::prelude::*;

verus! {

/// A JSON value of `serde_json`. Nothing is known of its inside: it is
/// carried from the caller to the body of a request.
#[verifier::external_type_specification]
#[verifier::external_body]
pub struct ExJsonValue(serde_json::Value);

/// A value of a request body.
#[derive(Debug, PartialEq)]
pub enum WireValue {
    Bool(bool),
    Signed(i64),
    Unsigned(u64),
    Text(String),
    /// A JSON value that the caller made; it is passed on as it is.
    Json(serde_json::Value),
    List(Vec<WireValue>),
    /// The fields of an object, in the order in which they are written.
    Object(Vec<WireField>),
}

/// One field of an object.
#[derive(Debug, PartialEq)]
pub struct WireField {
    pub name: &'static str,
    pub value: WireValue,
}

/// What a [`WireValue`] stands for.
pub enum Wire {
    Bool(bool),
    Number(int),
    Text(Seq<char>),
    Json(serde_json::Value),
    List(Seq<Wire>),
    Object(Seq<(&'static str, Wire)>),
}

impl WireValue {
    /// What this value stands for.
    pub open spec fn model(self) -> Wire
        decreases self,
    {
        match self {
            WireValue::Bool(b) => Wire::Bool(b),
            WireValue::Signed(n) => Wire::Number(n as int),
            WireValue::Unsigned(n) => Wire::Number(n as int),
            WireValue::Text(s) => Wire::Text(s@),
            WireValue::Json(v) => Wire::Json(v),
            WireValue::List(items) => Wire::List(
                Seq::new(
                    items@.len(),
                    |i: int|
                        if 0 <= i < items@.len() {
                            items@[i].model()
                        } else {
                            Wire::Bool(false)
                        },
                ),
            ),
            WireValue::Object(fields) => Wire::Object(
                Seq::new(
                    fields@.len(),
                    |i: int|
                        if 0 <= i < fields@.len() {
                            (fields@[i].name, fields@[i].value.model())
                        } else {
                            ("", Wire::Bool(false))
                        },
                ),
            ),
        }
    }
}

/// What the fields `fields` stand for, one by one.
pub open spec fn entries_of(fields: Seq<WireField>) -> Seq<(&'static str, Wire)> {
    Seq::new(fields.len(), |i: int| (fields[i].name, fields[i].value.model()))
}

/// What an optional value stands for.
pub open spec fn model_of(value: Option<WireValue>) -> Option<Wire> {
    match value {
        None => None,
        Some(v) => Some(v.model()),
    }
}

/// The field `name` with the value `value`.
pub open spec fn field(name: &'static str, value: Wire) -> Seq<(&'static str, Wire)> {
    seq![(name, value)]
}

/// The field `name` where there is a value for it, and nothing where
/// there is none.
pub open spec fn optional_field(name: &'static str, value: Option<Wire>) -> Seq<
    (&'static str, Wire),
> {
    match value {
        None => Seq::empty(),
        Some(v) => seq![(name, v)],
    }
}

/// An optional truth value as an optional wire value.
pub open spec fn bool_of(value: Option<bool>) -> Option<Wire> {
    match value {
        None => None,
        Some(b) => Some(Wire::Bool(b)),
    }
}

/// An optional text as an optional wire value.
pub open spec fn text_of(value: Option<String>) -> Option<Wire> {
    match value {
        None => None,
        Some(s) => Some(Wire::Text(s@)),
    }
}

/// An optional number as an optional wire value.
pub open spec fn u32_of(value: Option<u32>) -> Option<Wire> {
    match value {
        None => None,
        Some(n) => Some(Wire::Number(n as int)),
    }
}

/// An optional number as an optional wire value.
pub open spec fn i32_of(value: Option<i32>) -> Option<Wire> {
    match value {
        None => None,
        Some(n) => Some(Wire::Number(n as int)),
    }
}

/// An optional number as an optional wire value.
pub open spec fn i64_of(value: Option<i64>) -> Option<Wire> {
    match value {
        None => None,
        Some(n) => Some(Wire::Number(n as int)),
    }
}

/// What a list of texts stands for, item by item.
pub open spec fn texts_of(items: Seq<String>) -> Seq<Wire> {
    Seq::new(items.len(), |i: int| Wire::Text(items[i]@))
}

/// The list of the texts `items`, in their order.
pub fn text_list(items: &Vec<String>) -> (value: WireValue)
    ensures
        value.model() == Wire::List(texts_of(items@)),
{
    let mut list: Vec<WireValue> = Vec::new();
    let mut i: usize = 0;
    while i < items.len()
        invariant
            i <= items.len(),
            list@.len() == i,
            forall|j: int| 0 <= j < i ==> (#[trigger] list@[j]).model() == Wire::Text(items@[j]@),
        decreases items.len() - i,
    {
        list.push(WireValue::Text(items[i].clone()));
        i += 1;
    }
    let value = WireValue::List(list);
    assert(value.model()->List_0 =~= texts_of(items@));
    value
}

/// An object in the making: fields are added at its end.
pub struct WireObject {
    fields: Vec<WireField>,
}

impl WireObject {
    /// What the fields added so far stand for.
    pub closed spec fn entries(&self) -> Seq<(&'static str, Wire)> {
        entries_of(self.fields@)
    }

    /// An object without fields.
    pub fn new() -> (object: Self)
        ensures
            object.entries() == Seq::<(&'static str, Wire)>::empty(),
    {
        let object = WireObject { fields: Vec::new() };
        assert(object.entries() =~= Seq::<(&'static str, Wire)>::empty());
        object
    }

    /// Adds the field `name` with the value `value`.
    pub fn put(&mut self, name: &'static str, value: WireValue)
        ensures
            final(self).entries() == old(self).entries() + field(name, value.model()),
    {
        self.fields.push(WireField { name, value });
        assert(self.entries() =~= old(self).entries() + field(name, value.model()));
    }

    /// Adds the field `name` where there is a value for it.
    pub fn put_optional(&mut self, name: &'static str, value: Option<WireValue>)
        ensures
            final(self).entries() == old(self).entries() + optional_field(name, model_of(value)),
    {
        match value {
            None => {
                assert(self.entries() =~= old(self).entries() + optional_field(
                    name,
                    model_of(value),
                ));
            },
            Some(v) => {
                self.put(name, v);
            },
        }
    }

    /// Adds a truth value.
    pub fn put_bool(&mut self, name: &'static str, value: bool)
        ensures
            final(self).entries() == old(self).entries() + field(name, Wire::Bool(value)),
    {
        self.put(name, WireValue::Bool(value));
    }

    /// Adds a text.
    pub fn put_text(&mut self, name: &'static str, value: &str)
        ensures
            final(self).entries() == old(self).entries() + field(name, Wire::Text(value@)),
    {
        self.put(name, WireValue::Text(value.to_owned()));
    }

    /// Adds a number without a sign.
    pub fn put_unsigned(&mut self, name: &'static str, value: u64)
        ensures
            final(self).entries() == old(self).entries() + field(name, Wire::Number(value as int)),
    {
        self.put(name, WireValue::Unsigned(value));
    }

    /// Adds a number with a sign.
    pub fn put_signed(&mut self, name: &'static str, value: i64)
        ensures
            final(self).entries() == old(self).entries() + field(name, Wire::Number(value as int)),
    {
        self.put(name, WireValue::Signed(value));
    }

    /// Adds a truth value where there is one.
    pub fn put_optional_bool(&mut self, name: &'static str, value: Option<bool>)
        ensures
            final(self).entries() == old(self).entries() + optional_field(name, bool_of(value)),
    {
        match value {
            None => self.put_optional(name, None),
            Some(b) => self.put_optional(name, Some(WireValue::Bool(b))),
        }
    }

    /// Adds a text where there is one.
    pub fn put_optional_text(&mut self, name: &'static str, value: &Option<String>)
        ensures
            final(self).entries() == old(self).entries() + optional_field(name, text_of(*value)),
    {
        match value {
            None => self.put_optional(name, None),
            Some(s) => self.put_optional(name, Some(WireValue::Text(s.clone()))),
        }
    }

    /// Adds a number where there is one.
    pub fn put_optional_u32(&mut self, name: &'static str, value: Option<u32>)
        ensures
            final(self).entries() == old(self).entries() + optional_field(name, u32_of(value)),
    {
        match value {
            None => self.put_optional(name, None),
            Some(n) => self.put_optional(name, Some(WireValue::Unsigned(n as u64))),
        }
    }

    /// Adds a number where there is one.
    pub fn put_optional_i32(&mut self, name: &'static str, value: Option<i32>)
        ensures
            final(self).entries() == old(self).entries() + optional_field(name, i32_of(value)),
    {
        match value {
            None => self.put_optional(name, None),
            Some(n) => self.put_optional(name, Some(WireValue::Signed(n as i64))),
        }
    }

    /// Adds a number where there is one.
    pub fn put_optional_i64(&mut self, name: &'static str, value: Option<i64>)
        ensures
            final(self).entries() == old(self).entries() + optional_field(name, i64_of(value)),
    {
        match value {
            None => self.put_optional(name, None),
            Some(n) => self.put_optional(name, Some(WireValue::Signed(n))),
        }
    }

    /// The object with the fields added so far.
    pub fn finish(self) -> (value: WireValue)
        ensures
            value.model() == Wire::Object(self.entries()),
    {
        let value = WireValue::Object(self.fields);
        assert(value.model()->Object_0 =~= self.entries());
        value
    }
}

} // verus!
