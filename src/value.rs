//! The tagged JSON value and its conversions.
use crate::number::{i64_of, u64_of, Number};
use std::collections::HashMap;
use vstd::prelude::*;
use vstd::string::StringSliceAdditionalSpecFns;

verus! {

/// A JSON value. Objects and arrays are kept as the raw text of their span
/// and decoded only when asked.
pub enum Value {
    /// A JSON string, already unescaped.
    String(String),
    /// A JSON number, in its original text.
    Number(Number),
    /// A JSON object: its complete text, braces included.
    Object(String),
    /// A JSON array: its complete text, brackets included.
    Array(String),
    /// A JSON boolean.
    Boolean(bool),
    /// JSON `null`.
    Null,
}

/// The collaborator that navigates the raw text of an object or array without
/// building a tree. Its answers depend on the span and the path alone, as
/// `found`, `elements` and `members` name them.
pub trait Scanner: Sized {
    /// The span this scanner reads.
    spec fn scanned(&self) -> Seq<char>;

    /// The value that `path` leads to in `span`, if any.
    spec fn found(span: Seq<char>, path: Seq<u8>) -> Option<Value>;

    /// The elements of `span`, in source order.
    spec fn elements(span: Seq<char>) -> Seq<Value>;

    /// The members of `span`, by key.
    spec fn members(span: Seq<char>) -> Map<String, Value>;

    /// A scanner over a complete JSON object or array text.
    fn from_span(span: &str) -> (r: Self)
        ensures
            r.scanned() == span@,
    ;

    /// The value that a path leads to in the span, if any.
    fn lookup(&self, path: &[u8]) -> (r: Option<Value>)
        ensures
            r == Self::found(self.scanned(), path@),
    ;

    /// The elements of the span, in source order.
    fn decode_sequence(&self) -> (r: Vec<Value>)
        ensures
            r@ == Self::elements(self.scanned()),
    ;

    /// The members of the span, by key.
    fn decode_mapping(&self) -> (r: HashMap<String, Value>)
        ensures
            r@ == Self::members(self.scanned()),
    ;
}

impl Value {
    /// The canonical text of the value, as `as_str` gives it.
    pub open spec fn text(&self) -> Seq<char> {
        match self {
            Value::String(s) => s@,
            Value::Number(n) => n@,
            Value::Object(s) => s@,
            Value::Array(s) => s@,
            Value::Boolean(b) => if *b { "true"@ } else { "false"@ },
            Value::Null => "null"@,
        }
    }

    /// The value read as `u64`, with 0 where there is nothing to read.
    pub open spec fn u64_value(&self) -> u64 {
        match self {
            Value::Number(n) => u64_of(n@),
            Value::String(s) => u64_of(s@),
            Value::Boolean(b) => if *b { 1 } else { 0 },
            _ => 0,
        }
    }

    /// The value read as `i64`, with 0 where there is nothing to read.
    pub open spec fn i64_value(&self) -> i64 {
        match self {
            Value::Number(n) => i64_of(n@),
            Value::String(s) => i64_of(s@),
            Value::Boolean(b) => if *b { 1 } else { 0 },
            _ => 0,
        }
    }

    /// The value read as a boolean: `false` for every other variant.
    pub open spec fn bool_value(&self) -> bool {
        match self {
            Value::Boolean(b) => *b,
            _ => false,
        }
    }

    /// The raw text of an object or an array, the values that have children.
    pub open spec fn span(&self) -> Option<Seq<char>> {
        match self {
            Value::Object(s) => Some(s@),
            Value::Array(s) => Some(s@),
            _ => None,
        }
    }

    /// Two values are equal when they have the same variant and the same
    /// content.
    pub open spec fn same(&self, other: &Value) -> bool {
        match self {
            Value::String(a) => other matches Value::String(b) && a@ == b@,
            Value::Number(a) => other matches Value::Number(b) && a@ == b@,
            Value::Object(a) => other matches Value::Object(b) && a@ == b@,
            Value::Array(a) => other matches Value::Array(b) && a@ == b@,
            Value::Boolean(a) => other matches Value::Boolean(b) && a == b,
            Value::Null => other is Null,
        }
    }

    /// Whether the value is a string.
    pub fn is_string(&self) -> (r: bool)
        ensures
            r == self is String,
    {
        matches!(self, Value::String(_))
    }

    /// Whether the value is a number.
    pub fn is_number(&self) -> (r: bool)
        ensures
            r == self is Number,
    {
        matches!(self, Value::Number(_))
    }

    /// Whether the value is an array.
    pub fn is_array(&self) -> (r: bool)
        ensures
            r == self is Array,
    {
        matches!(self, Value::Array(_))
    }

    /// Whether the value is an object.
    pub fn is_object(&self) -> (r: bool)
        ensures
            r == self is Object,
    {
        matches!(self, Value::Object(_))
    }

    /// Whether the value is a boolean.
    pub fn is_bool(&self) -> (r: bool)
        ensures
            r == self is Boolean,
    {
        matches!(self, Value::Boolean(_))
    }

    /// Whether the value is `null`.
    pub fn is_null(&self) -> (r: bool)
        ensures
            r == self is Null,
    {
        matches!(self, Value::Null)
    }

    /// The canonical text: a string's own text, a number's literal, `true`,
    /// `false` or `null`, and the raw span of an object or array.
    pub fn as_str(&self) -> (r: &str)
        ensures
            r@ == self.text(),
    {
        match self {
            Value::String(s) => s.as_str(),
            Value::Number(n) => n.as_str(),
            Value::Boolean(b) => if *b { "true" } else { "false" },
            Value::Object(s) => s.as_str(),
            Value::Array(s) => s.as_str(),
            Value::Null => "null",
        }
    }

    /// A number or a string read as `u64` through `Number`; 1 for `true`; 0
    /// for anything else.
    pub fn to_u64(&self) -> (r: u64)
        ensures
            r == self.u64_value(),
    {
        match self {
            Value::Number(n) => n.to_u64(),
            Value::Boolean(b) => if *b { 1 } else { 0 },
            Value::String(s) => Number::from_text(s.as_str()).to_u64(),
            _ => 0,
        }
    }

    /// A number or a string read as `i64` through `Number`; 1 for `true`; 0
    /// for anything else.
    pub fn to_i64(&self) -> (r: i64)
        ensures
            r == self.i64_value(),
    {
        match self {
            Value::Number(n) => n.to_i64(),
            Value::Boolean(b) => if *b { 1 } else { 0 },
            Value::String(s) => Number::from_text(s.as_str()).to_i64(),
            _ => 0,
        }
    }

    /// The boolean itself; `false` for every other variant.
    pub fn to_bool(&self) -> (r: bool)
        ensures
            r == self.bool_value(),
    {
        match self {
            Value::Boolean(b) => *b,
            _ => false,
        }
    }
}

impl Value {
    /// A path lookup: an object or array asks a scanner over its span for the
    /// value at `path`; the other variants have no children.
    pub fn get<S: Scanner>(&self, path: &str) -> (r: Option<Value>)
        ensures
            self.span() is None ==> r is None,
            self.span() matches Some(sp) ==> r == S::found(sp, path.spec_bytes()),
    {
        self.get_by_utf8::<S>(path.as_bytes())
    }

    /// `get` with the path given as bytes, handed to the scanner unchanged.
    pub fn get_by_utf8<S: Scanner>(&self, v: &[u8]) -> (r: Option<Value>)
        ensures
            self.span() is None ==> r is None,
            self.span() matches Some(sp) ==> r == S::found(sp, v@),
    {
        match self {
            Value::Array(s) => S::from_span(s.as_str()).lookup(v),
            Value::Object(s) => S::from_span(s.as_str()).lookup(v),
            _ => None,
        }
    }

    /// The elements of an array, decoded by a scanner; nothing for `null`; the
    /// value itself as the one element for every other variant.
    pub fn to_vec<S: Scanner>(&self) -> (r: Vec<Value>)
        ensures
            self is Null ==> r@.len() == 0,
            !(self is Null) && !(self is Array) ==> r@ == seq![*self],
            self matches Value::Array(s) ==> r@ == S::elements(s@),
    {
        match self {
            Value::Array(s) => S::from_span(s.as_str()).decode_sequence(),
            Value::Null => Vec::new(),
            _ => {
                let mut r = Vec::new();
                r.push(self.clone());
                r
            },
        }
    }

    /// The members of an object, decoded by a scanner; no members for every
    /// other variant.
    pub fn to_object<S: Scanner>(&self) -> (r: HashMap<String, Value>)
        ensures
            !(self is Object) ==> r@ == Map::<String, Value>::empty(),
            self matches Value::Object(s) ==> r@ == S::members(s@),
    {
        match self {
            Value::Object(s) => S::from_span(s.as_str()).decode_mapping(),
            _ => HashMap::new(),
        }
    }

    /// The text shown when the value is displayed: `as_str`.
    pub fn display_string(&self) -> (r: String)
        ensures
            r@ == self.text(),
    {
        self.as_str().to_owned()
    }

    /// The text shown when the value is debugged: a string in double quotes,
    /// every other variant as `as_str` gives it.
    pub fn debug_string(&self) -> (r: String)
        ensures
            r@ == (match self {
                Value::String(s) => "\""@ + s@ + "\""@,
                _ => self.text(),
            }),
    {
        match self {
            Value::String(s) => {
                let mut r = "\"".to_owned();
                r.append(s.as_str());
                r.append("\"");
                r
            },
            _ => self.as_str().to_owned(),
        }
    }
}

impl Clone for Value {
    fn clone(&self) -> (r: Value)
        ensures
            r == *self,
    {
        match self {
            Value::String(s) => Value::String(s.clone()),
            Value::Number(n) => Value::Number(n.clone()),
            Value::Object(s) => Value::Object(s.clone()),
            Value::Array(s) => Value::Array(s.clone()),
            Value::Boolean(b) => Value::Boolean(*b),
            Value::Null => Value::Null,
        }
    }
}

/// Whether two texts are the same, compared through their UTF-8 bytes.
fn same_text(a: &str, b: &str) -> (r: bool)
    ensures
        r == (a@ == b@),
{
    let x = a.as_bytes();
    let y = b.as_bytes();
    proof {
        vstd::utf8::encode_utf8_decode_utf8(a@);
        vstd::utf8::encode_utf8_decode_utf8(b@);
    }
    if x.len() != y.len() {
        return false;
    }
    let mut i: usize = 0;
    while i < x.len()
        invariant
            x@.len() == y@.len(),
            i <= x@.len(),
            a@ == b@ ==> x@ == y@,
            forall|j: int| 0 <= j < i ==> x@[j] == y@[j],
        decreases x@.len() - i,
    {
        if x[i] != y[i] {
            return false;
        }
        i = i + 1;
    }
    assert(x@ =~= y@);
    true
}

impl PartialEq for Value {
    fn eq(&self, other: &Value) -> (r: bool)
        ensures
            r == self.same(other),
    {
        match (self, other) {
            (Value::String(a), Value::String(b)) => a.eq(b),
            (Value::Number(a), Value::Number(b)) => a.eq(b),
            (Value::Object(a), Value::Object(b)) => a.eq(b),
            (Value::Array(a), Value::Array(b)) => a.eq(b),
            (Value::Boolean(a), Value::Boolean(b)) => *a == *b,
            (Value::Null, Value::Null) => true,
            _ => false,
        }
    }
}

impl vstd::std_specs::cmp::PartialEqSpecImpl for Value {
    open spec fn obeys_eq_spec() -> bool {
        true
    }

    open spec fn eq_spec(&self, other: &Value) -> bool {
        self.same(other)
    }
}

/// A value equals a text when its canonical text is that text, so a number or
/// a boolean equals the text it is written as.
impl<'a> PartialEq<&'a str> for Value {
    fn eq(&self, other: &&'a str) -> (r: bool)
        ensures
            r == (self.text() == (*other)@),
    {
        same_text(self.as_str(), *other)
    }
}

impl<'a> vstd::std_specs::cmp::PartialEqSpecImpl<&'a str> for Value {
    open spec fn obeys_eq_spec() -> bool {
        true
    }

    open spec fn eq_spec(&self, other: &&'a str) -> bool {
        self.text() == (*other)@
    }
}

/// `true` reads as one: 1 as `u64` and as `i64`, and `true` as a boolean.
pub proof fn lemma_true_reads_as_one()
    ensures
        Value::Boolean(true).u64_value() == 1,
        Value::Boolean(true).i64_value() == 1,
        Value::Boolean(true).bool_value(),
{
}

/// `false` reads as zero: 0 as `u64` and as `i64`, and `false` as a boolean.
pub proof fn lemma_false_reads_as_zero()
    ensures
        Value::Boolean(false).u64_value() == 0,
        Value::Boolean(false).i64_value() == 0,
        !Value::Boolean(false).bool_value(),
{
}

/// A string, an object, an array or `null` always reads as `false`.
pub proof fn lemma_non_boolean_reads_false(v: Value)
    requires
        v is String || v is Object || v is Array || v is Null,
    ensures
        !v.bool_value(),
{
}

/// A string and a number with the same text convert to the same integers.
pub proof fn lemma_string_reads_as_number(s: String, n: Number)
    requires
        s@ == n@,
    ensures
        Value::String(s).u64_value() == Value::Number(n).u64_value(),
        Value::String(s).i64_value() == Value::Number(n).i64_value(),
{
}

} // verus!
