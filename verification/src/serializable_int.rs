//! A big integer that crosses text boundaries as a decimal string.

use crate::bigint::{bigint_value, parse_decimal, same_value, to_decimal_string};
use crate::decimal::{
    check_numeral, decimal_text, is_canonical_decimal, lemma_canonical_unique, parse_outcome,
    ParseError,
};
use num_bigint::BigInt;
use vstd::prelude::*;
use vstd::std_specs::cmp::PartialEqSpecImpl;

verus! {

/// An arbitrary-precision signed integer whose interchange form is its
/// canonical decimal numeral.
#[derive(Debug, Eq)]
pub struct SerializableInt {
    i: BigInt,
}

impl View for SerializableInt {
    type V = int;

    closed spec fn view(&self) -> int {
        bigint_value(self.i)
    }
}

/// The primitive types of a JSON value.
#[derive(Clone, Copy, Debug, PartialEq, Eq)]
pub enum InstanceType {
    Null,
    Boolean,
    Object,
    Array,
    Number,
    String,
    Integer,
}

/// How a field of this type is announced to schema-aware tooling.
#[derive(Clone, Debug, PartialEq, Eq)]
pub struct SchemaDescription {
    /// The JSON type of the field.
    pub instance_type: InstanceType,
    /// The format within that type.
    pub format: String,
    /// A sentence for readers of the schema.
    pub description: String,
}

impl SerializableInt {
    /// Wraps an integer.
    pub fn new(i: BigInt) -> (n: Self)
        ensures
            n@ == bigint_value(i),
    {
        Self { i }
    }

    /// The wrapped integer.
    pub fn as_bigint(&self) -> (i: &BigInt)
        ensures
            bigint_value(*i) == self@,
    {
        &self.i
    }

    /// Gives the wrapped integer back.
    pub fn into_bigint(self) -> (i: BigInt)
        ensures
            bigint_value(i) == self@,
    {
        self.i
    }

    /// The canonical decimal numeral of the integer: a minus sign if it is
    /// negative, no leading zeros, `0` for zero.
    pub fn to_text(&self) -> (text: String)
        ensures
            text@ == decimal_text(self@),
            is_canonical_decimal(text@),
            parse_outcome(text@) == Ok::<int, ParseError>(self@),
    {
        let text = to_decimal_string(&self.i);
        proof {
            lemma_canonical_unique(text@);
        }
        text
    }

    /// Reads a decimal numeral: an optional minus sign, then one or more
    /// digits, leading zeros allowed. Any other text is an error, and a
    /// numeral of any length is read exactly.
    pub fn from_text(text: &str) -> (r: Result<Self, ParseError>)
        ensures
            match r {
                Ok(n) => parse_outcome(text@) == Ok::<int, ParseError>(n@),
                Err(e) => parse_outcome(text@) == Err::<int, ParseError>(e),
            },
    {
        match check_numeral(text) {
            Err(e) => Err(e),
            Ok(_) => match parse_decimal(text) {
                Ok(i) => Ok(Self::new(i)),
                // The parser takes every numeral, so nothing arrives here.
                Err(_) => Err(ParseError::InvalidDigit),
            },
        }
    }

    /// The name under which the type appears in a schema.
    pub fn schema_name() -> (name: String)
        ensures
            name@ == "SerializableInt"@,
    {
        "SerializableInt".to_owned()
    }

    /// The schema of a field of this type: a string, of format `bigint`, so
    /// that no reader takes it for a machine number.
    pub fn json_schema() -> (schema: SchemaDescription)
        ensures
            schema.instance_type == InstanceType::String,
            schema.format@ == "bigint"@,
            schema.description@ == "A big integer serialized as a string."@,
    {
        SchemaDescription {
            instance_type: InstanceType::String,
            format: "bigint".to_owned(),
            description: "A big integer serialized as a string.".to_owned(),
        }
    }
}

impl Clone for SerializableInt {
    fn clone(&self) -> (n: Self)
        ensures
            n@ == self@,
    {
        Self { i: self.i.clone() }
    }
}

impl PartialEq for SerializableInt {
    fn eq(&self, other: &Self) -> (same: bool) {
        same_value(&self.i, &other.i)
    }
}

impl PartialEqSpecImpl for SerializableInt {
    open spec fn obeys_eq_spec() -> bool {
        true
    }

    open spec fn eq_spec(&self, other: &Self) -> bool {
        self@ == other@
    }
}

} // verus!
