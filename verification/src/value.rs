//! Plain-value forms of the YAML/JSON data that matrices are written in.

use vstd::prelude::*;

verus! {

/// A JSON-shaped value, as a matrix entry is normalized to before it is
/// expanded. Numbers carry their canonical decimal text; object entries keep
/// their order.
#[derive(Debug)]
pub enum Value {
    Null,
    Bool(bool),
    Number(String),
    String(String),
    Array(Vec<Value>),
    Object(Vec<(String, Value)>),
}

/// Either a literal value or a `${{ ... }}` expression standing in its
/// place; `Expr` holds the expression's raw text.
#[derive(Debug)]
pub enum LoE<T> {
    Expr(String),
    Literal(T),
}

/// One explicit matrix row (an `include:` or `exclude:` entry).
pub type Row = Vec<(String, Value)>;

} // verus!
