//! Model of the structured result documents and the trusted boundary to the
//! JSON parser.
//!
//! A parsed document is opaque to the verifier, so every statement about one
//! goes through `json_model`, which names the mathematical tree a
//! `serde_json::Value` stands for. Numbers are carried as the bit pattern of
//! the 64-bit float they convert to, since the aggregator only collects them.

use vstd::prelude::*;

verus! {

/// The mathematical shape of a parsed JSON document. A number is represented
/// by the bit pattern of the 64-bit float it converts to.
pub enum JNode {
    Null,
    Bool(bool),
    Num(u64),
    Str(Seq<char>),
    Arr(Seq<JNode>),
    Obj(Map<Seq<char>, JNode>),
}

#[verifier::external_type_specification]
#[verifier::external_body]
pub struct ExValue(serde_json::Value);

#[verifier::external_type_specification]
#[verifier::external_body]
pub struct ExJsonError(serde_json::Error);

/// The tree that a parsed `serde_json::Value` stands for.
pub uninterp spec fn json_model(v: serde_json::Value) -> JNode;

/// The document a text parses to, or `None` where the text is not valid JSON.
pub uninterp spec fn json_of(s: Seq<char>) -> Option<JNode>;

/// Key lookup on the model: defined on objects that hold the key, `None`
/// everywhere else.
pub open spec fn j_get(j: JNode, k: Seq<char>) -> Option<JNode> {
    match j {
        JNode::Obj(m) => if m.contains_key(k) {
            Some(m[k])
        } else {
            None
        },
        _ => None,
    }
}

pub open spec fn j_get2(j: JNode, k1: Seq<char>, k2: Seq<char>) -> Option<JNode> {
    match j_get(j, k1) {
        Some(c) => j_get(c, k2),
        None => None,
    }
}

pub open spec fn j_get3(j: JNode, k1: Seq<char>, k2: Seq<char>, k3: Seq<char>) -> Option<JNode> {
    match j_get2(j, k1, k2) {
        Some(c) => j_get(c, k3),
        None => None,
    }
}

pub open spec fn j_get4(
    j: JNode,
    k1: Seq<char>,
    k2: Seq<char>,
    k3: Seq<char>,
    k4: Seq<char>,
) -> Option<JNode> {
    match j_get3(j, k1, k2, k3) {
        Some(c) => j_get(c, k4),
        None => None,
    }
}

/// The numeric sample three keys deep, or `None` where the path is missing or
/// does not end at a number.
pub open spec fn num_at(j: JNode, k1: Seq<char>, k2: Seq<char>, k3: Seq<char>) -> Option<u64> {
    match j_get3(j, k1, k2, k3) {
        Some(JNode::Num(b)) => Some(b),
        _ => None,
    }
}

/// Relies on `serde_json::from_str`: whether a text parses, and to what
/// document, depends on the text alone.
#[verifier::external_body]
pub(crate) fn parse_json(s: &str) -> (r: Result<serde_json::Value, serde_json::Error>)
    ensures
        r matches Ok(v) ==> json_of(s@) == Some(json_model(v)),
        r is Err ==> json_of(s@) is None,
{
    serde_json::from_str(s)
}

/// Relies on `serde_json::Value::get`: on an object it looks the key up, on
/// every other value it returns `None`.
#[verifier::external_body]
pub(crate) fn get_key<'a>(v: &'a serde_json::Value, key: &str) -> (r: Option<
    &'a serde_json::Value,
>)
    ensures
        r matches Some(u) ==> j_get(json_model(*v), key@) == Some(json_model(*u)),
        r is None ==> j_get(json_model(*v), key@) is None,
{
    v.get(key)
}

/// Relies on `serde_json::Value::as_f64` and `f64::to_bits`: a JSON number
/// converts to exactly one 64-bit float, whose bit pattern depends on the
/// value alone; non-numbers convert to nothing.
#[verifier::external_body]
pub(crate) fn get_num_bits(v: &serde_json::Value) -> (r: Option<u64>)
    ensures
        r == (match json_model(*v) {
            JNode::Num(b) => Some(b),
            _ => None::<u64>,
        }),
{
    match v.as_f64() {
        Some(x) => Some(x.to_bits()),
        None => None,
    }
}

/// Relies on `serde_json::Value::as_array` and `Vec::len`: an array value has
/// exactly one length, and only array values have one.
#[verifier::external_body]
pub(crate) fn get_array_len(v: &serde_json::Value) -> (r: Option<usize>)
    ensures
        r is Some <==> json_model(*v) is Arr,
        r matches Some(n) ==> (json_model(*v) matches JNode::Arr(s) && n == s.len()),
{
    match v.as_array() {
        Some(a) => Some(a.len()),
        None => None,
    }
}

/// Follows one numeric audit path (three keys deep) through a parsed
/// document.
pub fn lookup_num(v: &serde_json::Value, k1: &str, k2: &str, k3: &str) -> (r: Option<u64>)
    ensures
        r == num_at(json_model(*v), k1@, k2@, k3@),
{
    match get_key(v, k1) {
        Some(a) => match get_key(a, k2) {
            Some(b) => match get_key(b, k3) {
                Some(c) => get_num_bits(c),
                None => None,
            },
            None => None,
        },
        None => None,
    }
}

} // verus!
