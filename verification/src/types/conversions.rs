//! Values made from Rust values.
use vstd::prelude::*;
use vstd::std_specs::convert::FromSpecImpl;
use crate::model::Value;
use crate::types::{list_values, type_model, BoltBoolean, BoltInteger, BoltList, BoltMap, BoltString, BoltType};

verus! {

impl From<i64> for BoltType {
    fn from(value: i64) -> (r: BoltType) {
        BoltType::Integer(BoltInteger::new(value))
    }
}

impl FromSpecImpl<i64> for BoltType {
    open spec fn obeys_from_spec() -> bool {
        true
    }

    open spec fn from_spec(value: i64) -> BoltType {
        BoltType::Integer(BoltInteger { value })
    }
}

impl From<i32> for BoltType {
    fn from(value: i32) -> (r: BoltType) {
        BoltType::Integer(BoltInteger::new(value as i64))
    }
}

impl FromSpecImpl<i32> for BoltType {
    open spec fn obeys_from_spec() -> bool {
        true
    }

    open spec fn from_spec(value: i32) -> BoltType {
        BoltType::Integer(BoltInteger { value: value as i64 })
    }
}

impl From<bool> for BoltType {
    fn from(value: bool) -> (r: BoltType) {
        BoltType::Boolean(BoltBoolean::new(value))
    }
}

impl FromSpecImpl<bool> for BoltType {
    open spec fn obeys_from_spec() -> bool {
        true
    }

    open spec fn from_spec(value: bool) -> BoltType {
        BoltType::Boolean(BoltBoolean { value })
    }
}

impl BoltType {
    /// A string value.
    pub fn from_str_value(value: &str) -> (r: BoltType)
        ensures
            type_model(r) == Value::String(value@),
    {
        BoltType::String(BoltString::new(value))
    }

    /// A list of integer values.
    pub fn from_ints(values: Vec<i64>) -> (r: BoltType)
        ensures
            type_model(r) == Value::List(Seq::new(values@.len(), |i: int| Value::Integer(values@[i]))),
    {
        let mut list = BoltList::with_capacity(values.len());
        let mut i: usize = 0;
        while i < values.len()
            invariant
                i <= values@.len(),
                list_values(list) =~= Seq::new(i as nat, |k: int| Value::Integer(values@[k])),
            decreases values@.len() - i,
        {
            let ghost before = list_values(list);
            list.push(BoltType::Integer(BoltInteger::new(values[i])));
            assert(list_values(list) =~= before.push(Value::Integer(values@[i as int])));
            i = i + 1;
        }
        BoltType::List(list)
    }
}

/// A string slice becomes a string value. A `String` cannot be written in a
/// specification, so `from_spec` is left open and the impl states the model
/// of the result.
impl From<&str> for BoltType {
    fn from(value: &str) -> (r: BoltType)
        ensures
            type_model(r) == Value::String(value@),
    {
        BoltType::from_str_value(value)
    }
}

impl FromSpecImpl<&str> for BoltType {
    open spec fn obeys_from_spec() -> bool {
        false
    }

    open spec fn from_spec(value: &str) -> BoltType {
        arbitrary()
    }
}

/// A vector of integers becomes a list value. A `Vec` cannot be written in
/// a specification, so `from_spec` is left open and the impl states the
/// model of the result.
impl From<Vec<i64>> for BoltType {
    fn from(values: Vec<i64>) -> (r: BoltType)
        ensures
            type_model(r) == Value::List(Seq::new(values@.len(), |i: int| Value::Integer(values@[i]))),
    {
        BoltType::from_ints(values)
    }
}

impl FromSpecImpl<Vec<i64>> for BoltType {
    open spec fn obeys_from_spec() -> bool {
        false
    }

    open spec fn from_spec(values: Vec<i64>) -> BoltType {
        arbitrary()
    }
}

impl From<Vec<BoltType>> for BoltList {
    fn from(value: Vec<BoltType>) -> (r: BoltList) {
        BoltList { value }
    }
}

impl FromSpecImpl<Vec<BoltType>> for BoltList {
    open spec fn obeys_from_spec() -> bool {
        true
    }

    open spec fn from_spec(value: Vec<BoltType>) -> BoltList {
        BoltList { value }
    }
}

impl From<String> for BoltString {
    fn from(value: String) -> (r: BoltString) {
        BoltString { value }
    }
}

impl FromSpecImpl<String> for BoltString {
    open spec fn obeys_from_spec() -> bool {
        true
    }

    open spec fn from_spec(value: String) -> BoltString {
        BoltString { value }
    }
}

/// A string slice becomes a string. A `String` cannot be written in a
/// specification, so `from_spec` is left open and the impl states the
/// characters of the result.
impl From<&str> for BoltString {
    fn from(value: &str) -> (r: BoltString)
        ensures
            r.value@ == value@,
    {
        BoltString::new(value)
    }
}

impl FromSpecImpl<&str> for BoltString {
    open spec fn obeys_from_spec() -> bool {
        false
    }

    open spec fn from_spec(value: &str) -> BoltString {
        arbitrary()
    }
}

impl From<i64> for BoltInteger {
    fn from(value: i64) -> (r: BoltInteger) {
        BoltInteger::new(value)
    }
}

impl FromSpecImpl<i64> for BoltInteger {
    open spec fn obeys_from_spec() -> bool {
        true
    }

    open spec fn from_spec(value: i64) -> BoltInteger {
        BoltInteger { value }
    }
}

impl From<i32> for BoltInteger {
    fn from(value: i32) -> (r: BoltInteger) {
        BoltInteger::new(value as i64)
    }
}

impl FromSpecImpl<i32> for BoltInteger {
    open spec fn obeys_from_spec() -> bool {
        true
    }

    open spec fn from_spec(value: i32) -> BoltInteger {
        BoltInteger { value: value as i64 }
    }
}

impl From<BoltInteger> for i64 {
    fn from(value: BoltInteger) -> (r: i64) {
        value.value
    }
}

impl FromSpecImpl<BoltInteger> for i64 {
    open spec fn obeys_from_spec() -> bool {
        true
    }

    open spec fn from_spec(value: BoltInteger) -> i64 {
        value.value
    }
}

impl Default for BoltMap {
    fn default() -> (r: BoltMap)
        ensures
            r.wf(),
            r.value@.len() == 0,
    {
        BoltMap::new()
    }
}

impl Default for BoltList {
    fn default() -> (r: BoltList)
        ensures
            r.value@.len() == 0,
    {
        BoltList::new()
    }
}

} // verus!
