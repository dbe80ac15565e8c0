//! The values that are redacted: strings, scalars, sequences and mappings.

use vstd::prelude::*;

verus! {

/// What a [`Value`] stands for.
pub enum ValueModel {
    String(Seq<char>),
    Number(int),
    Boolean(bool),
    Null,
    /// Elements in order.
    Sequence(Seq<ValueModel>),
    /// Pairs of key and value, in their stored order.
    Mapping(Seq<(Seq<char>, ValueModel)>),
}

/// The keys of `entries` are pairwise distinct.
pub open spec fn keys_unique(entries: Seq<(Seq<char>, ValueModel)>) -> bool {
    forall|i: int, j: int|
        0 <= i < j < entries.len() ==> (#[trigger] entries[i]).0 != (#[trigger] entries[j]).0
}

/// A value is well formed when no mapping in it holds a key twice.
pub open spec fn well_formed(value: ValueModel) -> bool
    decreases value,
{
    match value {
        ValueModel::Sequence(items) => forall|i: int|
            0 <= i < items.len() ==> well_formed(#[trigger] items[i]),
        ValueModel::Mapping(entries) => keys_unique(entries) && forall|i: int|
            0 <= i < entries.len() ==> well_formed((#[trigger] entries[i]).1),
        _ => true,
    }
}

/// A value tree.
#[derive(Debug, PartialEq, Eq)]
pub enum Value {
    String(String),
    Number(i64),
    Boolean(bool),
    Null,
    /// An ordered list of values.
    Sequence(Vec<Value>),
    /// Pairs of key and value. The order of the pairs is kept.
    Mapping(Vec<(String, Value)>),
}

/// The model of `value`: the same tree, with each part replaced by what it
/// stands for.
pub open spec fn value_model(value: Value) -> ValueModel
    decreases value,
{
    match value {
        Value::String(text) => ValueModel::String(text@),
        Value::Number(n) => ValueModel::Number(n as int),
        Value::Boolean(b) => ValueModel::Boolean(b),
        Value::Null => ValueModel::Null,
        Value::Sequence(items) => ValueModel::Sequence(
            Seq::new(
                items@.len(),
                |i: int|
                    if 0 <= i < items@.len() {
                        value_model(items@[i])
                    } else {
                        ValueModel::Null
                    },
            ),
        ),
        Value::Mapping(entries) => ValueModel::Mapping(
            Seq::new(
                entries@.len(),
                |i: int|
                    if 0 <= i < entries@.len() {
                        (entries@[i].0@, value_model(entries@[i].1))
                    } else {
                        (Seq::empty(), ValueModel::Null)
                    },
            ),
        ),
    }
}

impl View for Value {
    type V = ValueModel;

    open spec fn view(&self) -> ValueModel {
        value_model(*self)
    }
}

} // verus!
