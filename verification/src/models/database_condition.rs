use vstd::prelude::*;

use super::database_field::{FieldType, FieldValue};

verus! {

/// How a column is compared with a value.
#[derive(Clone, Copy, PartialEq, Eq, Debug)]
pub enum ConditionOperator {
    Eq,
    Gt,
    Gte,
    Lt,
    Lte,
}

pub struct ConditionModel {
    pub name: Seq<char>,
    pub operator: ConditionOperator,
    pub value: FieldValue,
}

/// A test on one column: `name operator value`.
pub struct DatabaseCondition {
    name: String,
    value: FieldType,
    operator: ConditionOperator,
}

impl View for DatabaseCondition {
    type V = ConditionModel;

    closed spec fn view(&self) -> ConditionModel {
        ConditionModel { name: self.name@, operator: self.operator, value: self.value@ }
    }
}

impl DatabaseCondition {
    /// A condition on the column `name`; the value is converted by `FieldType::from`.
    pub fn new<V: Clone>(name: &str, operator: ConditionOperator, value: V) -> (res: Self) where
        FieldType: From<V>,
        ensures
            res@.name == name@,
            res@.operator == operator,
            exists|f: FieldType| call_ensures(FieldType::from, (value,), f) && res@.value == f@,
    {
        let v = FieldType::from(value);
        DatabaseCondition { name: name.to_owned(), value: v, operator }
    }

    pub fn name(&self) -> (res: String)
        ensures
            res@ == self@.name,
    {
        self.name.clone()
    }

    pub fn operator(&self) -> (res: ConditionOperator)
        ensures
            res == self@.operator,
    {
        self.operator
    }

    pub fn value(&self) -> (res: FieldType)
        ensures
            res@ == self@.value,
    {
        self.value.clone()
    }
}

} // verus!
