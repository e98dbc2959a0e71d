use simple_orm::models::database_condition::{ConditionOperator, DatabaseCondition};
use simple_orm::models::database_field::FieldType;

#[test]
fn new() {
    let cond = DatabaseCondition::new("id", ConditionOperator::Eq, 32);
    assert_eq!(cond.name(), "id");
    assert_eq!(cond.operator(), ConditionOperator::Eq);
    assert_eq!(cond.value(), FieldType::Number(32));
}

#[test]
fn new_with_text_value() {
    let cond = DatabaseCondition::new("id", ConditionOperator::Gte, "heyZ");
    assert_eq!(cond.name(), "id");
    assert_eq!(cond.operator(), ConditionOperator::Gte);
    assert_eq!(cond.value(), FieldType::String("heyZ".to_owned()));
}

#[test]
fn new_with_owned_text_and_bool() {
    let cond = DatabaseCondition::new("name", ConditionOperator::Lt, "abc".to_owned());
    assert_eq!(cond.value(), FieldType::String("abc".to_owned()));
    let cond = DatabaseCondition::new("activated", ConditionOperator::Lte, true);
    assert_eq!(cond.value(), FieldType::Bool(true));
    assert_eq!(cond.operator(), ConditionOperator::Lte);
}

#[test]
fn new_with_small_integers() {
    assert_eq!(DatabaseCondition::new("a", ConditionOperator::Gt, 200u8).value(), FieldType::Number(200));
    assert_eq!(DatabaseCondition::new("a", ConditionOperator::Gt, -8i8).value(), FieldType::Number(-8));
    assert_eq!(DatabaseCondition::new("a", ConditionOperator::Gt, -300i16).value(), FieldType::Number(-300));
}
