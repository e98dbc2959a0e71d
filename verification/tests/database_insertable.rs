use simple_orm::models::database_field::{DatabaseField, FieldType};
use simple_orm::models::database_insertable::{bool_value, field_value, number_value, text_value};

fn columns() -> Vec<DatabaseField> {
    vec![
        DatabaseField::new("id", FieldType::from("first")),
        DatabaseField::new("age", FieldType::from(3i32)),
        DatabaseField::new("id", FieldType::from("second")),
    ]
}

#[test]
fn field_value_takes_first_column_with_the_name() {
    assert_eq!(field_value(&columns(), "id"), Ok(FieldType::String("first".to_owned())));
    assert_eq!(field_value(&columns(), "age"), Ok(FieldType::Number(3)));
}

#[test]
fn field_value_reports_missing_column() {
    assert_eq!(
        field_value(&columns(), "name"),
        Err("Field 'name' not found in fields vector".to_owned())
    );
    assert_eq!(field_value(&Vec::new(), "x"), Err("Field 'x' not found in fields vector".to_owned()));
}

#[test]
fn kinds_of_values() {
    assert_eq!(number_value(FieldType::Number(-2)), Ok(-2));
    assert_eq!(text_value(FieldType::from("t")), Ok("t".to_owned()));
    assert_eq!(bool_value(FieldType::Bool(true)), Ok(true));
    let mismatch = Err("Mismatched field type for 'id'".to_owned());
    assert_eq!(number_value(FieldType::Bool(true)), mismatch.clone().map(|_: ()| 0));
    assert_eq!(text_value(FieldType::Number(1)), mismatch.clone().map(|_: ()| String::new()));
    assert_eq!(bool_value(FieldType::from("x")), mismatch.map(|_: ()| false));
}
