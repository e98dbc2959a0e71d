use simple_orm::databases::postgres::{
    delete_request, get_objects, get_request, get_row_fields, get_string_operator,
    initialize_request, insert_request, stringify_condition, stringify_conditions,
    stringify_datafield_in_key_val_string, update_request,
};
use simple_orm::models::database_condition::{ConditionOperator, DatabaseCondition};
use simple_orm::models::database_field::{DatabaseField, FieldType};
use simple_orm::models::database_insertable::{
    bool_value, field_value, number_value, text_value, DatabaseInsertable,
};

#[derive(Debug, Default, PartialEq)]
struct User {
    id: String,
    name: String,
    age: u8,
    activated: bool,
}

impl DatabaseInsertable for User {
    fn database_name() -> String {
        "users".to_owned()
    }

    fn fields_value(&self) -> Vec<DatabaseField> {
        vec![
            DatabaseField::builder("id", FieldType::from(self.id.clone())).is_primary_key().build(),
            DatabaseField::builder("name", FieldType::from(self.name.clone())).build(),
            DatabaseField::builder("age", FieldType::from(self.age)).build(),
            DatabaseField::builder("activated", FieldType::from(self.activated)).build(),
        ]
    }

    fn from_fields(fields: Vec<DatabaseField>) -> Result<Self, String> {
        let age = number_value(field_value(&fields, "age")?)?;
        Ok(User {
            id: text_value(field_value(&fields, "id")?)?,
            name: text_value(field_value(&fields, "name")?)?,
            age: u8::try_from(age).map_err(|_| "age out of range".to_owned())?,
            activated: bool_value(field_value(&fields, "activated")?)?,
        })
    }
}

fn sample_user(age: u8) -> User {
    User { id: "heyZ".to_owned(), name: "name".to_owned(), age, activated: true }
}

fn id_condition() -> Vec<DatabaseCondition> {
    vec![DatabaseCondition::new("id", ConditionOperator::Eq, "heyZ")]
}

#[test]
fn operators_as_sql() {
    assert_eq!(get_string_operator(ConditionOperator::Eq), "=");
    assert_eq!(get_string_operator(ConditionOperator::Gt), ">");
    assert_eq!(get_string_operator(ConditionOperator::Gte), ">=");
    assert_eq!(get_string_operator(ConditionOperator::Lt), "<");
    assert_eq!(get_string_operator(ConditionOperator::Lte), "<=");
}

#[test]
fn condition_as_sql() {
    let c = DatabaseCondition::new("id", ConditionOperator::Eq, "heyZ");
    assert_eq!(stringify_condition(&c), "id = 'heyZ'");
    let c = DatabaseCondition::new("age", ConditionOperator::Gte, 25);
    assert_eq!(stringify_condition(&c), "age >= 25");
    let c = DatabaseCondition::new("activated", ConditionOperator::Lt, true);
    assert_eq!(stringify_condition(&c), "activated < true");
    let c = DatabaseCondition::new("delta", ConditionOperator::Lte, -40i32);
    assert_eq!(stringify_condition(&c), "delta <= -40");
    let c = DatabaseCondition::new("zero", ConditionOperator::Gt, 0i8);
    assert_eq!(stringify_condition(&c), "zero > 0");
}

#[test]
fn numbers_in_decimal() {
    let f = vec![
        DatabaseField::new("a", FieldType::Number(i64::MIN)),
        DatabaseField::new("b", FieldType::Number(i64::MAX)),
        DatabaseField::new("c", FieldType::Number(1000)),
        DatabaseField::new("d", FieldType::Number(-7)),
        DatabaseField::new("e", FieldType::Bool(false)),
    ];
    let (_, values) = stringify_datafield_in_key_val_string(f);
    assert_eq!(values, "-9223372036854775808, 9223372036854775807, 1000, -7, false");
}

#[test]
fn where_clause_only_with_conditions() {
    assert_eq!(stringify_conditions(&[]), "");
    let conds = vec![
        DatabaseCondition::new("id", ConditionOperator::Eq, "heyZ"),
        DatabaseCondition::new("age", ConditionOperator::Gt, 3),
    ];
    assert_eq!(stringify_conditions(&conds), " WHERE id = 'heyZ' AND age > 3");
    assert_eq!(stringify_conditions(&id_condition()), " WHERE id = 'heyZ'");
}

#[test]
fn keys_and_values_in_order() {
    let (keys, values) = stringify_datafield_in_key_val_string(sample_user(25).fields_value());
    assert_eq!(keys, "id, name, age, activated");
    assert_eq!(values, "'heyZ', 'name', 25, true");
    let (keys, values) = stringify_datafield_in_key_val_string(Vec::new());
    assert_eq!(keys, "");
    assert_eq!(values, "");
}

#[test]
fn insert_as_sql() {
    let req = insert_request(&User::database_name(), sample_user(25).fields_value());
    assert_eq!(req, "INSERT INTO users(id, name, age, activated) VALUES('heyZ', 'name', 25, true)");
}

#[test]
fn update_as_sql() {
    let req = update_request(&User::database_name(), sample_user(26).fields_value(), &id_condition());
    assert_eq!(
        req,
        "UPDATE users SET (id, name, age, activated) = ('heyZ', 'name', 26, true) WHERE id = 'heyZ';"
    );
    let req = update_request("users", sample_user(26).fields_value(), &[]);
    assert_eq!(req, "UPDATE users SET (id, name, age, activated) = ('heyZ', 'name', 26, true);");
}

#[test]
fn delete_as_sql() {
    assert_eq!(delete_request("users", &id_condition()), "DELETE FROM users WHERE id = 'heyZ';");
    assert_eq!(delete_request("users", &[]), "DELETE FROM users;");
}

#[test]
fn get_as_sql() {
    let fields = User::default().fields_value();
    assert_eq!(
        get_request("users", &fields, &id_condition()),
        "SELECT id, name, age, activated from users WHERE id = 'heyZ';"
    );
    assert_eq!(get_request("users", &fields, &[]), "SELECT id, name, age, activated from users;");
}

#[test]
fn create_table_as_sql() {
    let req = initialize_request(&User::database_name(), User::default().fields_value());
    assert_eq!(
        req,
        "CREATE TABLE IF NOT EXISTS users (\nid TEXT,\nname TEXT,\nage INTEGER,\nactivated BOOLEAN,\nPRIMARY KEY (id));"
    );
}

#[test]
fn create_table_with_every_constraint() {
    let fields = vec![
        DatabaseField::builder("a", FieldType::Number(0)).is_primary_key().is_mandatory().build(),
        DatabaseField::builder("b", FieldType::Bool(false)).is_primary_key().is_unique().build(),
        DatabaseField::builder("c", FieldType::default()).is_foreign_key("other", "ref").build(),
        DatabaseField::builder("d", FieldType::default())
            .is_mandatory()
            .is_unique()
            .is_foreign_key("more", "key")
            .build(),
    ];
    assert_eq!(
        initialize_request("t", fields),
        "CREATE TABLE IF NOT EXISTS t (\na INTEGER NOT NULL,\nb BOOLEAN UNIQUE,\nc TEXT,\nd TEXT NOT NULL UNIQUE,\nPRIMARY KEY (a,b),\nFOREIGN KEY (ref) REFERENCES other(ref) ON DELETE SET NULL,\nFOREIGN KEY (key) REFERENCES more(key) ON DELETE SET NULL);"
    );
}

#[test]
fn create_table_without_constraint() {
    let fields = vec![DatabaseField::new("a", FieldType::Number(0))];
    assert_eq!(initialize_request("t", fields), "CREATE TABLE IF NOT EXISTS t (\na INTEGER,\n);");
}

#[test]
fn row_fields_hold_row_values() {
    let template = User::default().fields_value();
    let row = vec![
        FieldType::from("heyZ"),
        FieldType::from("name"),
        FieldType::from(25i32),
        FieldType::from(true),
    ];
    let fields = get_row_fields(&template, &row);
    assert_eq!(fields.len(), 4);
    assert_eq!(fields[0].field_name(), "id");
    assert!(fields[0].is_primary_key());
    assert_eq!(fields[0].field_type(), FieldType::String("heyZ".to_owned()));
    assert_eq!(fields[2].field_name(), "age");
    assert_eq!(fields[2].field_type(), FieldType::Number(25));
    assert_eq!(fields[3].field_type(), FieldType::Bool(true));
}

#[test]
fn rows_read_back_as_values() {
    let template = User::default().fields_value();
    let rows = vec![
        vec![FieldType::from("heyZ"), FieldType::from("name"), FieldType::from(25i32), FieldType::from(true)],
        vec![FieldType::from("u2"), FieldType::from("other"), FieldType::from(7i32), FieldType::from(false)],
    ];
    let users: Vec<User> = get_objects(&template, &rows).unwrap();
    assert_eq!(users, vec![
        sample_user(25),
        User { id: "u2".to_owned(), name: "other".to_owned(), age: 7, activated: false },
    ]);
    let none: Vec<User> = get_objects(&template, &Vec::new()).unwrap();
    assert!(none.is_empty());
}

#[test]
fn refused_row_gives_extraction_failure() {
    let template = User::default().fields_value();
    let rows = vec![
        vec![FieldType::from("heyZ"), FieldType::from("name"), FieldType::from(25i32), FieldType::from(true)],
        vec![FieldType::from("u2"), FieldType::from("other"), FieldType::from(700i32), FieldType::from(false)],
    ];
    let err = get_objects::<User>(&template, &rows).unwrap_err();
    assert_eq!(err.error, "ExtractionFailed");
    assert_eq!(err.details, "age out of range");
}

#[test]
fn row_of_own_values_reads_back_the_columns() {
    let template = sample_user(25).fields_value();
    let row: Vec<FieldType> = template.iter().map(|f| f.field_type()).collect();
    let fields = get_row_fields(&template, &row);
    assert!(fields == template);
}
