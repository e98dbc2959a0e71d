use simple_orm::models::database_field::{DatabaseField, FieldType};

#[test]
fn field_type_conversions() {
    assert_eq!(FieldType::from("x".to_owned()), FieldType::String("x".to_owned()));
    assert_eq!(FieldType::from("y"), FieldType::String("y".to_owned()));
    assert_eq!(FieldType::from(255u8), FieldType::Number(255));
    assert_eq!(FieldType::from(-128i8), FieldType::Number(-128));
    assert_eq!(FieldType::from(-32768i16), FieldType::Number(-32768));
    assert_eq!(FieldType::from(i32::MIN), FieldType::Number(-2147483648));
    assert_eq!(FieldType::from(false), FieldType::Bool(false));
}

#[test]
fn field_type_default_is_empty_text() {
    assert_eq!(FieldType::default(), FieldType::String(String::new()));
}

#[test]
fn field_type_clone_keeps_value() {
    let v = FieldType::String("abc".to_owned());
    assert_eq!(v.clone(), v);
    let n = FieldType::Number(-4);
    assert_eq!(n.clone(), FieldType::Number(-4));
}

#[test]
fn field_new_has_no_constraint() {
    let f = DatabaseField::new("age", FieldType::from(25u8));
    assert_eq!(f.field_name(), "age");
    assert_eq!(f.field_type(), FieldType::Number(25));
    assert!(!f.unique());
    assert!(!f.is_mandatory());
    assert!(!f.is_primary_key());
    assert_eq!(f.is_foreign_key(), None);
}

#[test]
fn builder_without_steps_equals_new() {
    let built = DatabaseField::builder("age", FieldType::Number(3)).build();
    let plain = DatabaseField::new("age", FieldType::Number(3));
    assert!(built == plain);
}

#[test]
fn builder_sets_each_flag() {
    let f = DatabaseField::builder("id", FieldType::from("x"))
        .is_primary_key()
        .is_unique()
        .is_mandatory()
        .is_foreign_key("users", "uid")
        .build();
    assert_eq!(f.field_name(), "id");
    assert_eq!(f.field_type(), FieldType::String("x".to_owned()));
    assert!(f.is_primary_key());
    assert!(f.unique());
    assert!(f.is_mandatory());
    assert_eq!(f.is_foreign_key(), Some(("users".to_owned(), "uid".to_owned())));

    let only_unique = DatabaseField::builder("id", FieldType::Bool(true)).is_unique().build();
    assert!(only_unique.unique());
    assert!(!only_unique.is_mandatory());
    assert!(!only_unique.is_primary_key());
    assert_eq!(only_unique.is_foreign_key(), None);
}

#[test]
fn builder_steps_commute_and_repeat() {
    let a = DatabaseField::builder("c", FieldType::Number(1))
        .is_mandatory()
        .is_unique()
        .is_foreign_key("t1", "a")
        .build();
    let b = DatabaseField::builder("c", FieldType::Number(1))
        .is_foreign_key("t2", "b")
        .is_unique()
        .is_unique()
        .is_foreign_key("t1", "a")
        .is_mandatory()
        .build();
    assert!(a == b);
}

#[test]
fn set_field_type_replaces_only_the_value() {
    let mut f = DatabaseField::builder("age", FieldType::Number(1)).is_mandatory().build();
    f.set_field_type(FieldType::Number(99));
    assert_eq!(f.field_type(), FieldType::Number(99));
    assert_eq!(f.field_name(), "age");
    assert!(f.is_mandatory());
    assert!(!f.unique());
}

#[test]
fn field_clone_keeps_everything() {
    let f = DatabaseField::builder("id", FieldType::from("v")).is_foreign_key("a", "b").build();
    let g = f.clone();
    assert!(f == g);
    assert_eq!(g.is_foreign_key(), Some(("a".to_owned(), "b".to_owned())));
}
