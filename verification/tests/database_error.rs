use simple_orm::models::database_error::{step_result, DatabaseError, DatabaseStep};

#[test]
fn error_codes_of_steps() {
    let cases = [
        (DatabaseStep::Connect, "CannotConnectToDatabase"),
        (DatabaseStep::CreateTable, "CannotCreateTable"),
        (DatabaseStep::Insert, "CannotInsertInTable"),
        (DatabaseStep::Update, "CannotUpdateInTable"),
        (DatabaseStep::Delete, "CannotDeleteFromTable"),
        (DatabaseStep::Query, "InvalidQuery"),
        (DatabaseStep::Extract, "ExtractionFailed"),
    ];
    for (step, code) in cases {
        let e = DatabaseError::new(step, "why".to_owned());
        assert_eq!(e.error, code);
        assert_eq!(e.details, "why");
    }
}

#[test]
fn step_result_passes_success_and_names_failure() {
    assert!(step_result(DatabaseStep::Insert, Ok(())).is_ok());
    let e = step_result(DatabaseStep::Delete, Err("no such table".to_owned())).unwrap_err();
    assert_eq!(e.error, "CannotDeleteFromTable");
    assert_eq!(e.details, "no such table");
}
