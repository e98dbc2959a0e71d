use vstd::prelude::*;

verus! {

/// The step of a request to the database that failed.
#[derive(Clone, Copy, PartialEq, Eq, Debug)]
pub enum DatabaseStep {
    Connect,
    CreateTable,
    Insert,
    Update,
    Delete,
    Query,
    Extract,
}

/// The code that names a failure of the step.
pub open spec fn error_code(step: DatabaseStep) -> Seq<char> {
    match step {
        DatabaseStep::Connect => "CannotConnectToDatabase"@,
        DatabaseStep::CreateTable => "CannotCreateTable"@,
        DatabaseStep::Insert => "CannotInsertInTable"@,
        DatabaseStep::Update => "CannotUpdateInTable"@,
        DatabaseStep::Delete => "CannotDeleteFromTable"@,
        DatabaseStep::Query => "InvalidQuery"@,
        DatabaseStep::Extract => "ExtractionFailed"@,
    }
}

/// A failure: a code that names the step, and what the database or the
/// conversion said.
#[derive(Debug)]
pub struct DatabaseError {
    pub error: String,
    pub details: String,
}

impl DatabaseError {
    /// The failure of `step`, with the message that came with it.
    pub fn new(step: DatabaseStep, details: String) -> (res: Self)
        ensures
            res.error@ == error_code(step),
            res.details == details,
    {
        let error = match step {
            DatabaseStep::Connect => "CannotConnectToDatabase".to_owned(),
            DatabaseStep::CreateTable => "CannotCreateTable".to_owned(),
            DatabaseStep::Insert => "CannotInsertInTable".to_owned(),
            DatabaseStep::Update => "CannotUpdateInTable".to_owned(),
            DatabaseStep::Delete => "CannotDeleteFromTable".to_owned(),
            DatabaseStep::Query => "InvalidQuery".to_owned(),
            DatabaseStep::Extract => "ExtractionFailed".to_owned(),
        };
        DatabaseError { error, details }
    }
}

/// What a request answers once the database has run `step`: nothing when it
/// succeeded, else the failure of `step` with the database's message.
pub fn step_result(step: DatabaseStep, outcome: Result<(), String>) -> (res: Result<(), DatabaseError>)
    ensures
        outcome is Ok <==> res is Ok,
        outcome matches Err(msg) ==> (res matches Err(e) && e.error@ == error_code(step)
            && e.details == msg),
{
    match outcome {
        Ok(()) => Ok(()),
        Err(msg) => Err(DatabaseError::new(step, msg)),
    }
}

} // verus!
