pub mod database_condition;
pub mod database_error;
pub mod database_field;
pub mod database_insertable;
