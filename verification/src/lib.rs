//! A small object-relational mapper: models of columns, conditions and rows,
//! and the SQL text that stores and loads them.
pub mod models;
pub mod databases;
