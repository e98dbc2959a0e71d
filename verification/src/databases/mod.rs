pub mod postgres;
pub mod text;
pub mod request_laws;
