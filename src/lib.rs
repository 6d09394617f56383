pub mod error;
pub mod extract;
pub mod schema;
pub mod shell;
pub mod text;
