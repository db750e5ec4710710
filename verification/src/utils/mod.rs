pub mod formatting;
pub mod text;
