pub mod clip;
pub mod color;
pub mod date;
pub mod tag;
pub mod ui_state;

pub use clip::Clip;
pub use color::Rgb;
pub use date::Date;
pub use tag::Tag;
pub use ui_state::{UiMode, UiState};
