pub mod clip_card;
pub mod tag_card;
pub mod top_panel;

pub use clip_card::{ClipCard, ClipCardResponse};
pub use top_panel::{TopPanel, TopPanelResponse};
