pub mod create_clip;
pub mod create_tag;
pub mod edit_tag_name;
pub mod tag_assignment;
