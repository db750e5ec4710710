pub mod main_view;
pub mod settings_view;
pub mod tag_filter_view;
