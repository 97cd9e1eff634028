pub mod detail_rows;
pub mod detail_screen;
pub mod execution_events;
pub mod execution_screen;
pub mod inline_edit;
pub mod keys;
pub mod main_rows;
pub mod main_screen;
pub mod notification;
pub mod output_rows;
pub mod scrollable_list;
pub mod text_input;
pub mod variable_screen;
