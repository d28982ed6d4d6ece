pub mod current_dir;
pub mod next_dir;
pub mod previous_dir;
pub mod top_bar;
