pub mod main_screen;
