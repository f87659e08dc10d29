pub mod command;
pub mod editor;
pub mod render;
pub mod shell;
