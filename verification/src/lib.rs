pub mod handles;
pub mod menu;
pub mod size;
pub mod text;
pub mod console;
pub mod laws;
