pub mod button;
pub mod main_menu;
pub mod pipes;
pub mod playing;
pub mod scene;
