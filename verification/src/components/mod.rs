pub mod about;
pub mod appearance;
pub mod keyboard;
pub mod system;
pub mod audio;
pub mod home;
pub mod hardware;
pub mod display;
