pub mod cosmic_panel;
pub mod helpers;
