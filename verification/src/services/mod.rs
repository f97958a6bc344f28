pub mod gnome_brightness;
pub mod profiles;
pub mod theme;
pub mod armoury_key;
