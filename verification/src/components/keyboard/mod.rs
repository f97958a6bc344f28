pub mod backlight_idle;
pub mod fn_key;
