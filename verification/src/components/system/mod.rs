pub mod charge_limit;
pub mod thermal_profile;
pub mod gpu;
pub mod battery_health;
pub mod apu_mem;
pub mod battery;
