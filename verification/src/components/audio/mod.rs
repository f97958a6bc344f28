pub mod sound_modes;
