//! Decision logic of the Utu ASUS laptop control centre: what each settings
//! page does with a user action or a daemon reply, how hardware readings are
//! parsed and shown, and the accent theme.
pub mod components;
pub mod services;
pub mod text;
