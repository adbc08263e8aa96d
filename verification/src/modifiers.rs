//! The modifiers that stand in files of their own.

pub mod get_identity;
pub mod is_instance_of;
