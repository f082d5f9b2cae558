pub mod tokens;
pub mod item;
pub mod iac;
pub mod config;
pub mod builder_fields;
pub mod builder;
pub mod panic_to_result;
pub mod person;
pub mod greeting;
pub mod syntax;
pub mod make_public;
pub mod other_attributes;
pub mod private;
pub mod hello;
pub mod upper_case;
pub mod derive_input;
