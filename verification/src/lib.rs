//! Generator of register-access source code from a device description.
//!
//! A description names the peripherals of a device with their registers
//! and bit fields. From it the generator builds a model in which
//! peripherals of the same layout share one shape, and emits the text of
//! one source file for each shape and for each peripheral, together with
//! the files that list them. The text of every file is stated exactly, as a
//! function of the description and the settings.

pub mod builder;
pub mod config;
pub mod consistency;
pub mod document;
pub mod generate;
pub mod guard;
pub mod instance;
pub mod laws;
pub mod layout;
pub mod markup;
pub mod model;
pub mod names;
pub mod number;
pub mod peripheral;
pub mod search;
pub mod svd;
pub mod text;
pub mod tree;

pub use crate::config::{AddressSize, GeneratorConfig};
pub use crate::generate::generate;
