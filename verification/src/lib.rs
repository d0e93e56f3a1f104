//! Register-level control of a TMC2209 stepper driver over its single-wire UART.
//!
//! A caller describes a change as a sparse [`config::TMC2209_Config`]; the
//! library works out which registers the change touches, merges the change
//! into their images, and says in which order the images go back to the chip.
//! All I/O is left to the caller: the library decides, the caller moves bytes.
#![allow(non_camel_case_types)]
#![allow(non_snake_case)]

pub mod bits;
pub mod calc;
pub mod config;
pub mod registers;
pub mod registers_collection;
pub mod reg_processor;
pub mod config_read_write_methods;
pub mod driver;
pub mod merge_laws;
pub mod sync_laws;
pub mod tmc_read_write;
