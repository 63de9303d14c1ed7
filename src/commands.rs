//! The calculator's subcommands, one module each.
pub mod add;
pub mod sub;
