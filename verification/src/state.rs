//! The pool's stored record.

pub mod config;
