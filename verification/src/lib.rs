//! Argument checking and dispatch for the MATLAB entry point of the Strobe
//! drawing toolkit.
#![allow(non_camel_case_types)]

pub mod mx;
pub mod handle;
pub mod command;
pub mod messages;
pub mod rules;
pub mod dispatch;
pub mod text;
pub mod laws;
