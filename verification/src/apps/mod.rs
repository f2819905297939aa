//! Application support: manifest checks, the surface protocol that
//! registered applications speak with the desktop shell, and the text
//! models of the calculator and notes applications.

pub mod calculator;
pub mod manifest;
pub mod notes;
pub mod surface;
