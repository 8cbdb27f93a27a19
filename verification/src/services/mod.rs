//! Policies that are chosen by configuration.

pub mod version_control;
