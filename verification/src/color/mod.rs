//! Terminal colours: ANSI escape sequences around a text.

pub mod color;
pub mod color_utils;
