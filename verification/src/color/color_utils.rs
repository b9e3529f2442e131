//! Giving a text a colour mode.

use vstd::prelude::*;
use super::color::{colored, ColorMode, ColorString};

verus! {

/// Texts that can be shown in colour.
pub trait ToColorString {
    /// The characters of the text.
    spec fn text(&self) -> Seq<char>;

    /// The text with the colour mode `color_mode`.
    fn as_color(&self, color_mode: &ColorMode) -> (r: ColorString)
        ensures
            r.content@ == self.text(),
            r.color_mode == *color_mode,
    ;

    /// The text with the escape sequences of `color_mode` around it.
    fn to_color_string(&self, color_mode: &ColorMode) -> (r: String)
        ensures
            r@ == colored(self.text(), *color_mode),
    ;
}

impl ToColorString for str {
    open spec fn text(&self) -> Seq<char> {
        self@
    }

    fn as_color(&self, color_mode: &ColorMode) -> (r: ColorString) {
        ColorString { content: String::from_str(self), color_mode: *color_mode }
    }

    fn to_color_string(&self, color_mode: &ColorMode) -> (r: String) {
        self.as_color(color_mode).to_string()
    }
}

impl ToColorString for String {
    open spec fn text(&self) -> Seq<char> {
        self@
    }

    fn as_color(&self, color_mode: &ColorMode) -> (r: ColorString) {
        ColorString { content: String::from_str(self.as_str()), color_mode: *color_mode }
    }

    fn to_color_string(&self, color_mode: &ColorMode) -> (r: String) {
        self.as_color(color_mode).to_string()
    }
}

} // verus!
