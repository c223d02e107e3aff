//! The current color theme.

use vstd::prelude::*;
use crate::text::to_owned_string;

verus! {

/// Holds the name of the current color theme.
#[derive(Debug)]
pub struct ThemeService {
    current_theme: String,
}

impl ThemeService {
    /// The name of the current theme.
    pub closed spec fn theme_view(&self) -> Seq<char> {
        self.current_theme@
    }

    /// Starts with the "SUPER Orange Dark" theme.
    pub fn new() -> (r: Self)
        ensures
            r.theme_view() == "SUPER Orange Dark"@,
    {
        ThemeService { current_theme: to_owned_string("SUPER Orange Dark") }
    }

    /// The name of the current theme.
    pub fn current(&self) -> (r: String)
        ensures
            r@ == self.theme_view(),
    {
        self.current_theme.clone()
    }

    /// Makes `name` the current theme.
    pub fn set_theme(&mut self, name: &str)
        ensures
            final(self).theme_view() == name@,
    {
        self.current_theme = to_owned_string(name);
    }
}

impl Default for ThemeService {
    fn default() -> (r: Self)
        ensures
            r.theme_view() == "SUPER Orange Dark"@,
    {
        ThemeService::new()
    }
}

} // verus!
