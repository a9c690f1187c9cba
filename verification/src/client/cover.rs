//! The cover page, which leads to signing up and to logging in.

use vstd::prelude::*;
use crate::client::components::Key;

verus! {

/// The cover page. It holds nothing.
#[derive(Clone, Copy, Debug, PartialEq, Eq, Structural)]
pub struct CoverPage;

impl CoverPage {
    /// The cover page.
    pub fn new() -> (page: CoverPage)
        ensures
            page == CoverPage,
    {
        CoverPage
    }

    /// Whether a key ends the client: escape does.
    pub fn handle_input(&self, key: Key) -> (quit: bool)
        ensures
            quit == (key == Key::Esc),
    {
        match key {
            Key::Esc => true,
            _ => false,
        }
    }
}

} // verus!
