//! The style tag that a grid carries for its host.

use vstd::prelude::*;

verus! {

/// Names the look of a grid. The library only carries the tag; the host
/// decides which colours and fonts it stands for.
#[derive(Clone, Copy, Debug, PartialEq, Eq, Structural)]
pub enum MyTheme {
    /// The one look there is so far.
    Main,
}

impl Default for MyTheme {
    fn default() -> (theme: MyTheme)
        ensures
            theme == MyTheme::Main,
    {
        MyTheme::Main
    }
}

} // verus!
