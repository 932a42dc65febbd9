//! Values that describe a request before it is sent.

use vstd::prelude::*;

verus! {

/// A request to scrape the metrics endpoint at `target`.
pub struct Scrape {
    target: String,
}

impl View for Scrape {
    type V = Seq<char>;

    /// The target's URL.
    closed spec fn view(&self) -> Seq<char> {
        self.target@
    }
}

impl Scrape {
    pub fn new(target: String) -> (r: Self)
        ensures
            r@ == target@,
    {
        Scrape { target }
    }

    /// The URL to scrape.
    pub fn target(&self) -> (r: &str)
        ensures
            r@ == self@,
    {
        self.target.as_str()
    }
}

} // verus!
