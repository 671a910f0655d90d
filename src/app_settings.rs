//! The execution context that relative request paths are resolved against.
use vstd::prelude::*;

verus! {

/// The page address and origin of the hosting environment.
pub struct GlobalAppSettings {
    href: String,
    origin: String,
}

impl GlobalAppSettings {
    pub closed spec fn href(&self) -> Seq<char> {
        self.href@
    }

    /// Scheme, host and port; empty where there is no hosting page.
    pub closed spec fn origin(&self) -> Seq<char> {
        self.origin@
    }

    /// The headless context: no page address and an empty origin.
    pub fn new() -> (r: Self)
        ensures
            r.href() == Seq::<char>::empty(),
            r.origin() == Seq::<char>::empty(),
    {
        GlobalAppSettings { href: String::new(), origin: String::new() }
    }

    /// The context of a page with the given address and origin.
    pub fn with_location(href: String, origin: String) -> (r: Self)
        ensures
            r.href() == href@,
            r.origin() == origin@,
    {
        GlobalAppSettings { href, origin }
    }

    pub fn get_href(&self) -> (r: &str)
        ensures
            r@ == self.href(),
    {
        self.href.as_str()
    }

    pub fn get_origin(&self) -> (r: &str)
        ensures
            r@ == self.origin(),
    {
        self.origin.as_str()
    }
}

} // verus!
