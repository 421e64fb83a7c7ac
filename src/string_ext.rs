//! A fallback for empty strings.

use vstd::prelude::*;

verus! {

pub trait StringExt {
    /// The string itself, or `default` when it is empty.
    fn or<'a>(&'a self, default: &'a str) -> &'a str;
}

impl StringExt for String {
    fn or<'a>(&'a self, default: &'a str) -> (r: &'a str)
        ensures
            r@ == if self@.len() == 0 {
                default@
            } else {
                self@
            },
    {
        if self.as_str().is_empty() {
            default
        } else {
            self.as_str()
        }
    }
}

} // verus!
