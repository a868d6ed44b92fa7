//! The content type assigned to an image by the quality detector.
use vstd::prelude::*;
use vstd::string::*;

verus! {

/// A named content type (e.g. "photo", "screenshot").
#[derive(Debug, Clone)]
pub struct ImageContentType {
    pub name: String,
}

impl Default for ImageContentType {
    fn default() -> (r: Self)
        ensures
            r.name@ == Seq::<char>::empty(),
    {
        ImageContentType { name: String::new() }
    }
}

} // verus!
