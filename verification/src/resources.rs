//! Logical paths of the assets the viewer fetches.
//!
//! A `Resources` value names one asset.  The host performs the actual
//! network request for the text or bytes behind the path; this module
//! only builds and exposes the path itself.

use vstd::prelude::*;
use vstd::string::*;

verus! {

/// The logical path of one fetchable asset.
#[derive(Debug)]
pub struct Resources(String);

impl View for Resources {
    type V = Seq<char>;

    closed spec fn view(&self) -> Seq<char> {
        self.0@
    }
}

impl Resources {
    /// The path of a static asset, addressed by its bare file name.
    pub fn from_file_name(file_name: &str) -> (r: Self)
        ensures
            r@ == "static/"@ + file_name@,
    {
        Resources(String::from_str("static/").concat(file_name))
    }

    /// The path of an asset addressed by a full path.
    pub fn from_path(path: &str) -> (r: Self)
        ensures
            r@ == path@,
    {
        Resources(String::from_str(path))
    }

    /// The path to request, for the host's fetch.
    pub fn path(&self) -> (p: &str)
        ensures
            p@ == self@,
    {
        self.0.as_str()
    }
}

} // verus!
