//! The heuristics as a whole.

use crate::config::Handles;
use crate::response::FeroxResponse;
use crate::unique;
use std::sync::Arc;
use vstd::prelude::*;

verus! {

/// enum representing the different servers that can be detected when directory listing is enabled
#[derive(Copy, Clone, Debug)]
pub enum DirListingType {
    /// apache server, detected by `Index of /`
    Apache,

    /// tomcat/python server, detected by `Directory Listing for /`
    TomCatOrPython,

    /// ASP.NET server, detected by `Directory Listing -- /`
    AspDotNet,

    /// variant that represents the absence of directory listing
    NoListing,
}

/// Wrapper around the results of running a directory listing detection against a target web page
#[derive(Clone, Debug)]
pub struct DirListingResult {
    /// type of server where directory listing was detected
    pub dir_list_type: Option<DirListingType>,

    /// the response in which it was detected
    pub response: FeroxResponse,
}

/// wrapper around the results of running a wildcard detection against a target web page
#[derive(Copy, Clone, Debug)]
pub enum WildcardResult {
    /// variant that represents a wildcard directory, with the number of requests that were made
    /// and a hundred for each wildcard directory that was found
    WildcardDirectory(usize),

    /// variant that represents the presence of a 404-like response, and also the absence of any
    /// pattern, with the number of requests that were made
    FourOhFourLike(usize),
}

/// container for heuristics related info
pub struct HeuristicTests {
    /// settings and whatever else the heuristics share with the rest of a scan
    pub handles: Arc<Handles>,
}

impl HeuristicTests {
    /// create a new HeuristicTests struct
    pub fn new(handles: Arc<Handles>) -> (tests: Self)
        ensures
            tests.handles == handles,
    {
        HeuristicTests { handles }
    }

    /// Simple helper to return a uuid, formatted as lowercase without hyphens
    ///
    /// `length` determines the number of uuids to string together. Each uuid
    /// is 32 characters long. So, a length of 1 return a 32 character string,
    /// a length of 2 returns a 64 character string, and so on...
    pub fn unique_string(&self, length: usize) -> (unique_id: String)
        ensures
            unique::is_unique_text(unique_id@, length as nat),
            unique_id@.len() == unique::UUID_TEXT_LENGTH * length,
    {
        let unique_id = unique::random_text(length);
        proof {
            unique::unique_text_is_hexadecimal(unique_id@, length as nat);
        }
        unique_id
    }
}

} // verus!
