//! Upload requests and the rule that keeps a file from being stored twice.

use vstd::prelude::*;

use crate::errors::ServerError;
use crate::strutil::{spec_contains_string, string_vec_contains};

verus! {

/// A request to fetch a file and store it under a name.
#[derive(Debug, Clone)]
pub struct SaveFileRequest {
    pub filename: String,
    pub file_url: String,
}

/// The guard an upload must pass: no stored file may already carry the
/// requested name.
pub fn check_filename_free(existing: &Vec<String>, filename: &str) -> (r: Result<
    (),
    ServerError,
>)
    ensures
        r is Ok <==> !spec_contains_string(existing@, filename@),
        spec_contains_string(existing@, filename@) ==> (r matches Err(e) && e.error_message@
            == "A file with exactly the same name already exists."@),
{
    if string_vec_contains(existing, filename) {
        Err(ServerError::with_message("A file with exactly the same name already exists."))
    } else {
        Ok(())
    }
}

} // verus!
