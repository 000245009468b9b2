//! What the user and API-key directory answers.

use vstd::prelude::*;

verus! {

/// The directory's answer to one lookup.
#[derive(Debug)]
pub enum DirectoryAnswer<T> {
    /// The principal is authorized; here is what the directory holds on it.
    Found(T),
    /// The directory does not authorize the principal.
    Unknown,
    /// The directory could not be asked.
    Unavailable,
}

} // verus!
