//! Defaulting rules for the request's optional names.
//!
//! The caller may leave the archive name out of the query string, and a file
//! part may arrive without a declared filename; both fall back to fixed
//! defaults. Only parts whose multipart field name is `files` are stored.

use vstd::prelude::*;

verus! {

/// The archive name the service uses: the caller's choice when it is present
/// and non-empty, otherwise `protected.zip`.
pub open spec fn chosen_archive_name(requested: Option<String>) -> Seq<char> {
    match requested {
        Some(name) => if name@.len() > 0 {
            name@
        } else {
            "protected.zip"@
        },
        None => "protected.zip"@,
    }
}

/// The name an uploaded part is stored under: its declared filename when it
/// is present and non-empty, otherwise the placeholder `file`.
pub open spec fn stored_name(declared: Option<String>) -> Seq<char> {
    match declared {
        Some(name) => if name@.len() > 0 {
            name@
        } else {
            "file"@
        },
        None => "file"@,
    }
}

/// Whether a multipart field name marks a file attachment; every other part
/// is skipped.
pub open spec fn is_file_field(name: Seq<char>) -> bool {
    name == "files"@
}

/// Applies the archive-name default of `chosen_archive_name`.
pub fn effective_archive_name(requested: &Option<String>) -> (r: String)
    ensures
        r@ == chosen_archive_name(*requested),
{
    match requested {
        Some(name) => {
            if name.as_str().is_empty() {
                String::from_str("protected.zip")
            } else {
                name.clone()
            }
        },
        None => String::from_str("protected.zip"),
    }
}

/// Applies the filename default of `stored_name`.
pub fn effective_file_name(declared: &Option<String>) -> (r: String)
    ensures
        r@ == stored_name(*declared),
{
    match declared {
        Some(name) => {
            if name.as_str().is_empty() {
                String::from_str("file")
            } else {
                name.clone()
            }
        },
        None => String::from_str("file"),
    }
}

/// Whether `name` is the field name under which files are uploaded.
pub fn file_field(name: &str) -> (r: bool)
    ensures
        r == is_file_field(name@),
{
    let lhs = name.to_owned();
    let rhs = String::from_str("files");
    lhs == rhs
}

} // verus!
