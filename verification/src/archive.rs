//! The argument list handed to the external archiver.
//!
//! The archiver runs with the workspace as its working directory and is told
//! to strip stored paths to base names (`-j`), to encrypt with the password
//! (`-P`), to write the archive under the chosen name, and to take exactly
//! the materialized files, in order.

use vstd::prelude::*;

verus! {

/// The character sequences of a list of strings.
pub open spec fn views_of(items: Seq<String>) -> Seq<Seq<char>> {
    items.map_values(|s: String| s@)
}

/// The exact argument list of one archiver invocation: junk-paths flag,
/// password flag with the password, the archive name, then every file name.
pub open spec fn archiver_argv(
    password: Seq<char>,
    archive_name: Seq<char>,
    files: Seq<Seq<char>>,
) -> Seq<Seq<char>> {
    seq!["-j"@, "-P"@, password, archive_name] + files
}

/// Builds the archiver's argument list.
pub fn archiver_args(password: &String, archive_name: &String, files: &Vec<String>) -> (r: Vec<
    String,
>)
    ensures
        views_of(r@) == archiver_argv(password@, archive_name@, views_of(files@)),
{
    let mut r: Vec<String> = Vec::new();
    r.push(String::from_str("-j"));
    r.push(String::from_str("-P"));
    r.push(password.clone());
    r.push(archive_name.clone());
    let n = files.len();
    let mut k: usize = 0;
    while k < n
        invariant
            n == files@.len(),
            0 <= k <= n,
            r@.len() == 4 + k,
            r@[0]@ == "-j"@,
            r@[1]@ == "-P"@,
            r@[2]@ == password@,
            r@[3]@ == archive_name@,
            forall|m: int| 0 <= m < k ==> r@[4 + m]@ == files@[m]@,
        decreases n - k,
    {
        r.push(files[k].clone());
        k = k + 1;
    }
    proof {
        assert(views_of(r@) =~= archiver_argv(password@, archive_name@, views_of(files@)));
    }
    r
}

} // verus!
