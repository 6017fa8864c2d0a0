//! Resolution of the directory that diagnostics are written under.

use vstd::prelude::*;
use vstd::string::StringExecFns;

verus! {

/// Picks the data directory from configuration resolved at process start: an
/// explicit override wins; else the platform's per-project data directory;
/// else a `.data` directory beside the working directory.
pub fn get_data_dir(data_folder: Option<String>, project_data_dir: Option<String>) -> (r: String)
    ensures
        data_folder matches Some(d) ==> r@ == d@,
        data_folder is None ==> (project_data_dir matches Some(p) ==> r@ == p@),
        (data_folder is None && project_data_dir is None) ==> r@ == "./.data"@,
{
    if let Some(d) = data_folder {
        d
    } else if let Some(p) = project_data_dir {
        p
    } else {
        String::from_str("./.data")
    }
}

} // verus!
