//! Where the database of a repository is fetched from and stored.

use vstd::prelude::*;
use vstd::string::*;
use crate::history::{join_path, path_join};
use crate::text::{chars_of, push_text, string_of};

verus! {

/// The download of the database of one repository.
#[derive(Clone, Debug, PartialEq, Eq)]
pub struct DatabaseDownload {
    /// The address to fetch.
    pub url: String,
    /// The file to store it in.
    pub dest: String,
    /// What to tell the user.
    pub message: String,
}

/// The name of the database file of a repository.
pub open spec fn database_file(repo_name: Seq<char>) -> Seq<char> {
    repo_name + ".db"@
}

/// The download of the database of the repository `repo_name` from the
/// mirror `server` into the directory `dest_dir`: the file `<repo>.db`
/// below the mirror's address, stored under the same name.
pub fn download_database(server: &str, repo_name: &str, dest_dir: &str) -> (r: DatabaseDownload)
    ensures
        r.url@ == server@ + "/"@ + database_file(repo_name@),
        r.dest@ == path_join(dest_dir@, database_file(repo_name@)),
        r.message@ == "  Downloading "@ + database_file(repo_name@) + " from "@ + server@,
{
    let mut file = chars_of(repo_name);
    push_text(&mut file, ".db");
    let file_name = string_of(&file);
    let mut url = chars_of(server);
    push_text(&mut url, "/");
    push_text(&mut url, file_name.as_str());
    let mut message = chars_of("  Downloading ");
    push_text(&mut message, file_name.as_str());
    push_text(&mut message, " from ");
    push_text(&mut message, server);
    DatabaseDownload {
        url: string_of(&url),
        dest: string_of(&join_path(&chars_of(dest_dir), &file)),
        message: string_of(&message),
    }
}

} // verus!
