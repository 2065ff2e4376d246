//! Where the members of an archive are written: the folder beside the
//! archive, and the path of each member in it.

use vstd::prelude::*;

verus! {

/// What the folder name ends with.
pub open spec fn folder_suffix() -> Seq<char> {
    seq!['_', 'e', 'x', 't', 'r', 'a', 'c', 't', 'e', 'd']
}

/// `path` ends with the archive extension: a `.` and two letters `c`, each in
/// either case.
pub open spec fn has_archive_extension(path: Seq<char>) -> bool {
    let len = path.len() as int;
    &&& len >= 3
    &&& path[len - 3] == '.'
    &&& (path[len - 2] == 'C' || path[len - 2] == 'c')
    &&& (path[len - 1] == 'C' || path[len - 1] == 'c')
}

/// `path` without the archive extension at its end. A path that does not end
/// with it stays as it is, and so does everything before the end.
pub open spec fn without_archive_extension(path: Seq<char>) -> Seq<char> {
    if has_archive_extension(path) {
        path.take(path.len() - 3)
    } else {
        path
    }
}

/// The folder for the members of the archive at `file_name`: the path of the
/// archive without its extension, followed by `_extracted`.
pub open spec fn extraction_folder(file_name: Seq<char>) -> Seq<char> {
    without_archive_extension(file_name) + folder_suffix()
}

/// The path of the member `file_name` in the folder `directory`.
pub open spec fn member_path(directory: Seq<char>, file_name: Seq<char>) -> Seq<char> {
    seq!['.', '/'] + directory + seq!['/'] + file_name
}

/// Names the folder that the members of the archive at `file_name` go to. It
/// lies beside the archive and is named after it: `XEEN.CC` gives
/// `XEEN_extracted`, and `games/dark.cc` gives `games/dark_extracted`.
pub fn extraction_folder_name(file_name: &str) -> (folder_name: String)
    ensures
        folder_name@ == extraction_folder(file_name@),
{
    let len: usize = file_name.unicode_len();
    let mut kept: usize = len;
    if len >= 3 {
        let dot: char = file_name.get_char(len - 3);
        let first: char = file_name.get_char(len - 2);
        let second: char = file_name.get_char(len - 1);
        if dot == '.' && (first == 'C' || first == 'c') && (second == 'C' || second == 'c') {
            kept = len - 3;
        }
    }
    assert(file_name@.subrange(0, kept as int) =~= without_archive_extension(file_name@));
    let mut folder_name = String::from_str(file_name.substring_char(0, kept));
    proof {
        reveal_strlit("_extracted");
    }
    assert("_extracted"@ =~= folder_suffix());
    folder_name.append("_extracted");
    folder_name
}

/// Builds the path that a member is written to: `./`, the folder, `/`, and
/// the member's name.
pub fn output_path(directory: &str, file_name: &str) -> (path: String)
    ensures
        path@ == member_path(directory@, file_name@),
{
    proof {
        reveal_strlit("./");
        reveal_strlit("/");
    }
    assert("./"@ =~= seq!['.', '/']);
    assert("/"@ =~= seq!['/']);
    let mut path = String::from_str("./");
    path.append(directory);
    path.append("/");
    path.append(file_name);
    path
}

} // verus!
