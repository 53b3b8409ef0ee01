//! Paths of files in a directory.

use vstd::prelude::*;

use crate::text::chars_of;

verus! {

/// The path of a file in a directory. The empty directory is the current one.
pub open spec fn path_in(directory: Seq<char>, file: Seq<char>) -> Seq<char> {
    if directory.len() == 0 {
        file
    } else if directory.last() == '/' {
        directory + file
    } else {
        directory + "/"@ + file
    }
}

/// Joins a directory and the name of a file in it.
pub fn join_path(directory: &str, file: &str) -> (r: String)
    ensures
        r@ == path_in(directory@, file@),
{
    let chars = chars_of(directory);
    let n: usize = chars.len();
    if n == 0 {
        file.to_string()
    } else if chars[n - 1] == '/' {
        directory.to_string().concat(file)
    } else {
        directory.to_string().concat("/").concat(file)
    }
}

/// The path of a file in a directory is that of the directory, one slash and the
/// name of the file, whether or not the directory is written with a slash at its
/// end; and in the empty directory it is the name alone.
pub proof fn law_one_slash_before_the_file(directory: Seq<char>, file: Seq<char>)
    requires
        directory.len() > 0,
        directory.last() != '/',
    ensures
        path_in(directory, file) == directory + seq!['/'] + file,
        path_in(directory.push('/'), file) == directory + seq!['/'] + file,
        path_in(seq!['/'], file) == seq!['/'] + file,
        path_in(Seq::empty(), file) == file,
{
    reveal_strlit("/");
    assert("/"@ =~= seq!['/']);
    assert(directory.push('/') + file =~= directory + seq!['/'] + file);
}

} // verus!
