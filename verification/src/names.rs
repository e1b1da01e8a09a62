use vstd::prelude::*;
use vstd::string::StrSliceExecFns;

verus! {

/// An entry name stands for a directory when it is not empty and ends in the
/// path separator `/`.
pub open spec fn names_directory(name: Seq<char>) -> bool {
    name.len() > 0 && name.last() == '/'
}

/// An entry name stands for a file when it is not empty and does not end in
/// the path separator `/`.
pub open spec fn names_file(name: Seq<char>) -> bool {
    name.len() > 0 && name.last() != '/'
}

/// Whether `name` is the name of a directory entry.
pub fn is_directory_name(name: &str) -> (yes: bool)
    ensures
        yes == names_directory(name@),
{
    let n: usize = name.unicode_len();
    n > 0 && name.get_char(n - 1) == '/'
}

/// Whether `name` is the name of a file entry.
pub fn is_file_name(name: &str) -> (yes: bool)
    ensures
        yes == names_file(name@),
{
    let n: usize = name.unicode_len();
    n > 0 && name.get_char(n - 1) != '/'
}

} // verus!
