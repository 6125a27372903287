//! The name of the file that holds an instance's unit.

use vstd::prelude::*;

verus! {

/// A character that parts the directories of a path.
pub open spec fn is_path_separator(c: char) -> bool {
    c == '/' || c == '\\'
}

/// A name that can stand for a file in the output directory: it is not
/// empty and holds no path separator.
pub open spec fn is_file_stem(name: Seq<char>) -> bool {
    name.len() > 0 && forall|i: int| 0 <= i < name.len() ==> !is_path_separator(#[trigger] name[i])
}

/// The unit file of an instance: its name and the suffix `.service`.
pub open spec fn file_name_of(name: Seq<char>) -> Seq<char> {
    name + ".service"@
}

/// Names the unit file of an instance, or refuses the instance's name:
/// an empty name, or one with a path separator in it, gets no file.
pub fn output_file_name(name: &str) -> (r: Option<String>)
    ensures
        is_file_stem(name@) ==> r is Some && r->0@ == file_name_of(name@),
        !is_file_stem(name@) ==> r is None,
{
    let n = name.unicode_len();
    if n == 0 {
        return None;
    }
    let mut i: usize = 0;
    while i < n
        invariant
            i <= n,
            n == name@.len(),
            forall|k: int| 0 <= k < i ==> !is_path_separator(#[trigger] name@[k]),
        decreases n - i,
    {
        let c = name.get_char(i);
        if c == '/' || c == '\\' {
            return None;
        }
        i += 1;
    }
    let mut file = String::from_str(name);
    file.append(".service");
    Some(file)
}

} // verus!
