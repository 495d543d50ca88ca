//! Finding helper programs on the `PATH`.

use vstd::prelude::*;

use crate::server::{file_name_of, path_file_name};
use crate::text::{opt_string_view, split, split_str, str_eq};

verus! {

/// The directories a `PATH` value lists, in order.
pub fn path_dirs(path_var: &str) -> (r: Vec<String>)
    ensures
        r@.map_values(|x: String| x@) == split(path_var@, ':'),
{
    split_str(path_var, ':')
}

/// Position of the first path, below `k`, whose file name is `name`.
pub open spec fn first_path_named(paths: Seq<Seq<char>>, name: Seq<char>, k: int) -> Option<int>
    decreases k,
{
    if k <= 0 {
        None
    } else {
        match first_path_named(paths, name, k - 1) {
            Some(i) => Some(i),
            None => if file_name_of(paths[k - 1]) == Some(name) {
                Some(k - 1)
            } else {
                None
            },
        }
    }
}

/// Once found below `i`, the first path of that name stays the one found.
proof fn lemma_first_path_named_found(paths: Seq<Seq<char>>, name: Seq<char>, i: int, k: int)
    requires
        i <= k,
        first_path_named(paths, name, i) is Some,
    ensures
        first_path_named(paths, name, k) == first_path_named(paths, name, i),
    decreases k - i,
{
    if i < k {
        lemma_first_path_named_found(paths, name, i, k - 1);
    }
}

/// The first of the executable files found on the `PATH` whose file name is
/// `name`.
pub fn whereis(files: &Vec<String>, name: &str) -> (r: Option<String>)
    ensures
        match first_path_named(files@.map_values(|x: String| x@), name@, files@.len() as int) {
            Some(i) => r matches Some(p) && 0 <= i < files@.len() && p@ == files@[i]@,
            None => r is None,
        },
{
    let ghost fv = files@.map_values(|x: String| x@);
    let mut i: usize = 0;
    while i < files.len()
        invariant
            i <= files.len(),
            fv == files@.map_values(|x: String| x@),
            first_path_named(fv, name@, i as int) is None,
        decreases files.len() - i,
    {
        let n = path_file_name(files[i].as_str());
        let hit = match &n {
            Some(x) => str_eq(x.as_str(), name),
            None => false,
        };
        if hit {
            assert(first_path_named(fv, name@, i + 1) == Some(i as int));
            proof {
                lemma_first_path_named_found(fv, name@, i + 1, fv.len() as int);
            }
            return Some(files[i].clone());
        }
        i = i + 1;
    }
    None
}

} // verus!
