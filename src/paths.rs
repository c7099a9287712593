//! File names and the storage layout.
use vstd::prelude::*;
use vstd::string::StrSliceExecFns;

use crate::text::{append, owned};

verus! {

pub open spec fn is_separator(c: char) -> bool {
    c == '/' || c == '\\'
}

/// A name that can stand as the last component of a path: not empty, and
/// free of path separators.
pub open spec fn valid_file_name(name: Seq<char>) -> bool {
    name.len() > 0 && forall|i: int| 0 <= i < name.len() ==> !is_separator(#[trigger] name[i])
}

/// `leaf` placed inside `dir`: a separator is added unless `dir` is empty or
/// already ends with one.
pub open spec fn join(dir: Seq<char>, leaf: Seq<char>) -> Seq<char> {
    if dir.len() == 0 {
        leaf
    } else if is_separator(dir.last()) {
        dir + leaf
    } else {
        dir + seq!['/'] + leaf
    }
}

/// The text after the last separator of `p` (all of `p` when it has none).
pub open spec fn last_component(p: Seq<char>) -> Seq<char>
    decreases p.len(),
{
    if p.len() == 0 {
        p
    } else if is_separator(p.last()) {
        Seq::empty()
    } else {
        last_component(p.drop_last()).push(p.last())
    }
}

/// The sub-directory of the app-data root that holds private files.
pub open spec fn private_dir(root: Seq<char>) -> Seq<char> {
    join(root, seq!['p', 'r', 'i', 'v', 'a', 't', 'e'])
}

pub fn is_separator_char(c: char) -> (r: bool)
    ensures
        r == is_separator(c),
{
    c == '/' || c == '\\'
}

/// Whether `name` is a usable file name.
pub fn is_valid_file_name(name: &str) -> (r: bool)
    ensures
        r == valid_file_name(name@),
{
    let n = name.unicode_len();
    if n == 0 {
        return false;
    }
    let mut i: usize = 0;
    while i < n
        invariant
            n == name@.len(),
            i <= n,
            forall|j: int| 0 <= j < i ==> !is_separator(#[trigger] name@[j]),
        decreases n - i,
    {
        if is_separator_char(name.get_char(i)) {
            return false;
        }
        i = i + 1;
    }
    true
}

/// `leaf` placed inside `dir`.
pub fn join_path(dir: &str, leaf: &str) -> (r: String)
    ensures
        r@ == join(dir@, leaf@),
{
    let n = dir.unicode_len();
    let mut r = owned(dir);
    if n > 0 && !is_separator_char(dir.get_char(n - 1)) {
        append(&mut r, "/");
        proof {
            reveal_strlit("/");
        }
    }
    append(&mut r, leaf);
    r
}

/// The text after the last separator of `p`.
pub fn final_component(p: &str) -> (r: String)
    ensures
        r@ == last_component(p@),
{
    let n = p.unicode_len();
    let mut i: usize = n;
    while i > 0
        invariant
            n == p@.len(),
            i <= n,
            forall|j: int| i <= j < n ==> !is_separator(#[trigger] p@[j]),
        ensures
            i == 0 || is_separator(p@[i - 1]),
        decreases i,
    {
        if is_separator_char(p.get_char(i - 1)) {
            break;
        }
        i = i - 1;
    }
    proof {
        lemma_last_component_suffix(p@, i as int);
    }
    owned(p.substring_char(i, n))
}

/// Where no separator follows position `i` (and `i` is `0` or follows one),
/// the last component is what follows `i`.
proof fn lemma_last_component_suffix(p: Seq<char>, i: int)
    requires
        0 <= i <= p.len(),
        forall|j: int| i <= j < p.len() ==> !is_separator(#[trigger] p[j]),
        i == 0 || is_separator(p[i - 1]),
    ensures
        last_component(p) == p.subrange(i, p.len() as int),
    decreases p.len(),
{
    if p.len() == i {
        if p.len() > 0 {
            assert(is_separator(p.last()));
        }
        assert(p.subrange(i, p.len() as int) =~= Seq::<char>::empty());
    } else {
        assert(!is_separator(p[p.len() - 1]));
        lemma_last_component_suffix(p.drop_last(), i);
        assert(p.drop_last().subrange(i, p.len() - 1).push(p.last()) =~= p.subrange(
            i,
            p.len() as int,
        ));
    }
}

} // verus!
