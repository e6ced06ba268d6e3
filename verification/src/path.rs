//! Paths as texts with slashes.

use vstd::prelude::*;
use vstd::string::*;

verus! {

/// The path of `name` inside the directory `dir`.
pub open spec fn joined(dir: Seq<char>, name: Seq<char>) -> Seq<char> {
    dir + seq!['/'] + name
}

/// The path of `name` inside the directory `dir`.
pub fn join(dir: &str, name: &str) -> (path: String)
    ensures
        path@ == joined(dir@, name@),
{
    proof {
        reveal_strlit("/");
        assert("/"@ =~= seq!['/']);
    }
    let mut path = String::from_str(dir);
    path.append("/");
    path.append(name);
    path
}

/// Where two texts are cut at a separator that neither front part holds,
/// equal texts have equal front parts and equal rests.
pub proof fn lemma_cut_at_separator(
    front_a: Seq<char>,
    rest_a: Seq<char>,
    front_b: Seq<char>,
    rest_b: Seq<char>,
    separator: char,
)
    requires
        !front_a.contains(separator),
        !front_b.contains(separator),
        front_a + seq![separator] + rest_a == front_b + seq![separator] + rest_b,
    ensures
        front_a == front_b,
        rest_a == rest_b,
{
    let left = front_a + seq![separator] + rest_a;
    let right = front_b + seq![separator] + rest_b;
    let la = front_a.len() as int;
    let lb = front_b.len() as int;
    if la < lb {
        assert(left[la] == separator);
        assert(right[la] == front_b[la]);
        assert(front_b.contains(separator));
    } else if lb < la {
        assert(right[lb] == separator);
        assert(left[lb] == front_a[lb]);
        assert(front_a.contains(separator));
    }
    assert(left.subrange(0, la) =~= front_a);
    assert(right.subrange(0, la) =~= front_b);
    assert(left.skip(la + 1) =~= rest_a);
    assert(right.skip(la + 1) =~= rest_b);
}

} // verus!
