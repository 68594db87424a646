//! Small operations on strings that recipes need.

use vstd::prelude::*;

verus! {

/// Where the last component of `path` starts: just behind its last `/`, or
/// at 0 where it has none.
pub open spec fn base_start(path: Seq<char>) -> int
    decreases path.len(),
{
    if path.len() == 0 {
        0
    } else if path.last() == '/' {
        path.len() as int
    } else {
        base_start(path.drop_last())
    }
}

/// The last component of `path`: what follows its last `/`, or all of it
/// where it has none.
pub open spec fn base_name_of(path: Seq<char>) -> Seq<char> {
    path.subrange(base_start(path), path.len() as int)
}

/// The last component of a path is its longest tail without a `/`: it
/// holds none, and it starts at the beginning of the path or just behind
/// a `/`.
pub proof fn law_base_name_is_longest_tail(path: Seq<char>)
    ensures
        0 <= base_start(path) <= path.len(),
        forall|i: int| base_start(path) <= i < path.len() ==> path[i] != '/',
        base_start(path) > 0 ==> path[base_start(path) - 1] == '/',
        !base_name_of(path).contains('/'),
    decreases path.len(),
{
    if path.len() > 0 && path.last() != '/' {
        let init = path.drop_last();
        law_base_name_is_longest_tail(init);
        assert forall|i: int| base_start(path) <= i < path.len() implies path[i] != '/' by {
            if i < init.len() {
                assert(init[i] == path[i]);
            }
        }
        if base_start(path) > 0 {
            assert(init[base_start(path) - 1] == path[base_start(path) - 1]);
        }
    }
}

/// Where a tail of `path` without `/` starts at 0 or just behind a `/`, it
/// starts at `base_start`.
pub proof fn lemma_base_start_unique(path: Seq<char>, k: int)
    requires
        0 <= k <= path.len(),
        forall|i: int| k <= i < path.len() ==> path[i] != '/',
        k > 0 ==> path[k - 1] == '/',
    ensures
        k == base_start(path),
    decreases path.len(),
{
    if path.len() > 0 && path.last() != '/' {
        let init = path.drop_last();
        assert forall|i: int| k <= i < init.len() implies init[i] != '/' by {
            assert(init[i] == path[i]);
        }
        if k > 0 {
            assert(init[k - 1] == path[k - 1]);
        }
        lemma_base_start_unique(init, k);
    }
}

/// The last component of a path or URL.
pub fn base_name(path: &str) -> (name: String)
    ensures
        name@ == base_name_of(path@),
{
    let len = path.unicode_len();
    let mut k: usize = len;
    while k > 0 && path.get_char(k - 1) != '/'
        invariant
            k <= len,
            len == path@.len(),
            forall|i: int| k <= i < len ==> path@[i] != '/',
        decreases k,
    {
        k -= 1;
    }
    proof {
        lemma_base_start_unique(path@, k as int);
    }
    String::from_str(path.substring_char(k, len))
}

/// `text` where `cond` holds, and the empty string where it does not.
pub open spec fn only_if_of(cond: bool, text: Seq<char>) -> Seq<char> {
    if cond {
        text
    } else {
        Seq::empty()
    }
}

/// `text` where `cond` holds, and the empty string where it does not.
pub fn only_if<'a>(cond: bool, text: &'a str) -> (r: &'a str)
    ensures
        r@ == only_if_of(cond, text@),
{
    if cond {
        text
    } else {
        proof {
            reveal_strlit("");
        }
        assert(""@ =~= Seq::<char>::empty());
        ""
    }
}

/// The strings of `items` with `sep` between each two.
pub open spec fn join_of(items: Seq<Seq<char>>, sep: Seq<char>) -> Seq<char>
    decreases items.len(),
{
    if items.len() == 0 {
        Seq::empty()
    } else if items.len() == 1 {
        items[0]
    } else {
        join_of(items.drop_last(), sep) + sep + items.last()
    }
}

/// The views of the strings of `items`.
pub open spec fn strs_view(items: Seq<&str>) -> Seq<Seq<char>> {
    items.map_values(|s: &str| s@)
}

/// Joins `items` into one string, with `sep` between each two.
pub fn join(items: &Vec<&str>, sep: &str) -> (r: String)
    ensures
        r@ == join_of(strs_view(items@), sep@),
{
    let mut out = String::new();
    let mut i: usize = 0;
    while i < items.len()
        invariant
            i <= items.len(),
            out@ == join_of(strs_view(items@).take(i as int), sep@),
        decreases items.len() - i,
    {
        let ghost done = strs_view(items@).take(i as int);
        let ghost next = strs_view(items@).take(i + 1);
        assert(next.drop_last() =~= done);
        assert(next.last() == items@[i as int]@);
        if i > 0 {
            out.append(sep);
        } else {
            assert(out@ + items@[i as int]@ =~= items@[i as int]@);
        }
        out.append(items[i]);
        i += 1;
    }
    assert(strs_view(items@).take(i as int) =~= strs_view(items@));
    out
}

} // verus!
