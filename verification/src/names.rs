//! Name lists and substring search.
//!
//! The branch, worktree and session registries are lists of names. This
//! module gives the specification-level operations those registries follow
//! (membership, removal of a name, filtering by a substring) and the
//! verified executable counterparts.

use vstd::prelude::*;

verus! {

/// `pat` occurs somewhere inside `line`.
pub open spec fn contains_seq(line: Seq<char>, pat: Seq<char>) -> bool {
    exists|k: int|
        0 <= k && k + pat.len() <= line.len() && #[trigger] line.subrange(k, k + pat.len() as int)
            == pat
}

/// `s` with every occurrence of `name` removed; the order of the other
/// entries is kept.
pub open spec fn names_without(s: Seq<Seq<char>>, name: Seq<char>) -> Seq<Seq<char>>
    decreases s.len(),
{
    if s.len() == 0 {
        s
    } else {
        let rest = names_without(s.drop_last(), name);
        if s.last() == name {
            rest
        } else {
            rest.push(s.last())
        }
    }
}

/// The entries of `s` that contain `pat`, in their original order.
pub open spec fn lines_with(s: Seq<Seq<char>>, pat: Seq<char>) -> Seq<Seq<char>>
    decreases s.len(),
{
    if s.len() == 0 {
        s
    } else {
        let rest = lines_with(s.drop_last(), pat);
        if contains_seq(s.last(), pat) {
            rest.push(s.last())
        } else {
            rest
        }
    }
}

/// Membership in a pushed list: the pushed entry, or an entry that was
/// already there.
pub proof fn lemma_push_contains(s: Seq<Seq<char>>, a: Seq<char>, x: Seq<char>)
    ensures
        s.push(a).contains(x) <==> (s.contains(x) || a == x),
{
    if s.push(a).contains(x) {
        let i = choose|i: int| 0 <= i < s.push(a).len() && s.push(a)[i] == x;
        if i < s.len() {
            assert(s[i] == x);
        }
    }
    if s.contains(x) {
        let i = choose|i: int| 0 <= i < s.len() && s[i] == x;
        assert(s.push(a)[i] == x);
    }
    if a == x {
        assert(s.push(a)[s.len() as int] == x);
    }
}

/// Removing a name removes it: it is no longer a member.
pub proof fn lemma_names_without_not_contains(s: Seq<Seq<char>>, name: Seq<char>)
    ensures
        !names_without(s, name).contains(name),
    decreases s.len(),
{
    if s.len() > 0 {
        lemma_names_without_not_contains(s.drop_last(), name);
        if s.last() != name {
            lemma_push_contains(names_without(s.drop_last(), name), s.last(), name);
        }
    }
}

/// Removing a name that is not there changes nothing.
pub proof fn lemma_names_without_absent(s: Seq<Seq<char>>, name: Seq<char>)
    requires
        !s.contains(name),
    ensures
        names_without(s, name) == s,
    decreases s.len(),
{
    if s.len() > 0 {
        assert(!s.drop_last().contains(name)) by {
            if s.drop_last().contains(name) {
                let i = choose|i: int| 0 <= i < s.drop_last().len() && s.drop_last()[i] == name;
                assert(s[i] == name);
            }
        }
        lemma_names_without_absent(s.drop_last(), name);
        assert(s[s.len() - 1] == s.last());
        assert(s.last() != name);
        assert(names_without(s, name) =~= s);
    }
}

/// Removing a name twice is the same as removing it once.
pub proof fn lemma_names_without_idempotent(s: Seq<Seq<char>>, name: Seq<char>)
    ensures
        names_without(names_without(s, name), name) == names_without(s, name),
{
    lemma_names_without_not_contains(s, name);
    lemma_names_without_absent(names_without(s, name), name);
}

/// The filtered listing holds exactly the entries that contain the pattern.
pub proof fn lemma_lines_with_elements(s: Seq<Seq<char>>, pat: Seq<char>)
    ensures
        forall|x: Seq<char>|
            lines_with(s, pat).contains(x) <==> (s.contains(x) && contains_seq(x, pat)),
    decreases s.len(),
{
    if s.len() > 0 {
        lemma_lines_with_elements(s.drop_last(), pat);
        assert forall|x: Seq<char>|
            lines_with(s, pat).contains(x) <==> (s.contains(x) && contains_seq(x, pat)) by {
            assert(s =~= s.drop_last().push(s.last()));
            lemma_push_contains(s.drop_last(), s.last(), x);
            if contains_seq(s.last(), pat) {
                lemma_push_contains(lines_with(s.drop_last(), pat), s.last(), x);
            }
        }
    }
}

fn matches_at(line: &str, pat: &str, k: usize) -> (b: bool)
    requires
        k + pat@.len() <= line@.len(),
        line@.len() <= usize::MAX,
    ensures
        b == (line@.subrange(k as int, k + pat@.len()) == pat@),
{
    let m = pat.unicode_len();
    let mut j: usize = 0;
    while j < m
        invariant
            m == pat@.len(),
            k + m <= line@.len(),
            line@.len() <= usize::MAX,
            0 <= j <= m,
            forall|t: int| 0 <= t < j ==> line@[k + t] == pat@[t],
        decreases m - j,
    {
        let c1 = line.get_char(k + j);
        let c2 = pat.get_char(j);
        if c1 != c2 {
            proof {
                let sub = line@.subrange(k as int, k + pat@.len());
                assert(sub[j as int] == line@[k + j]);
                assert(sub != pat@);
            }
            return false;
        }
        j += 1;
    }
    proof {
        assert(line@.subrange(k as int, k + pat@.len()) =~= pat@);
    }
    true
}

/// Substring search: does `line` contain `pat`?
pub fn contains_str(line: &str, pat: &str) -> (b: bool)
    ensures
        b == contains_seq(line@, pat@),
{
    let n = line.unicode_len();
    let m = pat.unicode_len();
    if m > n {
        proof {
            assert(!contains_seq(line@, pat@)) by {
                if contains_seq(line@, pat@) {
                    let k = choose|k: int|
                        0 <= k && k + pat@.len() <= line@.len() && #[trigger] line@.subrange(
                            k,
                            k + pat@.len() as int,
                        ) == pat@;
                }
            }
        }
        return false;
    }
    if m == 0 {
        proof {
            assert(line@.subrange(0, 0 + pat@.len() as int) =~= pat@);
        }
        return true;
    }
    let mut k: usize = 0;
    while k <= n - m
        invariant
            n == line@.len(),
            m == pat@.len(),
            1 <= m <= n,
            0 <= k <= n - m + 1,
            forall|t: int| 0 <= t < k ==> #[trigger] line@.subrange(t, t + pat@.len()) != pat@,
        decreases n - m + 1 - k,
    {
        if matches_at(line, pat, k) {
            return true;
        }
        k += 1;
    }
    proof {
        assert(!contains_seq(line@, pat@)) by {
            if contains_seq(line@, pat@) {
                let t = choose|t: int|
                    0 <= t && t + pat@.len() <= line@.len() && #[trigger] line@.subrange(
                        t,
                        t + pat@.len() as int,
                    ) == pat@;
                assert(line@.subrange(t, t + pat@.len()) != pat@);
            }
        }
    }
    false
}

/// Is `name` one of the entries of `names`?
pub fn contains_name(names: &Vec<String>, name: &str) -> (b: bool)
    ensures
        b == names.deep_view().contains(name@),
{
    let needle = name.to_owned();
    let mut i: usize = 0;
    while i < names.len()
        invariant
            needle@ == name@,
            0 <= i <= names.len(),
            forall|j: int| 0 <= j < i ==> names.deep_view()[j] != name@,
        decreases names.len() - i,
    {
        if names[i] == needle {
            proof {
                assert(names.deep_view()[i as int] == name@);
            }
            return true;
        }
        i += 1;
    }
    proof {
        assert(!names.deep_view().contains(name@)) by {
            if names.deep_view().contains(name@) {
                let j = choose|j: int|
                    0 <= j < names.deep_view().len() && names.deep_view()[j] == name@;
                assert(names.deep_view()[j] != name@);
            }
        }
    }
    false
}

/// Remove every entry equal to `name`; report whether any was there.
pub fn remove_name(names: &mut Vec<String>, name: &str) -> (removed: bool)
    ensures
        final(names).deep_view() == names_without(old(names).deep_view(), name@),
        removed == old(names).deep_view().contains(name@),
{
    let needle = name.to_owned();
    let mut kept: Vec<String> = Vec::new();
    let mut found = false;
    let mut i: usize = 0;
    while i < names.len()
        invariant
            names@ == old(names)@,
            needle@ == name@,
            0 <= i <= names.len(),
            kept.deep_view() == names_without(old(names).deep_view().subrange(0, i as int), name@),
            found == exists|j: int| 0 <= j < i && old(names).deep_view()[j] == name@,
        decreases names.len() - i,
    {
        let ghost dv = old(names).deep_view();
        let ghost prev_kept = kept.deep_view();
        proof {
            assert(dv.subrange(0, i + 1).drop_last() =~= dv.subrange(0, i as int));
            assert(dv.subrange(0, i + 1).last() == dv[i as int]);
        }
        let cur = names[i].clone();
        if cur == needle {
            found = true;
            proof {
                assert(dv[i as int] == name@);
            }
        } else {
            kept.push(cur);
            proof {
                assert(kept.deep_view() =~= prev_kept.push(dv[i as int]));
                assert(forall|j: int|
                    0 <= j < i + 1 && dv[j] == name@ <==> 0 <= j < i && dv[j] == name@);
            }
        }
        i += 1;
    }
    proof {
        let dv = old(names).deep_view();
        assert(dv.subrange(0, dv.len() as int) =~= dv);
        assert(found == dv.contains(name@));
    }
    *names = kept;
    found
}

/// Keep the entries of `lines` that contain `pat`, in order.
pub fn filter_lines(lines: &Vec<String>, pat: &str) -> (r: Vec<String>)
    ensures
        r.deep_view() == lines_with(lines.deep_view(), pat@),
{
    let mut r: Vec<String> = Vec::new();
    let mut i: usize = 0;
    while i < lines.len()
        invariant
            0 <= i <= lines.len(),
            r.deep_view() == lines_with(lines.deep_view().subrange(0, i as int), pat@),
        decreases lines.len() - i,
    {
        let ghost dv = lines.deep_view();
        let ghost prev = r.deep_view();
        proof {
            assert(dv.subrange(0, i + 1).drop_last() =~= dv.subrange(0, i as int));
            assert(dv.subrange(0, i + 1).last() == dv[i as int]);
        }
        let cur = lines[i].clone();
        if contains_str(cur.as_str(), pat) {
            r.push(cur);
            proof {
                assert(r.deep_view() =~= prev.push(dv[i as int]));
            }
        }
        i += 1;
    }
    proof {
        let dv = lines.deep_view();
        assert(dv.subrange(0, dv.len() as int) =~= dv);
    }
    r
}

/// Copy a list of names.
pub fn copy_names(names: &Vec<String>) -> (r: Vec<String>)
    ensures
        r.deep_view() == names.deep_view(),
{
    let mut r: Vec<String> = Vec::new();
    let mut i: usize = 0;
    while i < names.len()
        invariant
            0 <= i <= names.len(),
            r.deep_view() == names.deep_view().subrange(0, i as int),
        decreases names.len() - i,
    {
        let ghost prev = r.deep_view();
        let cur = names[i].clone();
        r.push(cur);
        proof {
            let dv = names.deep_view();
            assert(r.deep_view() =~= prev.push(dv[i as int]));
            assert(dv.subrange(0, i as int).push(dv[i as int]) =~= dv.subrange(0, i + 1));
        }
        i += 1;
    }
    proof {
        let dv = names.deep_view();
        assert(dv.subrange(0, dv.len() as int) =~= dv);
    }
    r
}

} // verus!
