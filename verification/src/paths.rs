//! Relative paths as strings with `/` separators, and the order in which
//! `PathBuf`s sort: component by component, which for paths without empty or
//! `.` components is the character order with the separator below every
//! character.
use crate::text::chars_of;
use vstd::prelude::*;

verus! {

/// The sort key of one character of a path: the separator comes first.
pub open spec fn path_key(c: char) -> int {
    if c == '/' {
        -1
    } else {
        (c as u32) as int
    }
}

/// Lexicographic order on integer sequences, a proper prefix first.
pub open spec fn ints_lt(a: Seq<int>, b: Seq<int>) -> bool
    decreases a.len(),
{
    if a.len() == 0 {
        b.len() > 0
    } else if b.len() == 0 {
        false
    } else if a[0] < b[0] {
        true
    } else if a[0] == b[0] {
        ints_lt(a.drop_first(), b.drop_first())
    } else {
        false
    }
}

/// `a < b` as paths.
pub open spec fn path_lt(a: Seq<char>, b: Seq<char>) -> bool {
    ints_lt(a.map_values(|c: char| path_key(c)), b.map_values(|c: char| path_key(c)))
}

proof fn lemma_ints_irreflexive(a: Seq<int>)
    ensures
        !ints_lt(a, a),
    decreases a.len(),
{
    if a.len() > 0 {
        lemma_ints_irreflexive(a.drop_first());
    }
}

proof fn lemma_ints_transitive(a: Seq<int>, b: Seq<int>, c: Seq<int>)
    requires
        ints_lt(a, b),
        ints_lt(b, c),
    ensures
        ints_lt(a, c),
    decreases a.len(),
{
    if a.len() > 0 && b.len() > 0 && c.len() > 0 {
        if a[0] == b[0] && b[0] == c[0] {
            lemma_ints_transitive(a.drop_first(), b.drop_first(), c.drop_first());
        }
    }
}

proof fn lemma_ints_total(a: Seq<int>, b: Seq<int>)
    ensures
        a == b || ints_lt(a, b) || ints_lt(b, a),
    decreases a.len(),
{
    if a.len() > 0 && b.len() > 0 {
        if a[0] == b[0] {
            lemma_ints_total(a.drop_first(), b.drop_first());
            if a.drop_first() == b.drop_first() {
                assert(a =~= seq![a[0]] + a.drop_first());
                assert(b =~= seq![b[0]] + b.drop_first());
            }
        }
    } else if a.len() == 0 && b.len() == 0 {
        assert(a =~= b);
    }
}

pub proof fn lemma_path_irreflexive(a: Seq<char>)
    ensures
        !path_lt(a, a),
{
    lemma_ints_irreflexive(a.map_values(|c: char| path_key(c)));
}

pub proof fn lemma_path_transitive(a: Seq<char>, b: Seq<char>, c: Seq<char>)
    requires
        path_lt(a, b),
        path_lt(b, c),
    ensures
        path_lt(a, c),
{
    lemma_ints_transitive(
        a.map_values(|c: char| path_key(c)),
        b.map_values(|c: char| path_key(c)),
        c.map_values(|c: char| path_key(c)),
    );
}

pub proof fn lemma_path_total(a: Seq<char>, b: Seq<char>)
    ensures
        a == b || path_lt(a, b) || path_lt(b, a),
{
    let ka = a.map_values(|c: char| path_key(c));
    let kb = b.map_values(|c: char| path_key(c));
    lemma_ints_total(ka, kb);
    if ka == kb {
        assert(a.len() == ka.len() && b.len() == kb.len());
        assert forall|i: int| 0 <= i < a.len() implies a[i] == b[i] by {
            assert(ka[i] == kb[i]);
            assert(ka[i] == path_key(a[i]));
            assert(kb[i] == path_key(b[i]));
            assert(path_key(a[i]) == path_key(b[i]));
            if a[i] != '/' && b[i] != '/' {
                crate::text::lemma_char_code_injective(a[i], b[i]);
            }
        }
        assert(a =~= b);
    }
}

fn key_of(c: char) -> (k: i64)
    ensures
        k == path_key(c),
{
    if c == '/' {
        -1
    } else {
        (c as u32) as i64
    }
}

/// `a < b` as paths.
pub fn path_less(a: &str, b: &str) -> (r: bool)
    ensures
        r == path_lt(a@, b@),
{
    let x = chars_of(a);
    let y = chars_of(b);
    let ghost kx = x@.map_values(|c: char| path_key(c));
    let ghost ky = y@.map_values(|c: char| path_key(c));
    let mut i: usize = 0;
    proof {
        assert(kx.skip(0) == kx);
        assert(ky.skip(0) == ky);
    }
    while i < x.len() && i < y.len() && key_of(x[i]) == key_of(y[i])
        invariant
            i <= x.len(),
            i <= y.len(),
            kx == x@.map_values(|c: char| path_key(c)),
            ky == y@.map_values(|c: char| path_key(c)),
            ints_lt(kx, ky) == ints_lt(kx.skip(i as int), ky.skip(i as int)),
        decreases x.len() - i,
    {
        proof {
            assert(kx.skip(i as int).drop_first() == kx.skip(i + 1));
            assert(ky.skip(i as int).drop_first() == ky.skip(i + 1));
        }
        i += 1;
    }
    if i < x.len() && i < y.len() {
        proof {
            assert(kx.skip(i as int)[0] == path_key(x@[i as int]));
            assert(ky.skip(i as int)[0] == path_key(y@[i as int]));
        }
        key_of(x[i]) < key_of(y[i])
    } else {
        i < y.len()
    }
}

/// No element is above a later one.
pub open spec fn path_sorted(s: Seq<Seq<char>>) -> bool {
    forall|i: int, j: int| 0 <= i < j < s.len() ==> !path_lt(#[trigger] s[j], #[trigger] s[i])
}

/// The views of a sequence of strings.
pub open spec fn path_views(v: Seq<String>) -> Seq<Seq<char>> {
    v.map_values(|s: String| s@)
}

/// Inserts `x` into the sorted `v` after every element that is not above it.
fn insert_path(v: &mut Vec<String>, x: String)
    requires
        path_sorted(path_views(old(v)@)),
    ensures
        path_sorted(path_views(final(v)@)),
        path_views(final(v)@).to_multiset() == path_views(old(v)@).to_multiset().insert(x@),
{
    let mut i: usize = 0;
    while i < v.len() && !path_less(x.as_str(), v[i].as_str())
        invariant
            i <= v.len(),
            path_sorted(path_views(v@)),
            forall|j: int| 0 <= j < i ==> !path_lt(x@, #[trigger] path_views(v@)[j]),
        decreases v.len() - i,
    {
        i += 1;
    }
    let ghost old_views = path_views(v@);
    v.insert(i, x);
    proof {
        let nv = path_views(v@);
        assert(nv =~= old_views.insert(i as int, x@));
        vstd::seq_lib::to_multiset_insert(old_views, i as int, x@);
        assert forall|a: int, b: int| 0 <= a < b < nv.len() implies !path_lt(
            #[trigger] nv[b],
            #[trigger] nv[a],
        ) by {
            if b < i {
                assert(nv[a] == old_views[a] && nv[b] == old_views[b]);
            } else if b == i {
                assert(nv[a] == old_views[a]);
                lemma_path_total(x@, old_views[a]);
                if path_lt(x@, old_views[a]) {
                    assert(!path_lt(x@, old_views[a]));
                }
            } else if a == i {
                // x < old[i] <= old[b-1]
                assert(nv[b] == old_views[b - 1]);
                assert(path_lt(x@, old_views[i as int]));
                if path_lt(old_views[b - 1], x@) {
                    lemma_path_transitive(old_views[b - 1], x@, old_views[i as int]);
                    if b - 1 > i {
                        assert(!path_lt(old_views[b - 1], old_views[i as int]));
                    } else {
                        lemma_path_irreflexive(old_views[i as int]);
                    }
                }
            } else if a < i {
                assert(nv[a] == old_views[a] && nv[b] == old_views[b - 1]);
            } else {
                assert(nv[a] == old_views[a - 1] && nv[b] == old_views[b - 1]);
            }
        }
    }
}

/// `v` sorted as paths (equal paths keep their number).
pub fn sort_paths(v: Vec<String>) -> (out: Vec<String>)
    ensures
        path_sorted(path_views(out@)),
        path_views(out@).to_multiset() == path_views(v@).to_multiset(),
{
    let mut out: Vec<String> = Vec::new();
    let mut i: usize = 0;
    proof {
        assert(path_views(v@).take(0) =~= Seq::<Seq<char>>::empty());
        assert(path_views(out@) =~= Seq::<Seq<char>>::empty());
    }
    while i < v.len()
        invariant
            i <= v.len(),
            path_sorted(path_views(out@)),
            path_views(out@).to_multiset() == path_views(v@).take(i as int).to_multiset(),
        decreases v.len() - i,
    {
        insert_path(&mut out, v[i].clone());
        proof {
            assert(path_views(v@).take(i + 1) == path_views(v@).take(i as int).push(
                v@[i as int]@,
            ));
            path_views(v@).take(i as int).to_multiset_ensures();
        }
        i += 1;
    }
    proof {
        assert(path_views(v@).take(v@.len() as int) == path_views(v@));
    }
    out
}

} // verus!
