use vstd::prelude::*;

verus! {

/// Holds of every identifier but `id`.
pub open spec fn other_than<A>(id: A) -> spec_fn(A) -> bool {
    |x: A| x != id
}

pub proof fn lemma_filter_all<A>(s: Seq<A>, p: spec_fn(A) -> bool)
    requires
        forall|j: int| 0 <= j < s.len() ==> p(#[trigger] s[j]),
    ensures
        s.filter(p) == s,
    decreases s.len(),
{
    reveal(Seq::filter);
    if s.len() > 0 {
        let d = s.drop_last();
        assert forall|j: int| 0 <= j < d.len() implies p(#[trigger] d[j]) by {
            assert(d[j] == s[j]);
        }
        lemma_filter_all(d, p);
        assert(d.push(s.last()) =~= s);
    }
}

pub proof fn lemma_filter_absent<A>(s: Seq<A>, id: A)
    requires
        !s.contains(id),
    ensures
        s.filter(other_than(id)) == s,
{
    assert forall|j: int| 0 <= j < s.len() implies other_than(id)(#[trigger] s[j]) by {
        if s[j] == id {
            assert(s.contains(id));
        }
    }
    lemma_filter_all(s, other_than(id));
}

pub proof fn lemma_remove_is_filter<A>(s: Seq<A>, p: spec_fn(A) -> bool, i: int)
    requires
        0 <= i < s.len(),
        !p(s[i]),
        forall|j: int| 0 <= j < s.len() && j != i ==> p(#[trigger] s[j]),
    ensures
        s.remove(i) == s.filter(p),
    decreases s.len(),
{
    reveal(Seq::filter);
    let d = s.drop_last();
    if i == s.len() - 1 {
        assert forall|j: int| 0 <= j < d.len() implies p(#[trigger] d[j]) by {
            assert(d[j] == s[j]);
        }
        lemma_filter_all(d, p);
        assert(s.remove(i) =~= d);
    } else {
        assert forall|j: int| 0 <= j < d.len() && j != i implies p(#[trigger] d[j]) by {
            assert(d[j] == s[j]);
        }
        lemma_remove_is_filter(d, p, i);
        assert(p(s[s.len() - 1]));
        assert(s.remove(i) =~= d.remove(i).push(s.last()));
    }
}

/// Removing the one occurrence of an identifier is filtering it out.
pub proof fn lemma_remove_id<A>(s: Seq<A>, i: int)
    requires
        0 <= i < s.len(),
        s.no_duplicates(),
    ensures
        s.remove(i) == s.filter(other_than(s[i])),
{
    assert forall|j: int| 0 <= j < s.len() && j != i implies other_than(s[i])(#[trigger] s[j]) by {
    }
    lemma_remove_is_filter(s, other_than(s[i]), i);
}

pub proof fn lemma_filter_no_dup<A>(s: Seq<A>, id: A)
    requires
        s.no_duplicates(),
    ensures
        s.filter(other_than(id)).no_duplicates(),
        forall|x: A| #[trigger] s.filter(other_than(id)).contains(x) <==> s.contains(x) && x != id,
    decreases s.len(),
{
    reveal(Seq::filter);
    if s.len() > 0 {
        let d = s.drop_last();
        let l = s.last();
        assert(d.no_duplicates());
        lemma_filter_no_dup(d, id);
        let f = d.filter(other_than(id));
        assert(d.push(l) =~= s);
        assert forall|x: A| #[trigger] s.contains(x) <==> d.contains(x) || x == l by {
            if s.contains(x) && x != l {
                let k = choose|k: int| 0 <= k < s.len() && s[k] == x;
                assert(d[k] == x);
            }
            if x == l {
                assert(s[s.len() - 1] == x);
            }
            if d.contains(x) {
                let k = choose|k: int| 0 <= k < d.len() && d[k] == x;
                assert(s[k] == x);
            }
        }
        assert(!d.contains(l)) by {
            if d.contains(l) {
                let k = choose|k: int| 0 <= k < d.len() && d[k] == l;
                assert(s[k] == s[s.len() - 1]);
            }
        }
        if l != id {
            assert(s.filter(other_than(id)) == f.push(l));
            assert forall|x: A| #[trigger] f.push(l).contains(x) <==> f.contains(x) || x == l by {
                if f.push(l).contains(x) && x != l {
                    let k = choose|k: int| 0 <= k < f.push(l).len() && f.push(l)[k] == x;
                    assert(f[k] == x);
                }
                if x == l {
                    assert(f.push(l)[f.len() as int] == x);
                }
                if f.contains(x) {
                    let k = choose|k: int| 0 <= k < f.len() && f[k] == x;
                    assert(f.push(l)[k] == x);
                }
            }
            assert forall|i: int, j: int| 0 <= i < f.push(l).len() && 0 <= j < f.push(l).len() && i != j
                implies f.push(l)[i] != f.push(l)[j] by {
                if i == f.len() {
                    assert(f.contains(f.push(l)[j]));
                } else if j == f.len() {
                    assert(f.contains(f.push(l)[i]));
                }
            }
        } else {
            assert(s.filter(other_than(id)) == f);
        }
    }
}

} // verus!
