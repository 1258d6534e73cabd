//! Membership of a text in a list of texts.
use vstd::prelude::*;

verus! {

/// The text `s` is one of the entries of `v`.
pub open spec fn contains_text(v: Seq<String>, s: Seq<char>) -> bool {
    exists|i: int| 0 <= i < v.len() && #[trigger] v[i]@ == s
}

/// Whether `s` is an entry of `v`.
pub fn list_contains(v: &[String], s: &String) -> (r: bool)
    ensures
        r == contains_text(v@, s@),
{
    let mut i: usize = 0;
    while i < v.len()
        invariant
            i <= v.len(),
            forall|j: int| 0 <= j < i ==> v@[j]@ != s@,
        decreases v.len() - i,
    {
        if v[i] == *s {
            return true;
        }
        i = i + 1;
    }
    false
}

/// A copy of the entries of `v`, in order.
pub fn copy_list(v: &[String]) -> (r: Vec<String>)
    ensures
        r@ == v@,
{
    let mut r: Vec<String> = Vec::new();
    let mut i: usize = 0;
    while i < v.len()
        invariant
            i <= v.len(),
            r@ == v@.subrange(0, i as int),
        decreases v.len() - i,
    {
        let item = v[i].clone();
        r.push(item);
        assert(r@ =~= v@.subrange(0, i + 1));
        i = i + 1;
    }
    assert(v@.subrange(0, v@.len() as int) =~= v@);
    r
}

/// Whether some entry of `items` is also an entry of `v`; stops at the first
/// such entry.
pub fn any_listed(v: &[String], items: &[String]) -> (r: bool)
    ensures
        r == exists|k: int| 0 <= k < items@.len() && contains_text(v@, #[trigger] items@[k]@),
{
    let mut k: usize = 0;
    while k < items.len()
        invariant
            k <= items.len(),
            forall|j: int| 0 <= j < k ==> !contains_text(v@, #[trigger] items@[j]@),
        decreases items.len() - k,
    {
        if list_contains(v, &items[k]) {
            return true;
        }
        k = k + 1;
    }
    false
}

/// A copy of `v` without the entries equal to `token`.
pub fn without_text(v: &[String], token: &String) -> (r: Vec<String>)
    ensures
        forall|s: Seq<char>| contains_text(r@, s) <==> (contains_text(v@, s) && s != token@),
{
    let mut r: Vec<String> = Vec::new();
    let mut i: usize = 0;
    while i < v.len()
        invariant
            i <= v.len(),
            forall|s: Seq<char>|
                contains_text(r@, s) <==> (contains_text(v@.subrange(0, i as int), s) && s
                    != token@),
        decreases v.len() - i,
    {
        let ghost r0 = r@;
        let ghost v0 = v@.subrange(0, i as int);
        let ghost v1 = v@.subrange(0, i + 1);
        assert(v1 =~= v0.push(v@[i as int]));
        assert(forall|s: Seq<char>|
            #[trigger] contains_text(r0, s) <==> (contains_text(v0, s) && s != token@));
        if !(v[i] == *token) {
            let item = v[i].clone();
            r.push(item);
            assert(r@ =~= r0.push(v@[i as int]));
        }
        proof {
            assert forall|s: Seq<char>|
                contains_text(r@, s) <==> (contains_text(v1, s) && s != token@) by {
                if contains_text(v1, s) && s != token@ {
                    let j = choose|j: int| 0 <= j < v1.len() && #[trigger] v1[j]@ == s;
                    if j < v0.len() {
                        assert(v0[j]@ == s);
                        assert(contains_text(v0, s));
                        assert(contains_text(r0, s));
                        let k = choose|k: int| 0 <= k < r0.len() && #[trigger] r0[k]@ == s;
                        assert(r@[k]@ == s);
                    } else {
                        assert(r@[r@.len() - 1]@ == s);
                    }
                }
                if contains_text(r@, s) {
                    let k = choose|k: int| 0 <= k < r@.len() && #[trigger] r@[k]@ == s;
                    if k < r0.len() {
                        assert(r0[k]@ == s);
                        assert(contains_text(r0, s));
                        let j = choose|j: int| 0 <= j < v0.len() && #[trigger] v0[j]@ == s;
                        assert(v1[j]@ == s);
                    } else {
                        assert(v1[i as int]@ == s);
                    }
                }
            }
        }
        i = i + 1;
    }
    assert(v@.subrange(0, v@.len() as int) =~= v@);
    r
}

} // verus!
