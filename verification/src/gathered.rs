//! What a tool gathers one click at a time: a click on something takes it,
//! and a second click on it drops it again.

use vstd::prelude::*;

verus! {

/// Values that can say whether they are the very same value.
pub trait Same: Sized + Copy {
    fn same(&self, other: &Self) -> (r: bool)
        ensures
            r == (*self == *other),
    ;
}

/// `i` is where `x` first stands in `s`.
pub open spec fn first_place<T>(s: Seq<T>, x: T, i: int) -> bool {
    &&& 0 <= i < s.len()
    &&& s[i] == x
    &&& forall|j: int| 0 <= j < i ==> s[j] != x
}

/// Where `x` first stands in `s`, when it stands there at all.
pub open spec fn place_of<T>(s: Seq<T>, x: T) -> Option<int> {
    if s.contains(x) {
        Some(choose|i: int| first_place(s, x, i))
    } else {
        None
    }
}

/// `s` with `x` taken out where it first stands, or added at the end when it
/// is not there.
pub open spec fn toggled<T>(s: Seq<T>, x: T) -> Seq<T> {
    match place_of(s, x) {
        Some(i) => s.remove(i),
        None => s.push(x),
    }
}

/// Nothing stands twice in `s`.
pub open spec fn distinct<T>(s: Seq<T>) -> bool {
    forall|i: int, j: int| 0 <= i < s.len() && 0 <= j < s.len() && i != j ==> s[i] != s[j]
}

proof fn lemma_first_place_unique<T>(s: Seq<T>, x: T, i: int)
    requires
        first_place(s, x, i),
    ensures
        s.contains(x),
        place_of(s, x) == Some(i),
{
    assert(s[i] == x);
    let k = choose|k: int| first_place(s, x, k);
    assert(first_place(s, x, k));
    if k < i {
        assert(s[k] == x);
    } else if k > i {
        assert(s[i] == x);
    }
}

proof fn lemma_first_at_or_before<T>(s: Seq<T>, x: T, w: int)
    requires
        0 <= w < s.len(),
        s[w] == x,
    ensures
        exists|i: int| first_place(s, x, i),
    decreases w,
{
    if exists|j: int| 0 <= j < w && s[j] == x {
        let j = choose|j: int| 0 <= j < w && s[j] == x;
        lemma_first_at_or_before(s, x, j);
    } else {
        assert(first_place(s, x, w));
    }
}

proof fn lemma_place_of_some<T>(s: Seq<T>, x: T)
    requires
        s.contains(x),
    ensures
        place_of(s, x) matches Some(i) && first_place(s, x, i),
{
    let w = choose|w: int| 0 <= w < s.len() && s[w] == x;
    lemma_first_at_or_before(s, x, w);
    let i = choose|i: int| first_place(s, x, i);
    lemma_first_place_unique(s, x, i);
}

/// Where `x` first stands in `taken`, when it stands there at all.
pub fn position<T: Same>(taken: &Vec<T>, x: T) -> (r: Option<usize>)
    ensures
        match r {
            Some(i) => place_of(taken@, x) == Some(i as int) && first_place(taken@, x, i as int),
            None => place_of(taken@, x) is None && !taken@.contains(x),
        },
{
    let mut i: usize = 0;
    while i < taken.len()
        invariant
            i <= taken.len(),
            forall|j: int| 0 <= j < i ==> taken@[j] != x,
        decreases taken.len() - i,
    {
        if taken[i].same(&x) {
            proof { lemma_first_place_unique(taken@, x, i as int); }
            return Some(i);
        }
        i += 1;
    }
    proof {
        if taken@.contains(x) {
            let w = choose|w: int| 0 <= w < taken@.len() && taken@[w] == x;
            assert(taken@[w] != x);
        }
    }
    None
}

/// Whether `x` is in `taken`.
pub fn holds<T: Same>(taken: &Vec<T>, x: T) -> (r: bool)
    ensures
        r == taken@.contains(x),
{
    let found = position(taken, x);
    proof {
        if taken@.contains(x) {
            lemma_place_of_some(taken@, x);
        }
    }
    found.is_some()
}

/// Takes `x`, or drops it when it was already taken.
///
/// Clicking twice is how a choice is changed one's mind about: there is no
/// second gesture for putting one back, and a list that only grows makes a
/// slip of the mouse cost the whole of it.
pub fn toggle<T: Same>(taken: &mut Vec<T>, x: T)
    ensures
        final(taken)@ == toggled(old(taken)@, x),
{
    match position(taken, x) {
        Some(i) => {
            taken.remove(i);
        },
        None => {
            taken.push(x);
        },
    }
}

/// Toggling keeps a list free of repeats, leaves every other value where it
/// was, and flips whether `x` is there.
pub proof fn lemma_toggle_flips<T>(s: Seq<T>, x: T)
    requires
        distinct(s),
    ensures
        distinct(toggled(s, x)),
        toggled(s, x).contains(x) == !s.contains(x),
        forall|y: T| y != x ==> (toggled(s, x).contains(y) == s.contains(y)),
{
    if s.contains(x) {
        lemma_place_of_some(s, x);
        let i = place_of(s, x)->0;
        let t = s.remove(i);
        assert(t == toggled(s, x));
        assert forall|a: int, b: int| 0 <= a < t.len() && 0 <= b < t.len() && a != b implies t[a]
            != t[b] by {
            let a2 = if a < i { a } else { a + 1 };
            let b2 = if b < i { b } else { b + 1 };
            assert(t[a] == s[a2]);
            assert(t[b] == s[b2]);
        }
        if t.contains(x) {
            let k = choose|k: int| 0 <= k < t.len() && t[k] == x;
            let k2 = if k < i { k } else { k + 1 };
            assert(s[k2] == x);
            assert(s[i] == x);
        }
        assert forall|y: T| y != x implies (t.contains(y) == s.contains(y)) by {
            if s.contains(y) {
                let k = choose|k: int| 0 <= k < s.len() && s[k] == y;
                assert(k != i);
                let k2 = if k < i { k } else { k - 1 };
                assert(t[k2] == y);
            }
            if t.contains(y) {
                let k = choose|k: int| 0 <= k < t.len() && t[k] == y;
                let k2 = if k < i { k } else { k + 1 };
                assert(s[k2] == y);
            }
        }
    } else {
        let t = s.push(x);
        assert(t == toggled(s, x));
        assert(t[s.len() as int] == x);
        assert forall|y: T| y != x implies (t.contains(y) == s.contains(y)) by {
            if s.contains(y) {
                let k = choose|k: int| 0 <= k < s.len() && s[k] == y;
                assert(t[k] == y);
            }
            if t.contains(y) {
                let k = choose|k: int| 0 <= k < t.len() && t[k] == y;
                assert(s[k] == y);
            }
        }
    }
}

/// What one click added, a second click on the same thing takes away.
pub proof fn lemma_toggle_twice<T>(s: Seq<T>, x: T)
    requires
        !s.contains(x),
    ensures
        toggled(toggled(s, x), x) == s,
{
    let t = s.push(x);
    assert(t[s.len() as int] == x);
    assert(first_place(t, x, s.len() as int));
    lemma_first_place_unique(t, x, s.len() as int);
    assert(t.remove(s.len() as int) =~= s);
}

/// `held`, followed by whatever of `caught` it does not hold yet, each once,
/// in the order caught.
pub open spec fn gathered_in<T>(held: Seq<T>, caught: Seq<T>) -> Seq<T>
    decreases caught.len(),
{
    if caught.len() == 0 {
        held
    } else {
        let before = gathered_in(held, caught.drop_last());
        if before.contains(caught.last()) {
            before
        } else {
            before.push(caught.last())
        }
    }
}

/// Adds to `held` whatever of `caught` it does not hold yet, in the order
/// caught.
pub fn add_missing<T: Same>(held: &mut Vec<T>, caught: &Vec<T>)
    ensures
        final(held)@ == gathered_in(old(held)@, caught@),
        forall|y: T| final(held)@.contains(y) == (old(held)@.contains(y) || caught@.contains(y)),
        final(held)@.len() >= old(held)@.len(),
        forall|i: int| 0 <= i < old(held)@.len() ==> final(held)@[i] == old(held)@[i],
        distinct(old(held)@) ==> distinct(final(held)@),
{
    let mut i: usize = 0;
    while i < caught.len()
        invariant
            i <= caught.len(),
            held@ == gathered_in(old(held)@, caught@.take(i as int)),
            forall|y: T|
                held@.contains(y) == (old(held)@.contains(y) || caught@.take(i as int).contains(
                    y,
                )),
            held@.len() >= old(held)@.len(),
            forall|k: int| 0 <= k < old(held)@.len() ==> held@[k] == old(held)@[k],
            distinct(old(held)@) ==> distinct(held@),
        decreases caught.len() - i,
    {
        let what = caught[i];
        let ghost before = held@;
        proof {
            assert(caught@.take(i + 1).drop_last() =~= caught@.take(i as int));
            assert(caught@.take(i + 1).last() == what);
        }
        if !holds(held, what) {
            held.push(what);
            proof {
                assert forall|y: T| held@.contains(y) == (before.contains(y) || y == what) by {
                    if before.contains(y) {
                        let k = choose|k: int| 0 <= k < before.len() && before[k] == y;
                        assert(held@[k] == y);
                    }
                    if held@.contains(y) && y != what {
                        let k = choose|k: int| 0 <= k < held@.len() && held@[k] == y;
                        assert(before[k] == y);
                    }
                    if y == what {
                        assert(held@[before.len() as int] == y);
                    }
                }
                if distinct(old(held)@) {
                    assert forall|a: int, b: int|
                        0 <= a < held@.len() && 0 <= b < held@.len() && a != b implies held@[a]
                        != held@[b] by {
                        if a == before.len() {
                            assert(!before.contains(held@[a]));
                            if held@[a] == held@[b] {
                                assert(before[b] == held@[a]);
                            }
                        } else if b == before.len() {
                            if held@[a] == held@[b] {
                                assert(before[a] == held@[b]);
                            }
                        }
                    }
                }
            }
        }
        proof {
            let later = caught@.take(i + 1);
            let sooner = caught@.take(i as int);
            assert forall|y: T| later.contains(y) == (sooner.contains(y) || y == what) by {
                if later.contains(y) {
                    let k = choose|k: int| 0 <= k < later.len() && later[k] == y;
                    if k < i {
                        assert(sooner[k] == y);
                    }
                }
                if sooner.contains(y) {
                    let k = choose|k: int| 0 <= k < sooner.len() && sooner[k] == y;
                    assert(later[k] == y);
                }
                if y == what {
                    assert(later[i as int] == y);
                }
            }
        }
        i += 1;
    }
    assert(caught@.take(caught.len() as int) =~= caught@);
}

} // verus!
