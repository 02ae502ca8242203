//! How a checkbox moves through its allowed checked states.
//!
//! A checkbox holds one of a list of allowed states. A click advances it to
//! the state after the first occurrence of the current one, wrapping to the
//! start of the list; a state that is not allowed is replaced by the first
//! allowed state.
use vstd::prelude::*;

verus! {

/// `i` is the first index of `s` that holds `x`.
pub open spec fn is_first_position<T>(s: Seq<T>, x: T, i: int) -> bool {
    &&& 0 <= i < s.len()
    &&& s[i] == x
    &&& forall|j: int| 0 <= j < i ==> s[j] != x
}

/// The first index of `s` that holds `x`, or `-1` when `x` does not occur.
pub open spec fn first_position<T>(s: Seq<T>, x: T) -> int {
    if exists|i: int| is_first_position(s, x, i) {
        choose|i: int| is_first_position(s, x, i)
    } else {
        -1
    }
}

/// The state a checkbox in state `current` holds after this frame, given
/// its allowed states and whether it was clicked (`advance`).
pub open spec fn next_allowed<T>(current: T, allowed: Seq<T>, advance: bool) -> T {
    let p = first_position(allowed, current);
    if p < 0 {
        allowed[0]
    } else if advance {
        allowed[(p + 1) % (allowed.len() as int)]
    } else {
        current
    }
}

/// The state reached from `current` after `clicks` clicks.
pub open spec fn after_clicks<T>(current: T, allowed: Seq<T>, clicks: nat) -> T
    decreases clicks,
{
    if clicks == 0 {
        current
    } else {
        next_allowed(after_clicks(current, allowed, (clicks - 1) as nat), allowed, true)
    }
}

/// A first position is unique, so it is the one `first_position` picks.
pub proof fn lemma_first_position_is<T>(s: Seq<T>, x: T, i: int)
    requires
        is_first_position(s, x, i),
    ensures
        first_position(s, x) == i,
{
    let p = choose|p: int| is_first_position(s, x, p);
    assert(is_first_position(s, x, p));
    if p < i {
        assert(s[p] != x);
    } else if i < p {
        assert(s[i] != x);
    }
}

/// In a list without repeats, each state's first position is its index.
pub proof fn lemma_first_position_distinct<T>(s: Seq<T>, i: int)
    requires
        s.no_duplicates(),
        0 <= i < s.len(),
    ensures
        first_position(s, s[i]) == i,
{
    assert forall|j: int| 0 <= j < i implies s[j] != s[i] by {}
    lemma_first_position_is(s, s[i], i);
}

/// What a frame does to a checkbox's state, over its allowed states: a state
/// that is not allowed becomes the first allowed one; an allowed state is
/// kept without a click, and with one moves to the state after its first
/// occurrence, wrapping round.
pub proof fn lemma_next_allowed_moves<T>(current: T, allowed: Seq<T>, advance: bool)
    requires
        allowed.len() > 0,
    ensures
        allowed.contains(next_allowed(current, allowed, advance)),
        !allowed.contains(current) ==> next_allowed(current, allowed, advance) == allowed[0],
        allowed.contains(current) && !advance ==> next_allowed(current, allowed, advance)
            == current,
        allowed.contains(current) ==> 0 <= first_position(allowed, current) < allowed.len()
            && allowed[first_position(allowed, current)] == current && forall|j: int|
            0 <= j < first_position(allowed, current) ==> allowed[j] != current,
        allowed.contains(current) && advance ==> next_allowed(current, allowed, advance)
            == allowed[(first_position(allowed, current) + 1) % (allowed.len() as int)],
{
    lemma_next_allowed_is_allowed(current, allowed, advance);
    if allowed.contains(current) {
        let k = choose|k: int| 0 <= k < allowed.len() && allowed[k] == current;
        lemma_first_position_found(allowed, current, k);
    } else {
        if exists|i: int| is_first_position(allowed, current, i) {
            let i = choose|i: int| is_first_position(allowed, current, i);
            assert(allowed[i] == current);
        }
    }
    if allowed.contains(current) {
        let p = first_position(allowed, current);
        assert(is_first_position(allowed, current, p));
    }
}

/// Whenever `x` occurs in `s`, it has a first position no later than `k`.
proof fn lemma_first_position_found<T>(s: Seq<T>, x: T, k: int)
    requires
        0 <= k < s.len(),
        s[k] == x,
    ensures
        0 <= first_position(s, x) <= k,
        s[first_position(s, x)] == x,
    decreases k,
{
    if forall|j: int| 0 <= j < k ==> s[j] != x {
        lemma_first_position_is(s, x, k);
    } else {
        let j = choose|j: int| 0 <= j < k && s[j] == x;
        lemma_first_position_found(s, x, j);
    }
}

/// The state after a frame is always one of the allowed states.
pub proof fn lemma_next_allowed_is_allowed<T>(current: T, allowed: Seq<T>, advance: bool)
    requires
        allowed.len() > 0,
    ensures
        allowed.contains(next_allowed(current, allowed, advance)),
{
    let p = first_position(allowed, current);
    if p >= 0 {
        let q = choose|i: int| is_first_position(allowed, current, i);
        assert(is_first_position(allowed, current, q));
        if advance {
            let n = (p + 1) % (allowed.len() as int);
            assert(allowed[n] == next_allowed(current, allowed, advance));
        } else {
            assert(allowed[p] == current);
        }
    } else {
        assert(allowed[0] == next_allowed(current, allowed, advance));
    }
}

/// Clicking a checkbox whose allowed states are all different walks them in
/// list order: `clicks` clicks from the `i`-th state reach the state
/// `clicks` places further on, counted around the list.
pub proof fn lemma_clicks_cycle_in_order<T>(allowed: Seq<T>, i: int, clicks: nat)
    requires
        allowed.no_duplicates(),
        0 <= i < allowed.len(),
    ensures
        after_clicks(allowed[i], allowed, clicks) == allowed[(i + clicks) % (allowed.len() as int)],
    decreases clicks,
{
    let n = allowed.len() as int;
    if clicks == 0 {
        assert((i + 0) % n == i) by (nonlinear_arith)
            requires
                0 <= i < n,
        ;
    } else {
        let k = (clicks - 1) as nat;
        lemma_clicks_cycle_in_order(allowed, i, k);
        let m = (i + k) % n;
        assert(0 <= m < n) by (nonlinear_arith)
            requires
                n > 0,
                m == (i + k) % n,
        ;
        lemma_first_position_distinct(allowed, m);
        vstd::arithmetic::div_mod::lemma_add_mod_noop_right(1, i + k, n);
        assert((1 + (i + k)) == i + clicks);
    }
}

/// A full round of clicks brings a checkbox back to where it started.
pub proof fn lemma_full_round_restores<T>(allowed: Seq<T>, i: int)
    requires
        allowed.no_duplicates(),
        0 <= i < allowed.len(),
    ensures
        after_clicks(allowed[i], allowed, allowed.len()) == allowed[i],
{
    lemma_clicks_cycle_in_order(allowed, i, allowed.len());
    let n = allowed.len() as int;
    assert((i + n) % n == i) by (nonlinear_arith)
        requires
            0 <= i < n,
    ;
}

} // verus!
