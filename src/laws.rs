//! What holds of any run of round-robin selection.
use vstd::prelude::*;
use vstd::arithmetic::div_mod::{lemma_fundamental_div_mod, lemma_fundamental_div_mod_converse_mod};

use crate::selector::rotate_once;

verus! {

/// The list after `k` round-robin steps.
pub open spec fn rotate_n<T>(s: Seq<T>, k: nat) -> Seq<T>
    decreases k,
{
    if k == 0 {
        s
    } else {
        rotate_once(rotate_n(s, (k - 1) as nat))
    }
}

proof fn lemma_next_mod(k: int, n: int)
    requires
        k >= 0,
        n > 0,
    ensures
        k % n + 1 < n ==> (k + 1) % n == k % n + 1,
        k % n + 1 == n ==> (k + 1) % n == 0,
{
    let q = k / n;
    let m = k % n;
    lemma_fundamental_div_mod(k, n);
    assert(k == q * n + m) by (nonlinear_arith)
        requires
            k == n * q + m,
    ;
    if m + 1 < n {
        lemma_fundamental_div_mod_converse_mod(k + 1, n, q, m + 1);
    } else if m + 1 == n {
        assert(k + 1 == (q + 1) * n + 0) by (nonlinear_arith)
            requires
                k == q * n + m,
                m + 1 == n,
        ;
        lemma_fundamental_div_mod_converse_mod(k + 1, n, q + 1, 0);
    }
}

/// Round robin: after `k` steps over a non-empty list `s` of length `n`,
/// the list is `s` rotated left by `k mod n`, so the endpoint handed out
/// next is `s[k mod n]`. Which endpoint a connection gets thus depends only
/// on the initial order and on how many connections came before it.
pub proof fn lemma_round_robin<T>(s: Seq<T>, k: nat)
    requires
        s.len() > 0,
    ensures
        rotate_n(s, k) == s.subrange((k as int) % (s.len() as int), s.len() as int) + s.subrange(
            0,
            (k as int) % (s.len() as int),
        ),
        rotate_n(s, k).len() == s.len(),
        rotate_n(s, k)[0] == s[(k as int) % (s.len() as int)],
    decreases k,
{
    let n = s.len() as int;
    if k == 0 {
        assert(s.subrange(0, n) + s.subrange(0, 0) =~= s);
    } else {
        let j = (k - 1) as nat;
        lemma_round_robin(s, j);
        lemma_next_mod(j as int, n);
        let m = (j as int) % n;
        let t = rotate_n(s, j);
        assert(0 <= m < n);
        if m + 1 < n {
            assert(rotate_once(t) =~= s.subrange(m + 1, n) + s.subrange(0, m + 1));
        } else {
            assert(rotate_once(t) =~= s.subrange(0, n) + s.subrange(0, 0));
        }
    }
}

/// Every endpoint is handed out once per full cycle: `n` steps over a list
/// of length `n` give the list back unchanged.
pub proof fn lemma_full_cycle<T>(s: Seq<T>)
    requires
        s.len() > 0,
    ensures
        rotate_n(s, s.len()) == s,
        forall|i: int| 0 <= i < s.len() ==> #[trigger] rotate_n(s, i as nat)[0] == s[i],
{
    let n = s.len();
    lemma_round_robin(s, n);
    vstd::arithmetic::div_mod::lemma_mod_self_0(n as int);
    assert(s.subrange(0, n as int) + s.subrange(0, 0) =~= s);
    assert forall|i: int| 0 <= i < s.len() implies #[trigger] rotate_n(s, i as nat)[0] == s[i] by {
        lemma_round_robin(s, i as nat);
        vstd::arithmetic::div_mod::lemma_small_mod(i as nat, n);
    }
}

/// A single backend is handed out every time: rotating a one-element list
/// leaves it as it was.
pub proof fn lemma_single_backend<T>(s: Seq<T>, k: nat)
    requires
        s.len() == 1,
    ensures
        rotate_n(s, k) == s,
        rotate_n(s, k)[0] == s[0],
{
    lemma_round_robin(s, k);
    vstd::arithmetic::div_mod::lemma_small_mod(0, 1);
    assert(k % 1 == 0);
    assert(s.subrange(0, 1) + s.subrange(0, 0) =~= s);
}

} // verus!
