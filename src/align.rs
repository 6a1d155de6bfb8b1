//! Power-of-two alignments and rounding up to them.
use vstd::prelude::*;
use vstd::arithmetic::div_mod::{lemma_fundamental_div_mod, lemma_mod_multiples_basic};

verus! {

/// `n` is a power of two (1 counts: it imposes no constraint).
pub open spec fn is_pow2(n: nat) -> bool
    decreases n,
{
    if n <= 1 {
        n == 1
    } else {
        n % 2 == 0 && is_pow2(n / 2)
    }
}

/// The smallest multiple of `a` that is at least `x`.
pub open spec fn round_up(x: nat, a: nat) -> nat
    recommends
        a > 0,
{
    if x % a == 0 {
        x
    } else {
        (x + (a - x % a)) as nat
    }
}

/// The rounded value is a multiple of `a`, is not below `x`, and no smaller
/// multiple of `a` is at least `x`.
pub proof fn lemma_round_up(x: nat, a: nat, m: nat)
    requires
        a > 0,
    ensures
        round_up(x, a) % a == 0,
        x <= round_up(x, a) < x + a,
        m % a == 0 && m >= x ==> m >= round_up(x, a),
{
    lemma_fundamental_div_mod(x as int, a as int);
    lemma_fundamental_div_mod(m as int, a as int);
    let q = x / a;
    if x % a != 0 {
        let r = x % a;
        assert(x + (a - r) == a * (q + 1)) by (nonlinear_arith)
            requires
                x == a * q + r,
        ;
        assert(round_up(x, a) == a * (q + 1));
        lemma_mod_multiples_basic((q + 1) as int, a as int);
        assert(((q + 1) * a) == a * (q + 1)) by (nonlinear_arith);
        if m % a == 0 && m >= x {
            let k = m / a;
            assert(m >= a * (q + 1)) by (nonlinear_arith)
                requires
                    m == a * k,
                    x == a * q + x % a,
                    0 < x % a < a,
                    m >= x,
                    a > 0,
            ;
        }
    }
}

/// A byte alignment: a power of two.
#[derive(Clone, Copy, Debug, PartialEq, Eq)]
pub struct Align {
    value: usize,
}

impl Align {
    #[verifier::type_invariant]
    spec fn inv(self) -> bool {
        is_pow2(self.value as nat)
    }

    pub closed spec fn spec_value(self) -> nat {
        self.value as nat
    }

    /// Makes an alignment of `value` bytes; `None` unless it is a power of two.
    pub fn new(value: usize) -> (r: Option<Align>)
        ensures
            r is Some <==> is_pow2(value as nat),
            r matches Some(a) ==> a.spec_value() == value,
    {
        let mut n: usize = value;
        while n > 1 && n % 2 == 0
            invariant
                is_pow2(value as nat) == is_pow2(n as nat),
            decreases n,
        {
            n = n / 2;
        }
        if n == 1 {
            Some(Align { value })
        } else {
            None
        }
    }

    /// The alignment in bytes.
    pub fn value(&self) -> (r: usize)
        ensures
            r == self.spec_value(),
            is_pow2(r as nat),
            r > 0,
    {
        proof {
            use_type_invariant(self);
        }
        self.value
    }

    /// Rounds `x` up to a multiple of the alignment; `None` where that multiple
    /// does not fit in `usize`.
    pub fn align_up(&self, x: usize) -> (r: Option<usize>)
        ensures
            r == (if round_up(x as nat, self.spec_value()) <= usize::MAX {
                Some(round_up(x as nat, self.spec_value()) as usize)
            } else {
                None::<usize>
            }),
    {
        proof {
            use_type_invariant(self);
            lemma_round_up(x as nat, self.value as nat, 0);
        }
        let rem = x % self.value;
        if rem == 0 {
            Some(x)
        } else {
            x.checked_add(self.value - rem)
        }
    }
}

} // verus!
