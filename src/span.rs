use vstd::prelude::*;

use vstd::arithmetic::div_mod::{
    lemma_div_is_ordered, lemma_fundamental_div_mod, lemma_fundamental_div_mod_converse,
};

verus! {

/// Nanoseconds in one second.
pub const NANOS_PER_SEC: u32 = 1_000_000_000;

/// Nanoseconds in one millisecond.
pub const NANOS_PER_MILLI: u32 = 1_000_000;

/// Milliseconds in one second.
pub const MILLIS_PER_SEC: u64 = 1_000;

/// The largest number of nanoseconds that a `Span` holds.
pub open spec fn max_span() -> nat {
    u64::MAX as nat * NANOS_PER_SEC as nat + (NANOS_PER_SEC - 1) as nat
}

/// `n` nanoseconds as a span holds them: the longest span where `n` is longer.
pub open spec fn saturate(n: nat) -> nat {
    if n <= max_span() {
        n
    } else {
        max_span()
    }
}

/// The span of `n` nanoseconds, or the longest span where `n` is longer.
pub closed spec fn span_of(n: nat) -> Span {
    let m = saturate(n);
    Span { secs: (m / NANOS_PER_SEC as nat) as u64, nanos: (m % NANOS_PER_SEC as nat) as u32 }
}

/// A length of time: whole seconds and the nanoseconds beyond them.
#[derive(Clone, Copy, Debug, PartialEq, Eq, Structural)]
pub struct Span {
    secs: u64,
    nanos: u32,
}

impl View for Span {
    type V = nat;

    /// The length in nanoseconds. A span never holds more than `max_span()`; the bound is
    /// written into the view so that specifications may rely on it for any span.
    closed spec fn view(&self) -> nat {
        saturate(self.secs as nat * NANOS_PER_SEC as nat + self.nanos as nat)
    }
}

impl Span {
    #[verifier::type_invariant]
    spec fn normalized(self) -> bool {
        self.nanos < NANOS_PER_SEC
    }

    /// The span built from a length holds that length, as far as a span can.
    pub broadcast proof fn lemma_span_of(n: nat)
        ensures
            #[trigger] span_of(n)@ == saturate(n),
    {
        let m = saturate(n);
        let q = m / NANOS_PER_SEC as nat;
        assert(q <= u64::MAX) by {
            lemma_div_is_ordered(m as int, max_span() as int, NANOS_PER_SEC as int);
            lemma_fundamental_div_mod_converse(
                max_span() as int,
                NANOS_PER_SEC as int,
                u64::MAX as int,
                (NANOS_PER_SEC - 1) as int,
            );
        }
        lemma_fundamental_div_mod(m as int, NANOS_PER_SEC as int);
        assert(NANOS_PER_SEC as int * q == q * NANOS_PER_SEC as nat) by (nonlinear_arith);
    }

    /// A span is never longer than `max_span()`.
    pub broadcast proof fn lemma_span_bounded(s: Span)
        ensures
            #[trigger] s@ <= max_span(),
    {
    }

    /// The empty span.
    pub fn zero() -> (r: Span)
        ensures
            r@ == 0,
            r == span_of(0),
    {
        Span { secs: 0, nanos: 0 }
    }

    /// `secs` seconds and `nanos` nanoseconds; nanoseconds past a second carry over.
    pub fn new(secs: u64, nanos: u32) -> (r: Span)
        requires
            secs + nanos / NANOS_PER_SEC <= u64::MAX,
        ensures
            r@ == secs * NANOS_PER_SEC + nanos,
    {
        let carry: u64 = (nanos / NANOS_PER_SEC) as u64;
        Span { secs: secs + carry, nanos: nanos % NANOS_PER_SEC }
    }

    /// `ms` milliseconds.
    pub fn from_millis(ms: u64) -> (r: Span)
        ensures
            r@ == ms * NANOS_PER_MILLI,
    {
        let secs: u64 = ms / MILLIS_PER_SEC;
        let rest: u64 = ms % MILLIS_PER_SEC;
        let nanos: u32 = (rest as u32) * NANOS_PER_MILLI;
        Span { secs, nanos }
    }

    /// `n` nanoseconds, or the longest span where `n` is longer.
    pub fn from_nanos_saturating(n: u128) -> (r: Span)
        ensures
            r@ == saturate(n as nat),
            r == span_of(n as nat),
    {
        proof {
            Span::lemma_span_of(n as nat);
            lemma_fundamental_div_mod_converse(
                max_span() as int,
                NANOS_PER_SEC as int,
                u64::MAX as int,
                (NANOS_PER_SEC - 1) as int,
            );
        }
        let secs: u128 = n / NANOS_PER_SEC as u128;
        if secs > u64::MAX as u128 {
            Span { secs: u64::MAX, nanos: NANOS_PER_SEC - 1 }
        } else {
            let nanos: u32 = (n % NANOS_PER_SEC as u128) as u32;
            Span { secs: secs as u64, nanos }
        }
    }

    /// The whole seconds.
    pub fn as_secs(&self) -> (r: u64)
        ensures
            r == self@ / NANOS_PER_SEC as nat,
    {
        proof {
            use_type_invariant(self);
        }
        self.secs
    }

    /// The nanoseconds beyond the whole seconds.
    pub fn subsec_nanos(&self) -> (r: u32)
        ensures
            r == self@ % NANOS_PER_SEC as nat,
            r < NANOS_PER_SEC,
    {
        proof {
            use_type_invariant(self);
        }
        self.nanos
    }

    /// The length in nanoseconds.
    pub fn as_nanos(&self) -> (r: u128)
        ensures
            r == self@,
            r <= max_span(),
    {
        proof {
            use_type_invariant(self);
            let s = self.secs as nat;
            assert(s * NANOS_PER_SEC as nat <= u64::MAX as nat * NANOS_PER_SEC as nat) by (nonlinear_arith)
                requires
                    s <= u64::MAX,
            ;
        }
        self.secs as u128 * NANOS_PER_SEC as u128 + self.nanos as u128
    }

    /// The length in whole milliseconds.
    pub fn as_millis(&self) -> (r: u128)
        ensures
            r == self@ / NANOS_PER_MILLI as nat,
            self@ <= max_span(),
    {
        self.as_nanos() / NANOS_PER_MILLI as u128
    }

    /// The sum of two spans, or the longest span where the sum is longer.
    pub fn saturating_add(self, other: Span) -> (r: Span)
        ensures
            r@ == saturate(self@ + other@),
            r == span_of(self@ + other@),
    {
        Span::from_nanos_saturating(self.as_nanos() + other.as_nanos())
    }
}

} // verus!
