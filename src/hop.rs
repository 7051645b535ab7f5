use vstd::prelude::*;
use vstd::arithmetic::div_mod::{
    lemma_fundamental_div_mod, lemma_fundamental_div_mod_converse, lemma_mod_bound,
};

verus! {

/// Whether a push made at `cursor` completes a hop of `hop` samples.
pub open spec fn hop_completes(cursor: nat, hop: nat) -> bool {
    cursor + 1 >= hop
}

/// The cursor after one push made at `cursor`.
pub open spec fn next_cursor(cursor: nat, hop: nat) -> nat {
    if hop_completes(cursor, hop) { 0 } else { (cursor + 1) as nat }
}

/// The cursor after `n` pushes starting from `cursor`.
pub open spec fn cursor_after(cursor: nat, hop: nat, n: nat) -> nat
    decreases n,
{
    if n == 0 {
        cursor
    } else {
        next_cursor(cursor_after(cursor, hop, (n - 1) as nat), hop)
    }
}

/// How many of `n` pushes starting from `cursor` complete a hop.
pub open spec fn hops_completed(cursor: nat, hop: nat, n: nat) -> nat
    decreases n,
{
    if n == 0 {
        0
    } else {
        let before = cursor_after(cursor, hop, (n - 1) as nat);
        hops_completed(cursor, hop, (n - 1) as nat) + if hop_completes(before, hop) {
            1nat
        } else {
            0nat
        }
    }
}

/// Hops come round with a fixed period: from a cursor inside the hop, `n`
/// pushes complete one hop per `hop` samples consumed, with no drift, and leave
/// the cursor at the remainder. In particular, from an empty hop exactly
/// `hop` pushes signal readiness once, on the last of them, and return the
/// cursor to 0.
pub proof fn lemma_hop_periodic(cursor: nat, hop: nat, n: nat)
    requires
        cursor < hop,
    ensures
        cursor_after(cursor, hop, n) == (cursor + n) as int % (hop as int),
        hops_completed(cursor, hop, n) == (cursor + n) as int / (hop as int),
    decreases n,
{
    if n == 0 {
        lemma_fundamental_div_mod_converse(cursor as int, hop as int, 0, cursor as int);
    } else {
        let m = (n - 1) as nat;
        lemma_hop_periodic(cursor, hop, m);
        let k: int = (cursor + m) as int;
        let q: int = k / (hop as int);
        let r: int = k % (hop as int);
        lemma_fundamental_div_mod(k, hop as int);
        lemma_mod_bound(k, hop as int);
        assert(k == q * hop + r) by (nonlinear_arith)
            requires
                k == hop * q + r,
        ;
        if r + 1 >= hop {
            assert(k + 1 == (q + 1) * hop + 0) by (nonlinear_arith)
                requires
                    k == q * hop + r,
                    r + 1 == hop,
            ;
            lemma_fundamental_div_mod_converse(k + 1, hop as int, q + 1, 0);
        } else {
            lemma_fundamental_div_mod_converse(k + 1, hop as int, q, r + 1);
        }
    }
}

/// Collects samples into an analysis window, one hop at a time.
///
/// Each push writes at the cursor and advances it; when the cursor reaches
/// the hop size the window is ready for analysis and the cursor starts over.
/// Slots of the window past the hop size keep the value they were created
/// with.
pub struct HopAccumulator<T> {
    samples: Vec<T>,
    cursor: usize,
    hop_size: usize,
}

impl<T> HopAccumulator<T> {
    /// The hop fits in the window and the cursor lies inside the hop.
    pub closed spec fn well_formed(&self) -> bool {
        0 < self.hop_size <= self.samples.len() && self.cursor < self.hop_size
    }

    /// The samples of the analysis window.
    pub closed spec fn window(&self) -> Seq<T> {
        self.samples@
    }

    /// How many samples of the current hop have been pushed.
    pub closed spec fn cursor(&self) -> nat {
        self.cursor as nat
    }

    /// The number of samples between two analyses.
    pub closed spec fn hop_size(&self) -> nat {
        self.hop_size as nat
    }

}

impl<T: Copy> HopAccumulator<T> {
    /// An accumulator whose window holds `window_size` copies of `fill`, with
    /// an empty hop.
    pub fn new(window_size: usize, hop_size: usize, fill: T) -> (r: Self)
        requires
            0 < hop_size <= window_size,
        ensures
            r.well_formed(),
            r.window() == Seq::new(window_size as nat, |_i: int| fill),
            r.cursor() == 0,
            r.hop_size() == hop_size,
    {
        let mut samples: Vec<T> = Vec::new();
        while samples.len() < window_size
            invariant
                samples.len() <= window_size,
                forall|i: int| 0 <= i < samples.len() ==> samples@[i] == fill,
            decreases window_size - samples.len(),
        {
            samples.push(fill);
        }
        assert(samples@ =~= Seq::new(window_size as nat, |_i: int| fill));
        HopAccumulator { samples, cursor: 0, hop_size }
    }

    /// Stores `sample` at the cursor and advances it. Returns whether this
    /// push completed a hop, in which case the cursor starts over at 0.
    pub fn push(&mut self, sample: T) -> (ready: bool)
        requires
            old(self).well_formed(),
        ensures
            final(self).well_formed(),
            ready == hop_completes(old(self).cursor(), old(self).hop_size()),
            final(self).cursor() == next_cursor(old(self).cursor(), old(self).hop_size()),
            final(self).hop_size() == old(self).hop_size(),
            final(self).window() == old(self).window().update(old(self).cursor() as int, sample),
    {
        let i = self.cursor;
        self.samples.set(i, sample);
        if i + 1 >= self.hop_size {
            self.cursor = 0;
            true
        } else {
            self.cursor = i + 1;
            false
        }
    }

    /// Starts the current hop over, keeping the window's contents.
    pub fn reset(&mut self)
        requires
            old(self).well_formed(),
        ensures
            final(self).well_formed(),
            final(self).cursor() == 0,
            final(self).hop_size() == old(self).hop_size(),
            final(self).window() == old(self).window(),
    {
        self.cursor = 0;
    }

    /// The analysis window.
    pub fn window_samples(&self) -> (r: &Vec<T>)
        ensures
            r@ == self.window(),
    {
        &self.samples
    }

    /// How many samples of the current hop have been pushed.
    pub fn pending(&self) -> (r: usize)
        requires
            self.well_formed(),
        ensures
            r == self.cursor(),
            r < self.hop_size(),
    {
        self.cursor
    }
}

} // verus!
