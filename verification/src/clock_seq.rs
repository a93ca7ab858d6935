//! The clock sequence: a counter that keeps identifiers apart when the
//! clock is set backwards or two are made within one tick.

use vstd::prelude::*;

verus! {

/// Used to avoid duplicates that could arise when the clock is set backwards in time.
///
/// The counter is sixteen bits wide and wraps silently; the value handed
/// out is its low fourteen bits.
pub struct ClockSeq(u16);

impl View for ClockSeq {
    type V = u16;

    /// The counter as it stands, all sixteen bits.
    closed spec fn view(&self) -> u16 {
        self.0
    }
}

impl ClockSeq {
    /// The fourteen-bit value that a counter hands out.
    pub open spec fn spec_value(counter: u16) -> u16 {
        counter % 0x4000
    }

    /// The counter after one call: one more, wrapping at sixteen bits.
    pub open spec fn spec_step(counter: u16) -> u16 {
        if counter == 0xffff {
            0
        } else {
            (counter + 1) as u16
        }
    }

    /// The counter after `k` calls.
    pub open spec fn spec_after(counter: u16, k: nat) -> u16
        decreases k,
    {
        if k == 0 {
            counter
        } else {
            Self::spec_step(Self::spec_after(counter, (k - 1) as nat))
        }
    }

    /// The first value of a sequence seeded with `rand`: the seed, cut to
    /// fourteen bits.
    pub fn new(rand: u16) -> (r: u16)
        ensures
            r == Self::spec_value(rand),
    {
        let mut seq = ClockSeq::seeded(rand);
        seq.next()
    }

    /// A counter seeded with `rand`, cut to fourteen bits.
    pub fn seeded(rand: u16) -> (r: ClockSeq)
        ensures
            r@ == Self::spec_value(rand),
    {
        proof {
            assert(rand & 0x3fff == rand % 0x4000) by (bit_vector);
        }
        ClockSeq(rand & 0x3fff)
    }

    /// Hands out the current value and advances the counter by one.
    pub fn next(&mut self) -> (r: u16)
        ensures
            r == Self::spec_value(old(self)@),
            final(self)@ == Self::spec_step(old(self)@),
    {
        let current: u16 = self.0;
        proof {
            assert(current & 0x3fff == current % 0x4000) by (bit_vector);
        }
        self.0 = current.wrapping_add(1);
        current & 0x3fff
    }
}

/// The counter after `k` calls, in closed form.
proof fn lemma_after_closed_form(counter: u16, k: nat)
    ensures
        ClockSeq::spec_after(counter, k) == (counter + k) % 0x1_0000,
    decreases k,
{
    if k > 0 {
        lemma_after_closed_form(counter, (k - 1) as nat);
    }
}

/// Values handed out fewer than 2^14 calls apart differ: of the calls made
/// on one counter, the `i`-th and the `j`-th return different values
/// whenever `i < j < i + 0x4000`.
pub proof fn lemma_values_distinct(counter: u16, i: nat, j: nat)
    requires
        i < j < i + 0x4000,
    ensures
        ClockSeq::spec_value(ClockSeq::spec_after(counter, i)) != ClockSeq::spec_value(
            ClockSeq::spec_after(counter, j),
        ),
{
    lemma_after_closed_form(counter, i);
    lemma_after_closed_form(counter, j);
}

} // verus!
