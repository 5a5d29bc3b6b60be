//! One cycle of a waveform, held as a table of samples.

use vstd::prelude::*;
use crate::fixed::ONE;

verus! {

/// The number of phase units in one turn: 2^32.
pub const TURN: u64 = 0x1_0000_0000;

/// A table can serve as a waveform if it is not empty and each of its samples
/// lies between minus one and one.
pub open spec fn valid_table(samples: Seq<i64>) -> bool {
    &&& samples.len() >= 1
    &&& forall|i: int| 0 <= i < samples.len() ==> -ONE <= #[trigger] samples[i] <= ONE
}

/// The place in a table of `len` samples that the phase `phase` falls on: the
/// table is spread evenly over one turn.
pub open spec fn table_index(len: int, phase: int) -> int {
    (phase * len) / (TURN as int)
}

/// The sample that a table gives at a phase.
pub open spec fn lookup(samples: Seq<i64>, phase: int) -> i64 {
    samples[table_index(samples.len() as int, phase)]
}

/// The place that a phase falls on lies inside the table.
pub proof fn lemma_table_index_in_range(len: int, phase: int)
    requires
        len >= 1,
        0 <= phase < TURN,
    ensures
        0 <= table_index(len, phase) < len,
        0 <= phase * len < TURN * len,
{
    assert(0 <= phase * len < TURN * len) by (nonlinear_arith)
        requires
            len >= 1,
            0 <= phase < TURN,
    ;
    let q = (phase * len) / (TURN as int);
    assert(q < len) by {
        vstd::arithmetic::div_mod::lemma_fundamental_div_mod(phase * len, TURN as int);
        if q >= len {
            assert((TURN as int) * q >= (TURN as int) * len) by (nonlinear_arith)
                requires
                    q >= len,
            ;
        }
    }
}

/// One cycle of a waveform. Its view is the sequence of its samples.
pub struct Wavetable {
    samples: Vec<i64>,
}

impl View for Wavetable {
    type V = Seq<i64>;

    closed spec fn view(&self) -> Seq<i64> {
        self.samples@
    }
}

impl Wavetable {
    /// The view is a valid table: this holds of every value of the type.
    #[verifier::type_invariant]
    pub open spec fn inv(self) -> bool {
        valid_table(self@)
    }

    /// Makes a waveform of `samples`, or refuses them: a table must hold at
    /// least one sample, and none beyond minus one or one.
    pub fn new(samples: Vec<i64>) -> (made: Option<Wavetable>)
        ensures
            made.is_some() <==> valid_table(samples@),
            made matches Some(table) ==> table@ == samples@,
    {
        if samples.len() == 0 {
            return None;
        }
        let mut i: usize = 0;
        while i < samples.len()
            invariant
                i <= samples.len(),
                forall|j: int| 0 <= j < i ==> -ONE <= #[trigger] samples@[j] <= ONE,
            decreases samples.len() - i,
        {
            if samples[i] < -ONE || samples[i] > ONE {
                return None;
            }
            i = i + 1;
        }
        Some(Wavetable { samples })
    }

    /// The number of samples in the table.
    pub fn len(&self) -> (n: usize)
        ensures
            n == self@.len(),
            n >= 1,
    {
        proof {
            use_type_invariant(self);
        }
        self.samples.len()
    }

    /// The sample at a phase.
    pub fn sample_at(&self, phase: u32) -> (sample: i64)
        ensures
            sample == lookup(self@, phase as int),
            -ONE <= sample <= ONE,
    {
        proof {
            use_type_invariant(self);
            lemma_table_index_in_range(self.samples@.len() as int, phase as int);
        }
        let len: u128 = self.samples.len() as u128;
        let at: u128 = ((phase as u128) * len) / (TURN as u128);
        self.samples[at as usize]
    }
}

} // verus!
