//! The period buffer: a fixed-length block of raw samples that the hardware
//! overwrites in place once per cycle.

use vstd::prelude::*;

verus! {

/// One period of raw 16-bit samples.
///
/// The length is fixed when the buffer is made and never changes: no
/// operation grows or shrinks it.  Its view is the sequence of samples.
pub struct PeriodBuffer {
    samples: Vec<i16>,
}

impl View for PeriodBuffer {
    type V = Seq<i16>;

    closed spec fn view(&self) -> Seq<i16> {
        self.samples@
    }
}

/// A period of the given length that holds only silence.
pub open spec fn silence(period_length: nat) -> Seq<i16> {
    Seq::new(period_length, |i: int| 0i16)
}

impl PeriodBuffer {
    /// A buffer of `period_length` samples, all silent.
    pub fn new(period_length: usize) -> (buffer: Self)
        ensures
            buffer@ == silence(period_length as nat),
    {
        let mut samples: Vec<i16> = Vec::new();
        let mut i: usize = 0;
        while i < period_length
            invariant
                i <= period_length,
                samples@ == silence(i as nat),
            decreases period_length - i,
        {
            samples.push(0i16);
            i = i + 1;
            assert(samples@ =~= silence(i as nat));
        }
        PeriodBuffer { samples }
    }

    /// The period length.
    pub fn len(&self) -> (n: usize)
        ensures
            n == self@.len(),
    {
        self.samples.len()
    }

    /// The sample last written at `index`.
    pub fn read(&self, index: usize) -> (value: i16)
        requires
            index < self@.len(),
        ensures
            value == self@[index as int],
    {
        self.samples[index]
    }

    /// The sample last written at `index`, or `None` past the end.
    pub fn get(&self, index: usize) -> (value: Option<i16>)
        ensures
            value == (if index < self@.len() {
                Some(self@[index as int])
            } else {
                None
            }),
    {
        if index < self.samples.len() {
            Some(self.samples[index])
        } else {
            None
        }
    }

    /// Overwrite the sample at `index` in place.
    pub fn write(&mut self, index: usize, value: i16)
        requires
            index < old(self)@.len(),
        ensures
            final(self)@ == old(self)@.update(index as int, value),
    {
        self.samples.set(index, value);
    }

    /// Overwrite the whole period in place with `period`.
    ///
    /// A block of another length is not a period of this buffer: it is
    /// refused and the buffer keeps what it held.
    pub fn fill(&mut self, period: &[i16]) -> (written: bool)
        ensures
            written == (period@.len() == old(self)@.len()),
            final(self)@ == (if written {
                period@
            } else {
                old(self)@
            }),
    {
        let n: usize = self.samples.len();
        if period.len() != n {
            return false;
        }
        let mut i: usize = 0;
        while i < n
            invariant
                i <= n,
                n == period@.len(),
                self.samples@.len() == n,
                forall|k: int| 0 <= k < i ==> self.samples@[k] == period@[k],
            decreases n - i,
        {
            self.samples.set(i, period[i]);
            i = i + 1;
        }
        assert(self.samples@ =~= period@);
        true
    }
}

} // verus!
