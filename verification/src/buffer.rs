//! The bounded sample accumulator: a capacity-checked sequence with a
//! drop-oldest overflow policy. A burst of new samples always leaves the
//! buffer holding the most recent samples, oldest first, and the length
//! never exceeds the fixed capacity.

use vstd::prelude::*;
use crate::sample::SampleFormat;

verus! {

/// Contents after absorbing the burst `d` into a buffer holding `s` with
/// capacity `cap`: the last `min(s.len() + d.len(), cap)` of `s + d`,
/// oldest first.
pub open spec fn spec_extended<T>(s: Seq<T>, d: Seq<T>, cap: nat) -> Seq<T> {
    let all = s + d;
    if all.len() <= cap {
        all
    } else {
        all.skip(all.len() - cap)
    }
}

/// A bounded accumulator of samples of one fixed representation. Owns its
/// storage; the capacity is fixed at construction and never exceeded.
pub struct ExtensibleBuffer<T> {
    data: Vec<T>,
    len: usize,
    max_len: usize,
    sample_format: SampleFormat,
}

impl<T> View for ExtensibleBuffer<T> {
    type V = Seq<T>;

    closed spec fn view(&self) -> Seq<T> {
        self.data@
    }
}

impl<T: Copy> ExtensibleBuffer<T> {
    /// The buffer's fixed capacity, in samples.
    pub closed spec fn spec_max_len(&self) -> nat {
        self.max_len as nat
    }

    /// The representation tag the buffer was declared with.
    pub closed spec fn spec_format(&self) -> SampleFormat {
        self.sample_format
    }

    /// The buffer's internal consistency: the tracked length matches the
    /// storage and stays within the fixed capacity.
    pub closed spec fn well_formed(&self) -> bool {
        &&& self.len == self.data@.len()
        &&& self.len <= self.max_len
        &&& self.max_len >= 1
    }

    /// The capacity bound on the contents, visible to callers that hold a
    /// well-formed buffer.
    pub proof fn lemma_well_formed(&self)
        requires
            self.well_formed(),
        ensures
            self@.len() <= self.spec_max_len(),
            1 <= self.spec_max_len() <= usize::MAX,
    {
    }

    /// Creates an empty buffer with the given capacity and representation.
    pub fn new(max_len: usize, sample_format: SampleFormat) -> (b: Self)
        requires
            max_len >= 1,
        ensures
            b.well_formed(),
            b@ == Seq::<T>::empty(),
            b.spec_max_len() == max_len,
            b.spec_format() == sample_format,
    {
        let b = ExtensibleBuffer { data: Vec::new(), len: 0, max_len, sample_format };
        proof {
            assert(b@ =~= Seq::<T>::empty());
        }
        b
    }

    /// Creates a buffer seeded with the first captured samples.
    pub fn from_samples(data: Vec<T>, max_len: usize, sample_format: SampleFormat) -> (b: Self)
        requires
            max_len >= 1,
            data@.len() <= max_len,
        ensures
            b.well_formed(),
            b@ == data@,
            b.spec_max_len() == max_len,
            b.spec_format() == sample_format,
    {
        let len = data.len();
        ExtensibleBuffer { data, len, max_len, sample_format }
    }

    /// Number of samples currently held.
    pub fn len(&self) -> (n: usize)
        requires
            self.well_formed(),
        ensures
            n == self@.len(),
    {
        self.len
    }

    /// Whether the buffer holds no samples.
    pub fn is_empty(&self) -> (r: bool)
        requires
            self.well_formed(),
        ensures
            r == (self@.len() == 0),
    {
        self.len == 0
    }

    /// The fixed capacity.
    pub fn max_len(&self) -> (n: usize)
        ensures
            n == self.spec_max_len(),
    {
        self.max_len
    }

    /// The representation tag.
    pub fn sample_format(&self) -> (f: SampleFormat)
        ensures
            f == self.spec_format(),
    {
        self.sample_format
    }

    /// How many more samples fit before the buffer is full.
    pub fn len_unused_buffer(&self) -> (n: usize)
        requires
            self.well_formed(),
        ensures
            n == self.spec_max_len() - self@.len(),
    {
        self.max_len - self.len
    }

    /// Whether any free capacity remains.
    pub fn has_unused_buffer(&self) -> (r: bool)
        requires
            self.well_formed(),
        ensures
            r == (self@.len() < self.spec_max_len()),
    {
        self.max_len - self.len > 0
    }

    /// Absorbs a burst of `data_len` new samples, discarding exactly as many
    /// of the oldest stored samples as needed to stay within capacity. An
    /// empty burst changes nothing. A single burst larger than the whole
    /// capacity is a caller logic error and is excluded up front.
    pub fn extend(&mut self, data: &[T], data_len: usize)
        requires
            old(self).well_formed(),
            data_len == data@.len(),
            data_len <= old(self).spec_max_len(),
        ensures
            final(self).well_formed(),
            final(self).spec_max_len() == old(self).spec_max_len(),
            final(self).spec_format() == old(self).spec_format(),
            final(self)@ == spec_extended(old(self)@, data@, old(self).spec_max_len()),
    {
        let ghost s = self.data@;
        let ghost d = data@;
        let ghost cap = self.max_len as nat;
        let ghost fmt = self.sample_format;
        if data_len == 0 {
            proof {
                assert(spec_extended(s, d, cap) =~= s);
            }
            return;
        }
        let free = self.max_len - self.len;
        let drop_count = if data_len > free { data_len - free } else { 0 };
        if drop_count > 0 {
            let keep = self.len - drop_count;
            let mut i: usize = 0;
            while i < keep
                invariant
                    i <= keep,
                    keep + drop_count == s.len(),
                    drop_count >= 1,
                    self.data@.len() == s.len(),
                    self.len == s.len(),
                    s.len() <= usize::MAX,
                    forall|k: int| 0 <= k < i ==> self.data@[k] == s[k + drop_count],
                    forall|k: int| i <= k < s.len() ==> self.data@[k] == s[k],
                    self.max_len == cap,
                    self.sample_format == fmt,
                decreases keep - i,
            {
                let moved = self.data[i + drop_count];
                self.data.set(i, moved);
                i = i + 1;
            }
            self.data.truncate(keep);
            self.len = keep;
            proof {
                assert(self.data@ =~= s.skip(drop_count as int));
            }
        }
        let ghost kept = self.data@;
        let mut j: usize = 0;
        while j < data_len
            invariant
                j <= data_len,
                data_len == d.len(),
                data@ == d,
                self.data@ == kept + d.subrange(0, j as int),
                self.len == kept.len(),
                self.len + data_len <= self.max_len,
                self.max_len == cap,
                self.sample_format == fmt,
            decreases data_len - j,
        {
            self.data.push(data[j]);
            proof {
                assert(self.data@ =~= kept + d.subrange(0, j + 1));
            }
            j = j + 1;
        }
        self.len = self.len + data_len;
        proof {
            assert(d.subrange(0, d.len() as int) =~= d);
            assert(self.data@ =~= spec_extended(s, d, cap));
        }
    }

    /// A read-only view of the current contents. Returns `None` only on an
    /// internal consistency violation (length exceeding storage), which a
    /// well-formed buffer never exhibits.
    pub fn as_slice(&self) -> (r: Option<&[T]>)
        requires
            self.well_formed(),
        ensures
            r matches Some(s) && s@ == self@,
    {
        if self.len > self.data.len() {
            None
        } else {
            Some(vstd::slice::slice_subrange(self.data.as_slice(), 0, self.len))
        }
    }
}

/// Law: absorbing one burst after another is the same as absorbing the
/// concatenated burst, so any sequence of `extend` calls collapses to one.
pub proof fn lemma_extended_compose<T>(s: Seq<T>, d1: Seq<T>, d2: Seq<T>, cap: nat)
    ensures
        spec_extended(spec_extended(s, d1, cap), d2, cap) == spec_extended(s, d1 + d2, cap),
{
    assert(spec_extended(spec_extended(s, d1, cap), d2, cap) =~= spec_extended(
        s,
        d1 + d2,
        cap,
    ));
}

/// Law: once the total sample count reaches the capacity, the buffer is full
/// and holds exactly the last `cap` samples submitted, oldest first.
pub proof fn lemma_extended_overflow<T>(s: Seq<T>, d: Seq<T>, cap: nat)
    requires
        s.len() + d.len() >= cap,
    ensures
        spec_extended(s, d, cap).len() == cap,
        spec_extended(s, d, cap) == (s + d).skip(s.len() + d.len() - cap),
{
    if s.len() + d.len() == cap {
        assert(spec_extended(s, d, cap) =~= (s + d).skip(s.len() + d.len() - cap));
    }
}

/// Law: an empty burst leaves the contents unchanged.
pub proof fn lemma_extended_empty<T>(s: Seq<T>, cap: nat)
    requires
        s.len() <= cap,
    ensures
        spec_extended(s, Seq::<T>::empty(), cap) == s,
{
    assert(spec_extended(s, Seq::<T>::empty(), cap) =~= s);
}

/// Contents after absorbing a whole sequence of bursts, one `extend` call
/// each, in order.
pub open spec fn spec_extended_all<T>(s: Seq<T>, bursts: Seq<Seq<T>>, cap: nat) -> Seq<T>
    decreases bursts.len(),
{
    if bursts.len() == 0 {
        s
    } else {
        spec_extended_all(spec_extended(s, bursts.first(), cap), bursts.drop_first(), cap)
    }
}

/// Law: a whole sequence of `extend` calls collapses to a single extension
/// by the concatenation of all the bursts.
pub proof fn lemma_extended_sequence<T>(s: Seq<T>, bursts: Seq<Seq<T>>, cap: nat)
    requires
        s.len() <= cap,
    ensures
        spec_extended_all(s, bursts, cap) == spec_extended(s, bursts.flatten(), cap),
    decreases bursts.len(),
{
    if bursts.len() == 0 {
        assert(spec_extended(s, bursts.flatten(), cap) =~= s);
    } else {
        lemma_extended_sequence(spec_extended(s, bursts.first(), cap), bursts.drop_first(), cap);
        lemma_extended_compose(s, bursts.first(), bursts.drop_first().flatten(), cap);
    }
}

/// Law: when a sequence of `extend` calls submits at least as many samples
/// as the capacity in total, the buffer ends full, holding exactly the last
/// `cap` samples submitted, oldest first.
pub proof fn lemma_overflow_sequence<T>(s: Seq<T>, bursts: Seq<Seq<T>>, cap: nat)
    requires
        s.len() <= cap,
        s.len() + bursts.flatten().len() >= cap,
    ensures
        spec_extended_all(s, bursts, cap).len() == cap,
        spec_extended_all(s, bursts, cap) == (s + bursts.flatten()).skip(
            s.len() + bursts.flatten().len() - cap,
        ),
{
    lemma_extended_sequence(s, bursts, cap);
    lemma_extended_overflow(s, bursts.flatten(), cap);
}

/// Law: while the total stays within capacity, absorbing a burst keeps the
/// samples already buffered as a prefix: history captured before a failed
/// forward is still part of the next snapshot.
pub proof fn lemma_retained_history<T>(s: Seq<T>, d: Seq<T>, cap: nat)
    requires
        s.len() + d.len() <= cap,
    ensures
        spec_extended(s, d, cap).subrange(0, s.len() as int) == s,
{
    assert(spec_extended(s, d, cap).subrange(0, s.len() as int) =~= s);
}

/// Law: however the buffer is extended, the length is the lesser of the
/// total submitted and the capacity, so it never exceeds the capacity.
pub proof fn lemma_extended_len<T>(s: Seq<T>, d: Seq<T>, cap: nat)
    ensures
        spec_extended(s, d, cap).len() == if s.len() + d.len() <= cap {
            s.len() + d.len()
        } else {
            cap
        },
        spec_extended(s, d, cap).len() <= cap,
{
}

} // verus!
