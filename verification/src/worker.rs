//! The batch upload worker's decision core.
//!
//! The worker ingests records of one kind through an unbounded queue that
//! never blocks the producer, drains them in arrival order in batches of at
//! most `batch_size`, and serializes each batch to newline-delimited lines.
//! On cancellation, whatever is still buffered is drained in one final
//! batch before the worker exits. Delivery is best-effort and at-most-once
//! per batch: the caller performs the uploads and drops a failed batch.

use vstd::prelude::*;
use vstd::arithmetic::div_mod::lemma_basic_div;
use vstd::arithmetic::div_mod::lemma_div_plus_one;

verus! {

/// The division rounded upward: how many batches a backlog needs.
pub open spec fn ceil_div(n: nat, b: nat) -> nat
    decreases n when b > 0
{
    if n == 0 {
        0
    } else if n <= b {
        1
    } else {
        (1 + ceil_div((n - b) as nat, b)) as nat
    }
}

/// The batches a backlog is drained into: full batches of `b` in arrival
/// order, the last batch holding the remainder.
pub open spec fn chunks_of<T>(s: Seq<T>, b: nat) -> Seq<Seq<T>>
    decreases s.len() when b > 0
{
    if s.len() == 0 {
        Seq::empty()
    } else if s.len() <= b {
        seq![s]
    } else {
        seq![s.subrange(0, b as int)] + chunks_of(s.subrange(b as int, s.len() as int), b)
    }
}

/// The recursive rounding-up count agrees with the closed form.
pub proof fn lemma_ceil_div_closed_form(n: nat, b: nat)
    requires
        b > 0,
    ensures
        ceil_div(n, b) == (n + b - 1) / (b as int),
    decreases n,
{
    if n == 0 {
        lemma_basic_div(n as int + b - 1, b as int);
    } else if n <= b {
        lemma_basic_div(n as int - 1, b as int);
        lemma_div_plus_one(n as int - 1, b as int);
    } else {
        lemma_ceil_div_closed_form((n - b) as nat, b);
        lemma_div_plus_one(n as int - b - 1 + b, b as int);
        assert((n + b - 1) / (b as int) == (n - b + b - 1) / (b as int) + 1);
    }
}

/// Law: draining a backlog of `n` records with batch size `b` produces
/// exactly `ceil(n / b)` batches, each non-empty and of at most `b` records,
/// and concatenating the batches in order restores the backlog — record
/// order is preserved within and across batches.
pub proof fn lemma_batch_schedule<T>(s: Seq<T>, b: nat)
    requires
        b > 0,
    ensures
        chunks_of(s, b).len() == ceil_div(s.len(), b),
        forall|i: int|
            0 <= i < chunks_of(s, b).len() ==> 0 < #[trigger] chunks_of(s, b)[i].len() <= b,
        chunks_of(s, b).flatten() == s,
    decreases s.len(),
{
    let c = chunks_of(s, b);
    if s.len() == 0 {
        assert(c.flatten() =~= s);
    } else if s.len() <= b {
        assert(c =~= seq![s]);
        assert(c.first() == s);
        assert(c.drop_first() =~= Seq::<Seq<T>>::empty());
        assert(c.drop_first().flatten() == Seq::<T>::empty());
        assert(c.flatten() == s + Seq::<T>::empty());
        assert(c.flatten() =~= s);
    } else {
        let head = s.subrange(0, b as int);
        let tail = s.subrange(b as int, s.len() as int);
        lemma_batch_schedule(tail, b);
        let rest = chunks_of(tail, b);
        assert(c =~= seq![head] + rest);
        assert(c.first() == head);
        assert(c.drop_first() =~= rest);
        assert(c.flatten() == head + rest.flatten());
        assert(c.flatten() =~= s);
        assert forall|i: int| 0 <= i < c.len() implies 0 < #[trigger] c[i].len() <= b by {
            if i > 0 {
                assert(c[i] == rest[i - 1]);
            }
        }
    }
}

/// The queue and fixed batch size of one batch upload worker.
pub struct BatchWorker<T> {
    queue: Vec<T>,
    batch_size: usize,
}

impl<T> BatchWorker<T> {
    /// The records buffered and not yet drained, in arrival order.
    pub closed spec fn pending(&self) -> Seq<T> {
        self.queue@
    }

    /// The fixed batch size.
    pub closed spec fn spec_batch_size(&self) -> usize {
        self.batch_size
    }

    /// Well-formed: a positive batch size.
    pub open spec fn wf(&self) -> bool {
        self.spec_batch_size() >= 1
    }

    /// A fresh worker with an empty queue.
    pub fn new(batch_size: usize) -> (r: BatchWorker<T>)
        requires
            batch_size >= 1,
        ensures
            r.wf(),
            r.spec_batch_size() == batch_size,
            r.pending().len() == 0,
    {
        BatchWorker { queue: Vec::new(), batch_size }
    }

    /// The fixed batch size.
    pub fn batch_size(&self) -> (r: usize)
        ensures
            r == self.spec_batch_size(),
    {
        self.batch_size
    }

    /// How many records are buffered.
    pub fn pending_len(&self) -> (r: usize)
        ensures
            r == self.pending().len(),
    {
        self.queue.len()
    }

    /// Accept one record at the back of the queue. Never blocks or fails:
    /// the producer is never made to wait on sink delivery.
    pub fn enqueue(&mut self, rec: T)
        ensures
            final(self).pending() == old(self).pending().push(rec),
            final(self).spec_batch_size() == old(self).spec_batch_size(),
    {
        self.queue.push(rec);
    }

    /// Drain up to one batch: the oldest `batch_size` buffered records, in
    /// arrival order (fewer when the queue holds less).
    pub fn take_batch(&mut self) -> (r: Vec<T>)
        requires
            old(self).wf(),
        ensures
            final(self).wf(),
            final(self).spec_batch_size() == old(self).spec_batch_size(),
            r@.len() == (if old(self).pending().len() <= old(self).spec_batch_size() {
                old(self).pending().len()
            } else {
                old(self).spec_batch_size() as nat
            }),
            r@ == old(self).pending().subrange(0, r@.len() as int),
            final(self).pending() == old(self).pending().subrange(
                r@.len() as int,
                old(self).pending().len() as int,
            ),
    {
        let k: usize = if self.queue.len() <= self.batch_size {
            self.queue.len()
        } else {
            self.batch_size
        };
        let mut out: Vec<T> = Vec::new();
        let mut j: usize = 0;
        while j < k
            invariant
                j <= k <= old(self).pending().len(),
                self.spec_batch_size() == old(self).spec_batch_size(),
                out@ =~= old(self).pending().subrange(0, j as int),
                self.queue@ =~= old(self).pending().subrange(
                    j as int,
                    old(self).pending().len() as int,
                ),
            decreases k - j,
        {
            let x = self.queue.remove(0);
            out.push(x);
            assert(out@ =~= old(self).pending().subrange(0, j + 1));
            assert(self.queue@ =~= old(self).pending().subrange(
                j + 1,
                old(self).pending().len() as int,
            ));
            j += 1;
        }
        out
    }

    /// The final shutdown drain: everything still buffered leaves as one
    /// batch, however large, and the queue is empty afterwards.
    pub fn final_drain(&mut self) -> (r: Vec<T>)
        ensures
            final(self).spec_batch_size() == old(self).spec_batch_size(),
            r@ == old(self).pending(),
            final(self).pending().len() == 0,
    {
        let mut out: Vec<T> = Vec::new();
        std::mem::swap(&mut out, &mut self.queue);
        out
    }

    /// Drain a whole backlog into its batch schedule: exactly
    /// `ceil(n / batch_size)` batches of at most `batch_size` records each,
    /// whose concatenation in order is the backlog.
    pub fn drain_all(&mut self) -> (r: Vec<Vec<T>>)
        requires
            old(self).wf(),
        ensures
            final(self).wf(),
            final(self).spec_batch_size() == old(self).spec_batch_size(),
            final(self).pending().len() == 0,
            r@.len() == chunks_of(old(self).pending(), old(self).spec_batch_size() as nat).len(),
            forall|i: int|
                0 <= i < r@.len() ==> #[trigger] r@[i]@ == chunks_of(
                    old(self).pending(),
                    old(self).spec_batch_size() as nat,
                )[i],
    {
        let ghost orig = old(self).pending();
        let ghost b = old(self).spec_batch_size() as nat;
        let mut out: Vec<Vec<T>> = Vec::new();
        while self.queue.len() > 0
            invariant
                self.wf(),
                self.spec_batch_size() == old(self).spec_batch_size(),
                b == old(self).spec_batch_size() as nat,
                b >= 1,
                out@.len() + chunks_of(self.pending(), b).len() == chunks_of(orig, b).len(),
                forall|i: int|
                    0 <= i < out@.len() ==> #[trigger] out@[i]@ == chunks_of(orig, b)[i],
                chunks_of(self.pending(), b) =~= chunks_of(orig, b).subrange(
                    out@.len() as int,
                    chunks_of(orig, b).len() as int,
                ),
            decreases self.queue.len(),
        {
            let ghost before = self.pending();
            let batch = self.take_batch();
            proof {
                assert(before.subrange(0, before.len() as int) =~= before);
                if before.len() <= b {
                    assert(batch@ == before);
                    assert(self.pending() =~= Seq::<T>::empty());
                    assert(chunks_of(self.pending(), b) =~= Seq::<Seq<T>>::empty());
                }
                assert(chunks_of(before, b)[0] == batch@);
                assert(chunks_of(before, b).drop_first() =~= chunks_of(self.pending(), b));
            }
            out.push(batch);
            proof {
                assert(chunks_of(self.pending(), b) =~= chunks_of(orig, b).subrange(
                    out@.len() as int,
                    chunks_of(orig, b).len() as int,
                ));
            }
        }
        out
    }
}

/// One serialized line per record, newline-terminated, in batch order.
pub open spec fn joined_lines(lines: Seq<Seq<u8>>) -> Seq<u8>
    decreases lines.len(),
{
    if lines.len() == 0 {
        Seq::empty()
    } else {
        lines[0] + seq![10u8] + joined_lines(lines.drop_first())
    }
}

proof fn lemma_joined_snoc(lines: Seq<Seq<u8>>, x: Seq<u8>)
    ensures
        joined_lines(lines.push(x)) == joined_lines(lines) + x + seq![10u8],
    decreases lines.len(),
{
    if lines.len() == 0 {
        assert(lines.push(x)[0] == x);
        let rest = lines.push(x).drop_first();
        assert(rest =~= Seq::<Seq<u8>>::empty());
        assert(joined_lines(rest) == Seq::<u8>::empty());
        assert(joined_lines(lines) == Seq::<u8>::empty());
        assert(joined_lines(lines.push(x)) == lines.push(x)[0] + seq![10u8] + joined_lines(rest));
        assert(joined_lines(lines.push(x)) =~= joined_lines(lines) + x + seq![10u8]);
    } else {
        assert(lines.push(x)[0] == lines[0]);
        assert(lines.push(x).drop_first() =~= lines.drop_first().push(x));
        lemma_joined_snoc(lines.drop_first(), x);
        assert(joined_lines(lines.push(x)) == lines[0] + seq![10u8] + joined_lines(
            lines.drop_first().push(x),
        ));
        assert(joined_lines(lines.push(x)) =~= joined_lines(lines) + x + seq![10u8]);
    }
}

/// Serialize one batch of already-encoded records to the uploaded body:
/// each line in order, each terminated by a newline.
pub fn encode_batch(lines: &Vec<Vec<u8>>) -> (r: Vec<u8>)
    ensures
        r@ == joined_lines(lines.deep_view()),
{
    let mut out: Vec<u8> = Vec::new();
    let mut i: usize = 0;
    while i < lines.len()
        invariant
            i <= lines@.len(),
            lines.deep_view().len() == lines@.len(),
            forall|j: int| 0 <= j < lines@.len() ==> lines.deep_view()[j] == lines@[j]@,
            out@ == joined_lines(lines.deep_view().subrange(0, i as int)),
        decreases lines@.len() - i,
    {
        crate::domain::append_bytes(&mut out, lines[i].as_slice());
        out.push(10u8);
        proof {
            let dv = lines.deep_view();
            lemma_joined_snoc(dv.subrange(0, i as int), dv[i as int]);
            assert(dv.subrange(0, i as int).push(dv[i as int]) =~= dv.subrange(0, i + 1));
        }
        i += 1;
    }
    proof {
        assert(lines.deep_view().subrange(0, lines@.len() as int) =~= lines.deep_view());
    }
    out
}

} // verus!
