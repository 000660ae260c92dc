//! The fixed-capacity circular buffer of rendered log lines.
//!
//! The buffer keeps the most recent `capacity` lines ever pushed, indexed
//! by a monotonically increasing logical position. Its abstract state is
//! the full `history` of pushed lines: at most the last `capacity` of
//! them are still retrievable, each stored at its position modulo the
//! capacity. Flushing writes the live window to the owned sink, oldest
//! first, and empties the buffer.

use vstd::prelude::*;
use vstd::pervasive::VecAdditionalExecFns;
use vstd::arithmetic::div_mod::lemma_fundamental_div_mod;
use vstd::arithmetic::div_mod::lemma_fundamental_div_mod_converse;
use vstd::arithmetic::div_mod::lemma_small_mod;
use crate::sink::TextDataWriter;

verus! {

/// Occupancy threshold under which a flush only resets the counters and
/// leaves stale slot text in place.
pub const SMALL_BATCH_LIMIT: usize = 10;

/// A buffer capacity is valid when it is a power of two between 16 and
/// 2048 lines.
pub open spec fn is_valid_capacity(n: int) -> bool {
    n == 16 || n == 32 || n == 64 || n == 128 || n == 256 || n == 512 || n == 1024 || n == 2048
}

/// The last `capacity` lines of a push history: what a buffer of that
/// capacity still holds after pushing `history` in order.
pub open spec fn live_window(history: Seq<Seq<char>>, capacity: int) -> Seq<Seq<char>> {
    if history.len() <= capacity {
        history
    } else {
        history.subrange(history.len() - capacity, history.len() as int)
    }
}

/// Every way a flush can leave a sink: untouched, or appended with the
/// header line and some prefix of the live lines, oldest first; a prefix
/// shorter than the whole window means a write failed part way.
pub open spec fn flush_outcome(
    before: Seq<Seq<char>>,
    entries: Seq<Seq<char>>,
    after: Seq<Seq<char>>,
) -> bool {
    after == before || exists|k: int|
        0 <= k <= entries.len() && after == before.push("\n"@) + entries.take(k)
}

/// The remainder of `x + 1` follows from the remainder of `x`: it either
/// steps up by one or wraps to zero.
proof fn lemma_mod_succ(x: int, n: int)
    requires
        0 <= x,
        0 < n,
    ensures
        (x + 1) % n == if x % n == n - 1 {
            0int
        } else {
            x % n + 1
        },
{
    lemma_fundamental_div_mod(x, n);
    let q = x / n;
    if x % n == n - 1 {
        assert(x + 1 == (q + 1) * n + 0) by (nonlinear_arith)
            requires
                x == n * q + (n - 1),
        ;
        lemma_fundamental_div_mod_converse(x + 1, n, q + 1, 0);
    } else {
        assert(x + 1 == q * n + (x % n + 1)) by (nonlinear_arith)
            requires
                x == n * q + x % n,
        ;
        lemma_fundamental_div_mod_converse(x + 1, n, q, x % n + 1);
    }
}

/// Two distinct positions less than `n` apart have distinct remainders
/// modulo `n`.
proof fn lemma_distinct_residue(i: int, e: int, n: int)
    requires
        0 < n,
        0 <= i < e,
        e - i < n,
    ensures
        i % n != e % n,
{
    if i % n == e % n {
        lemma_fundamental_div_mod(i, n);
        lemma_fundamental_div_mod(e, n);
        let qi = i / n;
        let qe = e / n;
        assert(e - i == n * (qe - qi)) by (nonlinear_arith)
            requires
                e == n * qe + e % n,
                i == n * qi + i % n,
                i % n == e % n,
        ;
        assert(qe - qi >= 1 ==> n * (qe - qi) >= n) by (nonlinear_arith)
            requires
                0 < n,
        ;
        assert(qe - qi <= 0 ==> n * (qe - qi) <= 0) by (nonlinear_arith)
            requires
                0 < n,
        ;
        assert(false);
    }
}

/// A ring of `max_size` text slots with monotonically increasing logical
/// positions, owning the sink its contents are flushed to.
pub struct CircularStringsBuffer<T: TextDataWriter + Send> {
    buffer: Vec<String>,
    max_size: usize,
    internal_index: usize,
    external_index: usize,
    writer: T,
    history: Ghost<Seq<Seq<char>>>,
}

impl<T: TextDataWriter + Send> CircularStringsBuffer<T> {
    /// Every line ever pushed since construction or the last reset, in
    /// order. Only the last `capacity` of them are still retrievable.
    pub closed spec fn history(self) -> Seq<Seq<char>> {
        self.history@
    }

    /// The fixed number of slots.
    pub closed spec fn capacity(self) -> int {
        self.max_size as int
    }

    /// The sink this buffer flushes to.
    pub closed spec fn sink(self) -> T {
        self.writer
    }

    /// The text currently held by each physical slot, live or stale.
    pub closed spec fn stored(self) -> Seq<Seq<char>> {
        Seq::new(self.buffer@.len(), |i: int| self.buffer@[i]@)
    }

    /// The oldest logical index still retrievable.
    pub open spec fn min_live(self) -> int {
        if self.history().len() <= self.capacity() {
            0int
        } else {
            self.history().len() - self.capacity()
        }
    }

    /// How many lines are currently retrievable.
    pub open spec fn occupancy(self) -> int {
        if self.history().len() <= self.capacity() {
            self.history().len() as int
        } else {
            self.capacity()
        }
    }

    /// Whether logical index `i` is still retrievable.
    pub open spec fn index_live(self, i: int) -> bool {
        i < self.history().len() && self.history().len() - i <= self.capacity()
    }

    /// The retrievable lines, oldest first.
    pub open spec fn live(self) -> Seq<Seq<char>> {
        live_window(self.history(), self.capacity())
    }

    /// Well-formedness: a valid capacity, one slot per position, counters
    /// in step with the history, and every live line stored at its
    /// position modulo the capacity.
    pub closed spec fn wf(self) -> bool {
        &&& is_valid_capacity(self.max_size as int)
        &&& self.buffer@.len() == self.max_size as int
        &&& self.external_index as int == self.history@.len()
        &&& self.internal_index as int == if self.external_index == 0 {
            0int
        } else {
            (self.external_index as int - 1) % (self.max_size as int) + 1
        }
        &&& forall|i: int|
            self.min_live() <= i < self.history@.len() ==> self.buffer@[
                i % (self.max_size as int)
            ]@ == #[trigger] self.history@[i]
    }

    /// Make a buffer over the given pre-allocated slots; its capacity is
    /// the number of slots handed in.
    pub fn new(input_buffer: Vec<String>, writer: T) -> (r: Self)
        requires
            is_valid_capacity(input_buffer@.len() as int),
        ensures
            r.wf(),
            r.history() == Seq::<Seq<char>>::empty(),
            r.capacity() == input_buffer@.len(),
            r.sink() == writer,
    {
        let max_size = input_buffer.len();
        Self {
            max_size,
            buffer: input_buffer,
            internal_index: 0,
            external_index: 0,
            writer,
            history: Ghost(Seq::empty()),
        }
    }

    /// Total number of pushes since construction or the last reset.
    pub fn write_count(&self) -> (r: usize)
        requires
            self.wf(),
        ensures
            r as int == self.history().len(),
    {
        self.external_index
    }

    /// Forget all bookkeeping: the buffer becomes empty, but slot text is
    /// left in place until overwritten.
    pub fn reset_fast(&mut self)
        requires
            old(self).wf(),
        ensures
            final(self).wf(),
            final(self).history() == Seq::<Seq<char>>::empty(),
            final(self).occupancy() == 0,
            final(self).min_live() == 0,
            final(self).capacity() == old(self).capacity(),
            final(self).sink() == old(self).sink(),
            final(self).stored() == old(self).stored(),
    {
        self.internal_index = 0;
        self.external_index = 0;
        proof {
            self.history@ = Seq::empty();
        }
    }

    /// Forget all bookkeeping and clear every slot's text.
    pub fn reset(&mut self)
        requires
            old(self).wf(),
        ensures
            final(self).wf(),
            final(self).history() == Seq::<Seq<char>>::empty(),
            final(self).occupancy() == 0,
            final(self).min_live() == 0,
            final(self).capacity() == old(self).capacity(),
            final(self).sink() == old(self).sink(),
            final(self).stored() == Seq::new(
                old(self).capacity() as nat,
                |i: int| Seq::<char>::empty(),
            ),
    {
        self.reset_fast();
        let n = self.buffer.len();
        let mut k: usize = 0;
        while k < n
            invariant
                k <= n,
                self.buffer@.len() == n,
                self.max_size == n,
                is_valid_capacity(n as int),
                self.external_index == 0,
                self.internal_index == 0,
                self.history@ == Seq::<Seq<char>>::empty(),
                self.writer == old(self).writer,
                forall|j: int| 0 <= j < k ==> #[trigger] self.buffer@[j]@ == Seq::<char>::empty(),
            decreases n - k,
        {
            self.buffer.set(k, String::new());
            k = k + 1;
        }
        proof {
            assert(final(self).stored() =~= Seq::new(
                old(self).capacity() as nat,
                |i: int| Seq::<char>::empty(),
            ));
        }
    }

    /// Append one line: it lands in the slot at the current logical
    /// position modulo the capacity, overwriting the oldest live line
    /// once the buffer is full.
    pub fn push(&mut self, new_value: String)
        requires
            old(self).wf(),
            old(self).history().len() < usize::MAX,
        ensures
            final(self).wf(),
            final(self).history() == old(self).history().push(new_value@),
            final(self).capacity() == old(self).capacity(),
            final(self).sink() == old(self).sink(),
    {
        proof {
            let n = self.max_size as int;
            let e = self.external_index as int;
            if e == 0 {
                lemma_small_mod(0nat, self.max_size as nat);
            } else {
                lemma_mod_succ(e - 1, n);
            }
        }
        if self.internal_index >= self.max_size {
            self.internal_index = 0;
        }
        let ghost slot = self.internal_index as int;
        proof {
            assert(slot == self.external_index as int % self.max_size as int);
        }
        self.buffer.set(self.internal_index, new_value);
        self.internal_index = self.internal_index + 1;
        self.external_index = self.external_index + 1;
        proof {
            self.history@ = self.history@.push(new_value@);
            let n = self.max_size as int;
            let e = self.external_index as int;  // already incremented
            lemma_mod_succ(e - 1, n);
            assert forall|i: int| final(self).min_live() <= i < self.history@.len() implies self
                .buffer@[i % n]@ == #[trigger] self.history@[i] by {
                if i < e - 1 {
                    lemma_distinct_residue(i, e - 1, n);
                }
            }
        }
    }

    /// Resolve a logical index to its physical slot with a bitmask, which
    /// agrees with the remainder because the capacity is a power of two.
    fn calc_ring_index(&self, external_index: usize) -> (r: usize)
        requires
            self.wf(),
        ensures
            r as int == external_index as int % self.capacity(),
            r < self.capacity(),
    {
        let r = external_index & (self.max_size - 1);
        proof {
            let e = external_index;
            let n = self.max_size;
            if n == 16 {
                assert((e & 15usize) == e % 16) by (bit_vector);
            } else if n == 32 {
                assert((e & 31usize) == e % 32) by (bit_vector);
            } else if n == 64 {
                assert((e & 63usize) == e % 64) by (bit_vector);
            } else if n == 128 {
                assert((e & 127usize) == e % 128) by (bit_vector);
            } else if n == 256 {
                assert((e & 255usize) == e % 256) by (bit_vector);
            } else if n == 512 {
                assert((e & 511usize) == e % 512) by (bit_vector);
            } else if n == 1024 {
                assert((e & 1023usize) == e % 1024) by (bit_vector);
            } else {
                assert((e & 2047usize) == e % 2048) by (bit_vector);
            }
        }
        r
    }

    /// The oldest logical index still in the buffer: zero until the
    /// buffer has wrapped, then the write count minus the capacity.
    pub fn get_min_external_index_in_buffer(&self) -> (r: usize)
        requires
            self.wf(),
        ensures
            r as int == self.min_live(),
    {
        if self.max_size > self.external_index {
            0
        } else {
            self.external_index - self.max_size
        }
    }

    /// How many lines are live: the write count, capped at the capacity.
    pub fn get_qty_in_buffer(&self) -> (r: usize)
        requires
            self.wf(),
        ensures
            r as int == self.occupancy(),
    {
        if self.max_size < self.external_index {
            self.max_size
        } else {
            self.external_index
        }
    }

    /// Whether the line at logical index `i` is still retrievable: it was
    /// pushed, and no more than `capacity` pushes have happened since.
    pub fn does_index_exist(&self, target_external_index: usize) -> (r: bool)
        requires
            self.wf(),
        ensures
            r == self.index_live(target_external_index as int),
    {
        (target_external_index < self.external_index) && ((self.external_index
            - target_external_index) <= self.max_size)
    }

    /// A copy of the line at logical index `external_target_index`, which
    /// is exactly the line pushed at that position, or nothing if it has
    /// been overwritten or not yet pushed. Never panics on out-of-range
    /// input.
    pub fn get(&self, external_target_index: usize) -> (r: Option<String>)
        requires
            self.wf(),
        ensures
            self.index_live(external_target_index as int) ==> (r matches Some(line) && line@
                == self.history()[external_target_index as int]),
            !self.index_live(external_target_index as int) ==> r is None,
    {
        if self.does_index_exist(external_target_index) {
            let index = self.calc_ring_index(external_target_index);
            Some(self.buffer[index].clone())
        } else {
            None
        }
    }

    /// A well-formed buffer has a valid capacity.
    pub proof fn lemma_wf_capacity(&self)
        requires
            self.wf(),
        ensures
            is_valid_capacity(self.capacity()),
    {
    }

    /// Occupancy law: however many pushes the history records, the
    /// occupancy is their number capped at the capacity.
    pub proof fn lemma_occupancy_is_min(&self)
        requires
            self.wf(),
        ensures
            self.history().len() <= self.capacity() ==> self.occupancy() == self.history().len(),
            self.history().len() >= self.capacity() ==> self.occupancy() == self.capacity(),
    {
    }

    /// Live-window law: once at least `capacity` lines were pushed, the
    /// oldest live index is the write count minus the capacity, and
    /// exactly the last `capacity` logical indices are live.
    pub proof fn lemma_live_window(&self, i: int)
        requires
            self.wf(),
            self.history().len() >= self.capacity(),
        ensures
            self.min_live() == self.history().len() - self.capacity(),
            self.index_live(i) <==> self.min_live() <= i < self.history().len(),
    {
    }

    /// Flush every live line to the owned sink, oldest first, behind one
    /// header line, then empty the buffer.
    ///
    /// Whatever the sink does, the buffer itself ends empty: data loss is
    /// preferred over unbounded growth. A small batch only resets the
    /// counters; a batch of at least [`SMALL_BATCH_LIMIT`] lines also
    /// clears the slot text.
    pub fn write_to_file_and_clear(&mut self, f: &str) -> (r: Result<(), &'static str>)
        requires
            old(self).wf(),
        ensures
            final(self).wf(),
            final(self).history() == Seq::<Seq<char>>::empty(),
            final(self).occupancy() == 0,
            final(self).min_live() == 0,
            final(self).capacity() == old(self).capacity(),
            // an empty buffer never touches the sink
            old(self).occupancy() == 0 ==> r is Ok && final(self).sink() == old(self).sink(),
            // after any attempted flush the sink is closed again
            old(self).occupancy() > 0 ==> !final(self).sink().connected(),
            // success exactly when the header and every live line were accepted
            old(self).occupancy() > 0 ==> (r is Ok <==> final(self).sink().lines()
                == old(self).sink().lines().push("\n"@) + old(self).live()),
            // every outcome: the sink saw nothing, or the header plus some
            // prefix of the live lines, oldest first
            old(self).occupancy() > 0 ==> (final(self).sink().lines() == old(self).sink().lines()
                || exists|k: int|
                    0 <= k <= old(self).live().len() && final(self).sink().lines()
                        == old(self).sink().lines().push("\n"@) + old(self).live().take(k)),
            // each error names what went wrong
            r matches Err(m) ==> old(self).occupancy() > 0 && ((m@
                == "File open failed in write_to_file_and_clear()"@ && final(self).sink().lines()
                == old(self).sink().lines()) || (m@
                == "write_to_file_and_clear() failed to write header"@ && final(self).sink().lines()
                == old(self).sink().lines()) || (m@
                == "write_to_file_and_clear() failed to write data"@ && exists|k: int|
                    0 <= k < old(self).live().len() && final(self).sink().lines()
                        == old(self).sink().lines().push("\n"@) + old(self).live().take(k))),
            // reset hygiene: a small batch leaves slot text alone, a large
            // one clears it
            old(self).occupancy() < SMALL_BATCH_LIMIT as int ==> final(self).stored()
                == old(self).stored(),
            old(self).occupancy() >= SMALL_BATCH_LIMIT as int ==> final(self).stored() == Seq::new(
                old(self).capacity() as nat,
                |i: int| Seq::<char>::empty(),
            ),
    {
        let ghost entries = self.live();
        let ghost base_lines = self.sink().lines();
        let qty = self.get_qty_in_buffer();
        let mut ans: Result<(), &'static str> = Ok(());
        if qty > 0 {
            let start_index = self.get_min_external_index_in_buffer();
            let end_index = self.external_index;
            let success = self.writer.open(f);
            if success.is_err() {
                ans = Err("File open failed in write_to_file_and_clear()");
            } else if self.writer.write("\n").is_err() {
                ans = Err("write_to_file_and_clear() failed to write header");
            } else {
                let ghost hdr_lines = base_lines.push("\n"@);
                let mut k = start_index;
                let mut failed: bool = false;
                while k < end_index
                    invariant_except_break
                        !failed,
                    invariant
                        self.wf(),
                        self.history() == old(self).history(),
                        self.capacity() == old(self).capacity(),
                        self.stored() == old(self).stored(),
                        entries == old(self).live(),
                        start_index as int == old(self).min_live(),
                        end_index as int == old(self).history().len(),
                        start_index <= k <= end_index,
                        self.sink().connected(),
                        self.sink().lines() == hdr_lines + entries.take(k - start_index),
                        ans == Ok::<(), &'static str>(()),
                    ensures
                        failed ==> k < end_index,
                        !failed ==> k == end_index,
                    decreases end_index - k,
                {
                    match self.get(k) {
                        Some(line) => {
                            if self.writer.write(line.as_str()).is_err() {
                                failed = true;
                                break ;
                            }
                            proof {
                                assert(entries.take(k + 1 - start_index) =~= entries.take(
                                    k - start_index,
                                ).push(entries[k - start_index]));
                                assert(self.sink().lines() =~= hdr_lines + entries.take(
                                    k + 1 - start_index,
                                ));
                            }
                        },
                        None => {
                            // Defensive recovery: the live-window proof shows
                            // this cannot happen, but a bookkeeping bug must
                            // reset the buffer rather than tear the worker
                            // down.
                            proof {
                                assert(false);
                            }
                            self.reset_fast();
                            ans = Err(
                                "In write_to_file_and_clear(), index into buffer was not valid",
                            );
                            break ;
                        },
                    }
                    k = k + 1;
                }
                if failed {
                    ans = Err("write_to_file_and_clear() failed to write data");
                    proof {
                        assert(self.sink().lines().len() == hdr_lines.len() + (k
                            - start_index));
                    }
                } else {
                    proof {
                        assert(entries.take(end_index - start_index) =~= entries);
                    }
                }
            }
            self.writer.close();
        }
        if qty < SMALL_BATCH_LIMIT {
            self.reset_fast();
        } else {
            self.reset();
        }
        ans
    }
}

} // verus!
