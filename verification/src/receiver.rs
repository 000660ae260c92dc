//! The receiver worker: one circular buffer, one sink, and the decisions
//! taken for every record pulled off the queue.
//!
//! The blocking receive loop itself cannot be verified (how long it runs
//! is decided by the producers), so it lives with the callers: they call
//! [`LogReceiver::receive`] and dispatch to [`LogReceiver::handle_record`]
//! or [`LogReceiver::handle_disconnect`], both of which are verified.

use vstd::prelude::*;
use vstd::string::StringExecFns;
use crate::buffer::CircularStringsBuffer;
use crate::buffer::flush_outcome;
use crate::buffer::is_valid_capacity;
use crate::buffer::live_window;
use crate::channel;
use crate::level::Level;
use crate::record::LogData;
use crate::sink::TextDataWriter;

verus! {

/// Available buffer sizes, in number of messages.
#[derive(Debug, Copy, Clone)]
pub enum BufferSize {
    Size16,
    Size32,
    Size64,
    Size128,
    Size256,
    Size512,
    Size1024,
    Size2048,
}

impl BufferSize {
    /// The capacity each variant stands for.
    pub open spec fn value_spec(self) -> int {
        match self {
            BufferSize::Size16 => 16,
            BufferSize::Size32 => 32,
            BufferSize::Size64 => 64,
            BufferSize::Size128 => 128,
            BufferSize::Size256 => 256,
            BufferSize::Size512 => 512,
            BufferSize::Size1024 => 1024,
            BufferSize::Size2048 => 2048,
        }
    }

    /// The size as a count of messages.
    pub fn value(&self) -> (r: usize)
        ensures
            r as int == self.value_spec(),
    {
        match self {
            BufferSize::Size16 => 16,
            BufferSize::Size32 => 32,
            BufferSize::Size64 => 64,
            BufferSize::Size128 => 128,
            BufferSize::Size256 => 256,
            BufferSize::Size512 => 512,
            BufferSize::Size1024 => 1024,
            BufferSize::Size2048 => 2048,
        }
    }

    /// Check that the size is a power of two in `16..=2048`; every
    /// variant is, so this always holds.
    pub fn is_valid(&self) -> (r: bool)
        ensures
            r == is_valid_capacity(self.value_spec()),
    {
        let v = self.value();
        let mut ans = true;
        if v == 0 || (v & (v - 1)) != 0 {
            ans = false;
        }
        if 16 > v {
            ans = false;
        }
        if 2048 < v {
            ans = false;
        }
        proof {
            assert((16usize & 15usize) == 0) by (bit_vector);
            assert((32usize & 31usize) == 0) by (bit_vector);
            assert((64usize & 63usize) == 0) by (bit_vector);
            assert((128usize & 127usize) == 0) by (bit_vector);
            assert((256usize & 255usize) == 0) by (bit_vector);
            assert((512usize & 511usize) == 0) by (bit_vector);
            assert((1024usize & 1023usize) == 0) by (bit_vector);
            assert((2048usize & 2047usize) == 0) by (bit_vector);
        }
        ans
    }
}

/// The synthetic line recorded when the queue disconnects: every sending
/// handle was dropped, so history is flushed one last time.
pub open spec fn disconnect_line(time_stamp: Seq<char>) -> Seq<char> {
    time_stamp + " | Error | Ending logger thread due to MPSC Disconnected"@
}

/// The worker state: the dump threshold, the inbound queue, the output
/// path, and the owned circular buffer with its sink.
pub struct LogReceiver<T: TextDataWriter + Send> {
    log_dump_level: Level,
    receiver: std::sync::mpsc::Receiver<LogData>,
    log_file_path: String,
    buffer: CircularStringsBuffer<T>,
}

impl<T: TextDataWriter + Send> LogReceiver<T> {
    /// The configured dump threshold.
    pub closed spec fn dump_level(self) -> Level {
        self.log_dump_level
    }

    /// The output path flushes are written to.
    pub closed spec fn path(self) -> Seq<char> {
        self.log_file_path@
    }

    /// The owned circular buffer (and through it, the sink).
    pub closed spec fn buf(self) -> CircularStringsBuffer<T> {
        self.buffer
    }

    /// A receiver is well-formed when its buffer is.
    pub open spec fn wf(self) -> bool {
        self.buf().wf()
    }

    /// Assemble a worker over an already-built buffer and queue endpoint.
    pub fn new(
        log_dump_level: Level,
        receiver: std::sync::mpsc::Receiver<LogData>,
        log_file_path: String,
        buffer: CircularStringsBuffer<T>,
    ) -> (r: Self)
        requires
            buffer.wf(),
        ensures
            r.wf(),
            r.dump_level() == log_dump_level,
            r.path() == log_file_path@,
            r.buf() == buffer,
    {
        Self { log_dump_level, receiver, log_file_path, buffer }
    }

    /// Block until the next queued record arrives, or until every sender
    /// has been dropped (`None`). What comes back is decided by the
    /// producers, so nothing is promised of it.
    pub fn receive(&self) -> (r: Option<LogData>) {
        channel::channel_recv(&self.receiver)
    }

    /// Process one received record.
    ///
    /// The record is always rendered and buffered, whatever its level.
    /// A record at or below the dump threshold triggers a flush; a record
    /// of level `Off` is the shutdown signal instead and asks the caller
    /// to stop (`true`). In the unreachable case that the buffer's write
    /// count has hit the machine limit, the buffer restarts from empty
    /// rather than fail.
    pub fn handle_record(&mut self, payload: LogData) -> (stop: bool)
        requires
            old(self).wf(),
        ensures
            final(self).wf(),
            final(self).dump_level() == old(self).dump_level(),
            final(self).path() == old(self).path(),
            final(self).buf().capacity() == old(self).buf().capacity(),
            stop == (payload.level_spec() == Level::Off),
            ({
                let hist0 = if old(self).buf().history().len() < usize::MAX as int {
                    old(self).buf().history()
                } else {
                    Seq::<Seq<char>>::empty()
                };
                let pushed = hist0.push(payload.rendered());
                if payload.level_spec() != Level::Off && payload.level_spec().rank() <= old(
                    self,
                ).dump_level().rank() {
                    // the record triggered a dump: the buffer is empty and
                    // the sink saw one of the flush outcomes
                    final(self).buf().history() == Seq::<Seq<char>>::empty() && flush_outcome(
                        old(self).buf().sink().lines(),
                        live_window(pushed, old(self).buf().capacity()),
                        final(self).buf().sink().lines(),
                    ) && !final(self).buf().sink().connected()
                } else {
                    // buffered only: even `Off` records are recorded
                    final(self).buf().history() == pushed && final(self).buf().sink() == old(
                        self,
                    ).buf().sink()
                }
            }),
    {
        let line = payload.as_string();
        if self.buffer.write_count() == usize::MAX {
            // Defensive recovery at the machine limit of the write count.
            self.buffer.reset_fast();
        }
        self.buffer.push(line);

        let mut stop = false;
        if payload.level() > self.log_dump_level {
            // the common case: not severe enough to flush
        } else if payload.level() == Level::Off {
            // the shutdown sentinel: never flushes by itself
            stop = true;
        } else {
            proof {
                self.buffer.lemma_wf_capacity();
                assert(self.buf().occupancy() > 0);
            }
            self.dump();
        }
        stop
    }

    /// Handle the queue's disconnection: every sending handle is gone, so
    /// record one synthetic error line naming the cause and flush what is
    /// buffered. `time_stamp` is the moment of detection, already
    /// rendered.
    pub fn handle_disconnect(&mut self, time_stamp: String)
        requires
            old(self).wf(),
        ensures
            final(self).wf(),
            final(self).dump_level() == old(self).dump_level(),
            final(self).path() == old(self).path(),
            final(self).buf().capacity() == old(self).buf().capacity(),
            final(self).buf().history() == Seq::<Seq<char>>::empty(),
            !final(self).buf().sink().connected(),
            ({
                let hist0 = if old(self).buf().history().len() < usize::MAX as int {
                    old(self).buf().history()
                } else {
                    Seq::<Seq<char>>::empty()
                };
                let pushed = hist0.push(disconnect_line(time_stamp@));
                flush_outcome(
                    old(self).buf().sink().lines(),
                    live_window(pushed, old(self).buf().capacity()),
                    final(self).buf().sink().lines(),
                )
            }),
    {
        let mut line = time_stamp;
        line.append(" | Error | Ending logger thread due to MPSC Disconnected");
        if self.buffer.write_count() == usize::MAX {
            self.buffer.reset_fast();
        }
        self.buffer.push(line);
        proof {
            self.buffer.lemma_wf_capacity();
            assert(self.buf().occupancy() > 0);
        }
        self.dump();
    }

    /// Flush all buffered lines to the output file and clear the buffer.
    ///
    /// A flush failure is swallowed: persistence is best-effort and the
    /// worker must outlive a broken sink.
    fn dump(&mut self)
        requires
            old(self).wf(),
        ensures
            final(self).wf(),
            final(self).dump_level() == old(self).dump_level(),
            final(self).path() == old(self).path(),
            final(self).buf().capacity() == old(self).buf().capacity(),
            final(self).buf().history() == Seq::<Seq<char>>::empty(),
            flush_outcome(
                old(self).buf().sink().lines(),
                old(self).buf().live(),
                final(self).buf().sink().lines(),
            ),
            old(self).buf().occupancy() > 0 ==> !final(self).buf().sink().connected(),
            old(self).buf().occupancy() == 0 ==> final(self).buf().sink() == old(
                self,
            ).buf().sink(),
    {
        let r = self.buffer.write_to_file_and_clear(self.log_file_path.as_str());
        proof {
            old(self).buf().lemma_wf_capacity();
            let base = old(self).buf().sink().lines();
            let entries = old(self).buf().live();
            let after = self.buf().sink().lines();
            if old(self).buf().occupancy() > 0 && after != base {
                let k = choose|k: int|
                    0 <= k <= entries.len() && after == base.push("\n"@) + entries.take(k);
                assert(after == base.push("\n"@) + entries.take(k));
            }
        }
    }
}

} // verus!
