//! The text sink capability and an observable in-memory implementation.
//!
//! A sink abstracts "open a destination, write a line, close" so the
//! circular buffer's flush logic is stated and proved without real file
//! I/O. The mock implementation records every accepted line and forwards
//! it over a channel to an observer.

use vstd::prelude::*;
use vstd::string::StringExecFns;
use crate::channel;

verus! {

/// Errors a text sink can report.
#[derive(Clone, Copy, Debug, PartialEq, Eq, Structural)]
pub enum SinkError {
    /// `open` was called while a destination was already open.
    AlreadyOpen,
    /// `write` was called with no destination open.
    NotConnected,
    /// The implementation failed to open the destination.
    OpenFailed,
    /// The implementation failed to write to the destination.
    WriteFailed,
}

/// A capability for writing lines of text to some destination.
///
/// `connected` and `lines` are the abstract state every implementation
/// maintains: whether a destination is open, and the lines accepted so
/// far, in order. A `write` with no open destination must fail with
/// `NotConnected` and change nothing; an `open` while already open must
/// fail with `AlreadyOpen` and change nothing.
pub trait TextDataWriter: Sized {
    /// Whether the sink currently has an open destination. The default
    /// leaves it unspecified, for implementations outside the verified
    /// world.
    open spec fn connected(&self) -> bool {
        vstd::pervasive::arbitrary()
    }

    /// Every line accepted by `write` since construction, in order. The
    /// default leaves it unspecified, for implementations outside the
    /// verified world.
    open spec fn lines(&self) -> Seq<Seq<char>> {
        vstd::pervasive::arbitrary()
    }

    /// Open `path` as the destination.
    fn open(&mut self, path: &str) -> (r: Result<(), SinkError>)
        ensures
            final(self).lines() == old(self).lines(),
            old(self).connected() ==> r == Result::<(), SinkError>::Err(SinkError::AlreadyOpen)
                && *final(self) == *old(self),
            !old(self).connected() ==> (r is Ok <==> final(self).connected()),
    ;

    /// Write one line to the open destination.
    fn write(&mut self, line: &str) -> (r: Result<(), SinkError>)
        ensures
            !old(self).connected() ==> r == Result::<(), SinkError>::Err(SinkError::NotConnected)
                && *final(self) == *old(self),
            old(self).connected() ==> final(self).connected(),
            r is Ok ==> old(self).connected() && final(self).lines() == old(self).lines().push(
                line@,
            ),
            r is Err ==> final(self).lines() == old(self).lines(),
    ;

    /// Drop the destination; writes fail until the next successful `open`.
    fn close(&mut self)
        ensures
            !final(self).connected(),
            final(self).lines() == old(self).lines(),
    ;
}

/// Make a connected observer/sink pair: lines written to the
/// [`MockDataWriter`] can be read back from the [`MockTextFile`].
pub fn get_mock_text_data_writer() -> (r: (MockTextFile, MockDataWriter))
    ensures
        r.0.received() == Seq::<Seq<char>>::empty(),
        !r.1.connected(),
        r.1.lines() == Seq::<Seq<char>>::empty(),
{
    let (tx, rx) = channel::channel_pair::<String>();
    let f = MockTextFile::new(rx);
    let w = MockDataWriter::new(tx);
    (f, w)
}

/// The observing end of a mock sink: collects the lines the paired
/// [`MockDataWriter`] accepted.
pub struct MockTextFile {
    rx: std::sync::mpsc::Receiver<String>,
    mock_data: Vec<String>,
}

impl MockTextFile {
    /// The lines drained from the paired writer so far, in order.
    pub closed spec fn received(&self) -> Seq<Seq<char>> {
        Seq::new(self.mock_data@.len(), |i: int| self.mock_data@[i]@)
    }

    fn new(rx: std::sync::mpsc::Receiver<String>) -> (r: Self)
        ensures
            r.received() == Seq::<Seq<char>>::empty(),
    {
        let r = Self { mock_data: Vec::new(), rx };
        proof {
            assert(r.received() =~= Seq::<Seq<char>>::empty());
        }
        r
    }

    /// Drain every line the paired writer has forwarded so far.
    ///
    /// Lines already drained stay in place; the new ones are appended in
    /// the order they were written.
    pub fn process_queued_messages(&mut self)
        ensures
            final(self).received().len() >= old(self).received().len(),
            final(self).received().subrange(0, old(self).received().len() as int) == old(
                self,
            ).received(),
    {
        let drained = channel::channel_drain(&self.rx);
        let n = drained.len();
        let mut k: usize = 0;
        while k < n
            invariant
                k <= n,
                n == drained@.len(),
                self.mock_data@.len() == old(self).mock_data@.len() + k,
                self.mock_data@.subrange(0, old(self).mock_data@.len() as int) == old(
                    self,
                ).mock_data@,
                self.rx == old(self).rx,
            decreases n - k,
        {
            self.mock_data.push(drained[k].clone());
            proof {
                assert(self.mock_data@.subrange(0, old(self).mock_data@.len() as int) =~= old(
                    self,
                ).mock_data@);
            }
            k = k + 1;
        }
        proof {
            assert(final(self).received().subrange(0, old(self).received().len() as int) =~= old(
                self,
            ).received());
        }
    }

    /// Read the lines drained so far.
    pub fn get_mock_data(&self) -> (r: &Vec<String>)
        ensures
            r@.len() == self.received().len(),
            forall|i: int| 0 <= i < r@.len() ==> r@[i]@ == self.received()[i],
    {
        &self.mock_data
    }
}

/// A sink that keeps no file: accepted lines are recorded and forwarded
/// to the paired [`MockTextFile`].
pub struct MockDataWriter {
    file: Option<String>,
    tx: std::sync::mpsc::Sender<String>,
    sent: Ghost<Seq<Seq<char>>>,
}

impl MockDataWriter {
    fn new(tx: std::sync::mpsc::Sender<String>) -> (r: Self)
        ensures
            !r.connected(),
            r.lines() == Seq::<Seq<char>>::empty(),
    {
        Self { file: None, tx, sent: Ghost(Seq::empty()) }
    }
}

impl TextDataWriter for MockDataWriter {
    closed spec fn connected(&self) -> bool {
        self.file is Some
    }

    closed spec fn lines(&self) -> Seq<Seq<char>> {
        self.sent@
    }

    fn open(&mut self, path: &str) -> (r: Result<(), SinkError>)
        ensures
            !old(self).connected() ==> r is Ok,
    {
        if self.file.is_some() {
            Err(SinkError::AlreadyOpen)
        } else {
            self.file = Some(path.to_owned());
            Ok(())
        }
    }

    fn close(&mut self) {
        self.file = None;
    }

    fn write(&mut self, line: &str) -> (r: Result<(), SinkError>)
        ensures
            old(self).connected() ==> r is Ok,
    {
        if self.file.is_some() {
            // The observer may already be gone; the line still counts as
            // accepted by this sink.
            channel::channel_send(&self.tx, line.to_owned());
            proof {
                self.sent@ = self.sent@.push(line@);
            }
            Ok(())
        } else {
            Err(SinkError::NotConnected)
        }
    }
}

} // verus!
