//! The producer-side handle: gates records by the store threshold and
//! submits them to the worker's queue.

use vstd::prelude::*;
use crate::channel;
use crate::level::Level;
use crate::record::LogData;
use crate::record::get_time_now;

verus! {

/// A cloneable handle for sending new records to be buffered. Each clone
/// feeds the same queue; the handle never blocks.
#[derive(Clone)]
pub struct LogSender {
    log_level: Level,
    sender: std::sync::mpsc::Sender<LogData>,
}

impl LogSender {
    /// The configured store threshold: records less verbose than it (of
    /// numerically greater rank) are dropped without being sent.
    pub closed spec fn store_level(self) -> Level {
        self.log_level
    }

    /// Make a handle over a queue endpoint with the given store threshold.
    pub fn new(sender: std::sync::mpsc::Sender<LogData>, log_level: Level) -> (r: Self)
        ensures
            r.store_level() == log_level,
    {
        Self { sender, log_level }
    }

    /// Stamp `line` with the current time and submit it, if `level`
    /// passes the store threshold; otherwise drop it. Whether the queue
    /// accepts the record depends on the receiver still existing, so a
    /// failed send is swallowed: sending never blocks and never panics.
    fn construct_and_send(&self, level: Level, line: String) {
        if level <= self.log_level {
            let d = LogData::new(level, get_time_now(), line);
            channel::channel_send(&self.sender, d);
        }
        // else: drop the message
    }

    /// Submit the `Off` shutdown sentinel once; reports whether the queue
    /// accepted it, which fails exactly once the receiver is gone.
    pub fn send_shutdown(&self) -> (accepted: bool) {
        let off_command = LogData::new(Level::Off, get_time_now(), String::new());
        channel::channel_send(&self.sender, off_command)
    }

    /// Log a `Trace` level message.
    pub fn trace_str(&self, line: &str) {
        self.construct_and_send(Level::Trace, line.to_owned());
    }

    /// Log a `Trace` level message.
    pub fn trace_string(&self, line: String) {
        self.construct_and_send(Level::Trace, line);
    }

    /// Log an `Info` level message.
    pub fn info_str(&self, line: &str) {
        self.construct_and_send(Level::Info, line.to_owned());
    }

    /// Log an `Info` level message.
    pub fn info_string(&self, line: String) {
        self.construct_and_send(Level::Info, line);
    }

    /// Log a `Warn` level message.
    pub fn warn_str(&self, line: &str) {
        self.construct_and_send(Level::Warn, line.to_owned());
    }

    /// Log a `Warn` level message.
    pub fn warn_string(&self, line: String) {
        self.construct_and_send(Level::Warn, line);
    }

    /// Log an `Error` level message.
    pub fn error_str(&self, line: &str) {
        self.construct_and_send(Level::Error, line.to_owned());
    }

    /// Log an `Error` level message.
    pub fn error_string(&self, line: String) {
        self.construct_and_send(Level::Error, line);
    }
}

} // verus!
