//! Construction-time validation and wiring of a sender/receiver pair.

use vstd::prelude::*;
use crate::buffer::is_valid_capacity;
use crate::channel;
use crate::level::Level;
use crate::receiver::BufferSize;
use crate::record::LogData;
use crate::sender::LogSender;

verus! {

/// Relies on std's `Path::is_dir`: whether the path names an existing
/// directory. A disk lookup, so nothing is promised of the answer.
#[verifier::external_body]
fn path_is_dir(p: &str) -> (r: bool) {
    std::path::Path::new(p).is_dir()
}

/// Relies on std's `Path::parent`: whether the path has a parent
/// component. Path syntax is platform-defined, so nothing is promised.
#[verifier::external_body]
fn path_has_parent(p: &str) -> (r: bool) {
    std::path::Path::new(p).parent().is_some()
}

/// Decide whether a logger may be built from these settings, given what
/// the file system said about the path: the path must not be a directory
/// and must have a parent, the store threshold must be at least as
/// verbose as the dump threshold, and the capacity must be valid. The
/// checks run in that order and the first failure names itself.
pub fn validate_logger_settings(
    path_is_directory: bool,
    has_parent: bool,
    store_log_level: Level,
    dump_log_level: Level,
    buffer_size: BufferSize,
) -> (r: Result<(), &'static str>)
    ensures
        r is Ok <==> (!path_is_directory && has_parent && store_log_level.rank()
            >= dump_log_level.rank() && is_valid_capacity(buffer_size.value_spec())),
        path_is_directory ==> (r matches Err(m) && m@
            == "File path should be a plain file, not a directory"@),
        !path_is_directory && !has_parent ==> (r matches Err(m) && m@
            == "Log file location does not seem to be valid. Are you trying to write to root?"@),
        !path_is_directory && has_parent && store_log_level.rank() < dump_log_level.rank() ==> (
        r matches Err(m) && m@ == "Must satisfy store_log_level >= dump_log_level"@),
        !path_is_directory && has_parent && store_log_level.rank() >= dump_log_level.rank()
            && !is_valid_capacity(buffer_size.value_spec()) ==> (r matches Err(m) && m@
            == "Specified buffer_size is not a supported value. Must be of type BufferSize"@),
{
    if path_is_directory {
        Err("File path should be a plain file, not a directory")
    } else if !has_parent {
        Err("Log file location does not seem to be valid. Are you trying to write to root?")
    } else if store_log_level < dump_log_level {
        Err("Must satisfy store_log_level >= dump_log_level")
    } else if !buffer_size.is_valid() {
        Err("Specified buffer_size is not a supported value. Must be of type BufferSize")
    } else {
        Ok(())
    }
}

/// Validate the settings and make the two halves of a logger: the
/// sending handle, and — when a worker should run at all — the queue
/// endpoint it will consume.
///
/// A worker is pointless when either threshold is `Off` (with `Off` as
/// the store level nothing is ever queued; with `Off` as the dump level
/// nothing ever triggers a write), so no endpoint is handed out then and
/// every send fails immediately. The caller owns spawning the worker
/// thread around [`crate::receiver::LogReceiver`].
pub fn build_logger(
    log_file_path: &str,
    store_log_level: Level,
    dump_log_level: Level,
    buffer_size: BufferSize,
) -> (r: Result<(LogSender, Option<std::sync::mpsc::Receiver<LogData>>), &'static str>)
    ensures
        store_log_level.rank() < dump_log_level.rank() ==> r is Err,
        !is_valid_capacity(buffer_size.value_spec()) ==> r is Err,
        r matches Ok(p) ==> store_log_level.rank() >= dump_log_level.rank()
            && is_valid_capacity(buffer_size.value_spec())
            && p.0.store_level() == store_log_level
            && (p.1 is Some <==> (dump_log_level != Level::Off && store_log_level != Level::Off)),
{
    let is_directory = path_is_dir(log_file_path);
    let has_parent = path_has_parent(log_file_path);
    match validate_logger_settings(
        is_directory,
        has_parent,
        store_log_level,
        dump_log_level,
        buffer_size,
    ) {
        Err(e) => Err(e),
        Ok(()) => {
            let (sender, receiver) = channel::channel_pair::<LogData>();
            let log_tx = LogSender::new(sender, store_log_level);
            if dump_log_level != Level::Off && store_log_level != Level::Off {
                // Only hand out the consuming end if data will be logged:
                // a worker is only worth spawning then.
                Ok((log_tx, Some(receiver)))
            } else {
                Ok((log_tx, None))
            }
        },
    }
}

} // verus!
