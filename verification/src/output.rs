//! The output sinks of the logger: the standard error stream, an in-memory
//! buffer of raw log events, and the buffered, lock-aware file stream, all
//! fanned out behind one dispatch point.
//!
//! The file stream owns the buffering, threshold, lock and drop-policy
//! decisions; the actual file writes belong to the caller, who receives each
//! payload to append and reports back a failed append.

use vstd::prelude::*;
use vstd::string::*;

use crate::Error;
use crate::config::{LogStruct, OnDropPolicy};
use crate::format::{LogFormatter, spec_format_log};
use crate::strings::{joined, joined_from};

verus! {

/// Relies on `std::io::Stderr`: writes the text to the standard error
/// stream; a write error is ignored, as log delivery is best-effort.
#[verifier::external_body]
fn write_stderr(text: &str) {
    let _ = std::io::Write::write_all(&mut std::io::stderr(), text.as_bytes());
}

/// The view of an optional payload string.
pub open spec fn payload_view(p: Option<String>) -> Option<Seq<char>> {
    match p {
        Some(s) => Some(s@),
        None => None,
    }
}

/// Common trait for toggleable output sinks.
pub trait Toggleable {
    /// Whether the object is enabled.
    spec fn is_on(&self) -> bool;

    /// Enables the object.
    fn enable(&mut self)
        ensures
            final(self).is_on();

    /// Disables the object.
    fn disable(&mut self)
        ensures
            !final(self).is_on();

    /// Returns whether the object is enabled.
    fn is_enabled(&self) -> (r: &bool)
        ensures
            *r == self.is_on();
}

/// The standard error output stream: renders each event and writes it to
/// `stderr`. Enabled by default.
#[derive(Copy, Clone, PartialEq, Eq, Hash, Debug)]
pub struct StderrStream {
    /// Whether this sink accepts events.
    pub enabled: bool,
}

impl Default for StderrStream {
    fn default() -> (r: StderrStream)
        ensures
            r.enabled == true,
    {
        StderrStream { enabled: true }
    }
}

impl Toggleable for StderrStream {
    open spec fn is_on(&self) -> bool {
        self.enabled
    }

    fn enable(&mut self)
        ensures
            *final(self) == (StderrStream { enabled: true }),
    {
        self.enabled = true;
    }

    fn disable(&mut self)
        ensures
            *final(self) == (StderrStream { enabled: false }),
    {
        self.enabled = false;
    }

    fn is_enabled(&self) -> (r: &bool) {
        &self.enabled
    }
}

impl StderrStream {
    /// Formats the given log using the formatter and prints it to `stderr`
    /// when this sink is enabled.
    pub fn out(self, log: &LogStruct, formatter: &LogFormatter) {
        if self.enabled {
            write_stderr(formatter.format_log(log).as_str());
        }
    }
}

/// The in-memory buffer stream: stores raw log events. Disabled by default.
#[derive(PartialEq, Eq, Hash, Debug)]
pub struct BufferStream {
    /// Whether this sink accepts events.
    pub enabled: bool,
    /// The stored raw events, in arrival order.
    pub log_buffer: Vec<LogStruct>,
}

impl Clone for BufferStream {
    fn clone(&self) -> (r: BufferStream)
        ensures
            r.enabled == self.enabled,
            r.log_buffer@ == self.log_buffer@,
    {
        let lb = self.log_buffer.clone();
        assert(lb@ =~= self.log_buffer@) by {
            assert forall|i: int| 0 <= i < lb@.len() implies lb@[i] == self.log_buffer@[i] by {
                assert(cloned::<LogStruct>(self.log_buffer[i], lb[i]));
            }
        }
        BufferStream { enabled: self.enabled, log_buffer: lb }
    }
}

impl Default for BufferStream {
    fn default() -> (r: BufferStream)
        ensures
            r.enabled == false,
            r.log_buffer@ == Seq::<LogStruct>::empty(),
    {
        BufferStream { enabled: false, log_buffer: Vec::new() }
    }
}

impl Toggleable for BufferStream {
    open spec fn is_on(&self) -> bool {
        self.enabled
    }

    fn enable(&mut self)
        ensures
            *final(self) == (BufferStream { enabled: true, ..*old(self) }),
    {
        self.enabled = true;
    }

    fn disable(&mut self)
        ensures
            *final(self) == (BufferStream { enabled: false, ..*old(self) }),
    {
        self.enabled = false;
    }

    fn is_enabled(&self) -> (r: &bool) {
        &self.enabled
    }
}

/// The effect of handing one event to a buffer stream: stored when enabled,
/// ignored otherwise; the enabled flag never moves.
pub open spec fn buffer_sink_spec(pre: BufferStream, post: BufferStream, log: LogStruct) -> bool {
    &&& post.enabled == pre.enabled
    &&& if pre.enabled {
            post.log_buffer@ == pre.log_buffer@.push(log)
        } else {
            post == pre
        }
}

impl BufferStream {
    /// Stores a copy of the given raw log event when this sink is enabled.
    pub fn out(&mut self, log: &LogStruct)
        ensures
            buffer_sink_spec(*old(self), *final(self), *log),
    {
        if self.enabled {
            self.log_buffer.push(log.clone());
        }
    }

    /// Returns a reference to the internal buffer of raw log events.
    pub fn get_log_buffer(&self) -> (r: &Vec<LogStruct>)
        ensures
            r == &self.log_buffer,
    {
        &self.log_buffer
    }

    /// Clears the buffer of raw log events.
    pub fn clear(&mut self)
        ensures
            final(self).enabled == old(self).enabled,
            final(self).log_buffer@ == Seq::<LogStruct>::empty(),
    {
        self.log_buffer = Vec::new();
    }
}

/// The file output stream: accumulates rendered log lines in a bounded queue
/// and decides when they are written out, under the threshold, lock and
/// drop-policy rules.
///
/// This type holds the whole decision state machine; it hands each payload
/// that is due on the log file back to its owner, who performs the write and
/// reports a failure through [`FileStream::report_append_failure`].
#[derive(PartialEq, Eq, Hash, Debug)]
pub struct FileStream {
    /// Whether this sink accepts events. Created disabled.
    pub enabled: bool,
    /// The queue length at which an automatic flush fires; `None` disables
    /// automatic flushing (manual flush only). `Some(0)` flushes on every
    /// accepted line.
    pub max_buffer_size: Option<usize>,
    /// What the drop-time flush does when the log file lock is enabled.
    pub on_drop_policy: OnDropPolicy,
    /// The advisory log file lock: while set, nothing is written out, but
    /// accepted lines keep accumulating.
    pub lock_enabled: bool,
    /// The path of the log file the payloads belong to.
    pub log_file_path: String,
    /// The rendered lines waiting to be written, in arrival order.
    pub log_buffer: Vec<String>,
}

impl Clone for FileStream {
    fn clone(&self) -> (r: FileStream)
        ensures
            r.enabled == self.enabled,
            r.max_buffer_size == self.max_buffer_size,
            r.on_drop_policy == self.on_drop_policy,
            r.lock_enabled == self.lock_enabled,
            r.log_file_path@ == self.log_file_path@,
            r.buffered() == self.buffered(),
    {
        FileStream {
            enabled: self.enabled,
            max_buffer_size: self.max_buffer_size,
            on_drop_policy: self.on_drop_policy,
            lock_enabled: self.lock_enabled,
            log_file_path: self.log_file_path.clone(),
            log_buffer: self.log_buffer.clone(),
        }
    }
}

impl Default for FileStream {
    /// The default file stream: disabled, empty path, a threshold of 128
    /// lines, unlocked, and a drop policy that respects the lock.
    fn default() -> (r: FileStream)
        ensures
            r.enabled == false,
            r.max_buffer_size == Some(128usize),
            r.on_drop_policy == OnDropPolicy::DiscardLogBuffer,
            r.lock_enabled == false,
            r.log_file_path@ == Seq::<char>::empty(),
            r.buffered() == Seq::<Seq<char>>::empty(),
    {
        FileStream {
            enabled: false,
            max_buffer_size: Some(128),
            on_drop_policy: OnDropPolicy::DiscardLogBuffer,
            lock_enabled: false,
            log_file_path: String::new(),
            log_buffer: Vec::new(),
        }
    }
}

/// Whether a flush may run in state `s`: the queue must be non-empty on an
/// enabled stream, and the lock must be off — except during a drop-time
/// flush under the policy that ignores the lock.
pub open spec fn flush_permitted(s: FileStream, is_drop_flush: bool) -> bool {
    &&& s.enabled
    &&& s.buffered().len() > 0
    &&& !s.lock_enabled || (is_drop_flush && s.on_drop_policy is IgnoreLogFileLock)
}

/// Whether the automatic flush threshold is met by a queue of `queue_len`
/// lines.
pub open spec fn auto_flush_due(s: FileStream, queue_len: int) -> bool {
    s.max_buffer_size matches Some(size) && queue_len >= size
}

/// The effect of handing one rendered line to an enabled file stream: the
/// line is queued; where that meets the threshold and the lock is off, the
/// whole queue is handed back joined in arrival order and cleared; where the
/// threshold is met but the lock is on, the failure is swallowed and the
/// queue keeps growing.
pub open spec fn file_out_spec(pre: FileStream, post: FileStream, payload: Option<Seq<char>>, line: Seq<char>) -> bool {
    let grown = pre.buffered().push(line);
    &&& pre.same_config(post)
    &&& if auto_flush_due(pre, grown.len() as int) && !pre.lock_enabled {
            &&& payload matches Some(p) && p == joined(grown)
            &&& post.buffered() == Seq::<Seq<char>>::empty()
        } else {
            &&& payload is None
            &&& post.buffered() == grown
        }
}

/// The effect of handing one rendered line to a file stream that may also be
/// disabled: a disabled stream changes nothing and hands nothing back.
pub open spec fn file_sink_spec(pre: FileStream, post: FileStream, payload: Option<Seq<char>>, line: Seq<char>) -> bool {
    if pre.enabled {
        file_out_spec(pre, post, payload, line)
    } else {
        post == pre && payload is None
    }
}

impl FileStream {
    /// The rendered lines waiting to be written, in arrival order.
    pub open spec fn buffered(self) -> Seq<Seq<char>> {
        self.log_buffer@.map_values(|s: String| s@)
    }

    /// Whether everything but the queue agrees between two states.
    pub open spec fn same_config(self, other: FileStream) -> bool {
        &&& self.enabled == other.enabled
        &&& self.max_buffer_size == other.max_buffer_size
        &&& self.on_drop_policy == other.on_drop_policy
        &&& self.lock_enabled == other.lock_enabled
        &&& self.log_file_path@ == other.log_file_path@
    }

    /// Joins the queued lines into the payload of one write, in arrival
    /// order, and clears the queue.
    pub(crate) fn append_to_log_file(&mut self) -> (r: String)
        ensures
            r@ == joined(old(self).buffered()),
            old(self).same_config(*final(self)),
            final(self).buffered() == Seq::<Seq<char>>::empty(),
    {
        let ghost lines = self.buffered();
        let n = self.log_buffer.len();
        let mut buf = String::new();
        let mut i: usize = 0;
        while i < n
            invariant
                n == self.log_buffer@.len(),
                i <= n,
                lines == self.buffered(),
                *self == *old(self),
                buf@ + joined_from(lines, i as int) == joined(lines),
            decreases n - i,
        {
            let ghost pre = buf@;
            assert(lines[i as int] == self.log_buffer@[i as int]@);
            buf.append(self.log_buffer[i].as_str());
            assert(buf@ + joined_from(lines, i as int + 1) =~= pre + joined_from(lines, i as int));
            i = i + 1;
        }
        assert(buf@ + joined_from(lines, n as int) =~= buf@);
        self.log_buffer = Vec::new();
        assert(final(self).buffered() =~= Seq::<Seq<char>>::empty());
        buf
    }

    /// Queues one rendered line, firing the automatic flush where it is due.
    ///
    /// Fails only on a disabled stream. A due automatic flush that the lock
    /// blocks is swallowed: the line is already safely queued, and the queue
    /// keeps growing past the threshold.
    pub(crate) fn push_to_buffer(&mut self, log: String) -> (r: Result<Option<String>, Error>)
        ensures
            !old(self).enabled ==> *final(self) == *old(self),
            !old(self).enabled ==> (r matches Err(e) && e.message@ == "Output disabled!"@),
            old(self).enabled ==> (r matches Ok(p) && file_out_spec(*old(self), *final(self), payload_view(p), log@)),
    {
        if !self.enabled {
            return Err(Error::new("Output disabled!"));
        }

        let ghost grown = self.buffered().push(log@);
        self.log_buffer.push(log);
        assert(self.buffered() =~= grown);

        match self.max_buffer_size {
            Some(size) => {
                if self.log_buffer.len() >= size && !self.lock_enabled {
                    let payload = self.append_to_log_file();
                    Ok(Some(payload))
                } else {
                    Ok(None)
                }
            },
            None => Ok(None),
        }
    }

    /// Flushes the queue, under the lock and (for the drop-time flush) the
    /// drop-policy rules. On success the joined lines, in arrival order, are
    /// handed back as the payload of one write and the queue is cleared; on
    /// failure nothing changes.
    pub fn internal_flush(&mut self, is_drop_flush: bool) -> (r: Result<String, Error>)
        ensures
            r is Ok <==> flush_permitted(*old(self), is_drop_flush),
            r matches Ok(payload) ==> payload@ == joined(old(self).buffered())
                && old(self).same_config(*final(self))
                && final(self).buffered() == Seq::<Seq<char>>::empty(),
            r is Err ==> *final(self) == *old(self),
            r matches Err(e) ==> !old(self).enabled ==> e.message@ == "Output not enabled!"@,
            r matches Err(e) ==> old(self).enabled && old(self).buffered().len() == 0
                ==> e.message@ == "Log buffer is empty!"@,
            r matches Err(e) ==> old(self).enabled && old(self).buffered().len() > 0 && is_drop_flush
                ==> e.message@ == "Lock is enabled and on drop policy set to 'DiscardLogBuffer'!"@,
            r matches Err(e) ==> old(self).enabled && old(self).buffered().len() > 0 && !is_drop_flush
                ==> e.message@ == "Lock is enabled."@,
    {
        if !self.enabled {
            return Err(Error::new("Output not enabled!"));
        }

        if self.log_buffer.is_empty() {
            assert(self.buffered().len() == 0);
            return Err(Error::new("Log buffer is empty!"));
        }

        if is_drop_flush {
            if self.lock_enabled && !matches!(self.on_drop_policy, OnDropPolicy::IgnoreLogFileLock) {
                return Err(Error::new("Lock is enabled and on drop policy set to 'DiscardLogBuffer'!"));
            }
            return Ok(self.append_to_log_file());
        }

        if self.lock_enabled {
            return Err(Error::new("Lock is enabled."));
        }
        Ok(self.append_to_log_file())
    }

    /// The drop-time flush: run this once when tearing the stream down, and
    /// append the payload, if any, to the log file. Failures are ignored, as
    /// the decision table of the drop policy says.
    pub fn drop_flush(&mut self) -> (r: Option<String>)
        ensures
            flush_permitted(*old(self), true) ==> (r matches Some(payload)
                && payload@ == joined(old(self).buffered())
                && old(self).same_config(*final(self))
                && final(self).buffered() == Seq::<Seq<char>>::empty()),
            !flush_permitted(*old(self), true) ==> r is None && *final(self) == *old(self),
    {
        match self.internal_flush(true) {
            Ok(payload) => Some(payload),
            Err(_) => None,
        }
    }

    /// Remembers the log file path once the caller has opened (created or
    /// truncated) it for writing; `writable` is the outcome of that attempt.
    /// On failure the prior state is untouched.
    pub fn set_log_file_path(&mut self, path: &str, writable: bool) -> (r: Result<(), Error>)
        ensures
            r is Ok <==> writable,
            writable ==> *final(self) == (FileStream { log_file_path: final(self).log_file_path, ..*old(self) })
                && final(self).log_file_path@ == path@,
            !writable ==> *final(self) == *old(self),
            r matches Err(e) ==> e.message@ == "File is not writable!"@,
    {
        if writable {
            self.log_file_path = path.to_owned();
            Ok(())
        } else {
            Err(Error::new("File is not writable!"))
        }
    }

    /// Formats the given log using the formatter and queues the rendered
    /// line, firing the automatic flush where it is due; the payload handed
    /// back, if any, is to be appended to the log file.
    pub fn out(&mut self, log: &LogStruct, formatter: &LogFormatter) -> (r: Result<Option<String>, Error>)
        ensures
            !old(self).enabled ==> *final(self) == *old(self),
            !old(self).enabled ==> (r matches Err(e) && e.message@ == "Output disabled!"@),
            old(self).enabled ==> (r matches Ok(p)
                && file_out_spec(*old(self), *final(self), payload_view(p), spec_format_log(*formatter, *log))),
    {
        let line = formatter.format_log(log);
        self.push_to_buffer(line)
    }

    /// The explicit, non-drop flush: fails on a disabled stream, an empty
    /// queue, or an enabled lock, each with its own error; on success the
    /// joined lines are handed back as the payload of one write and the queue
    /// is cleared.
    pub fn flush(&mut self) -> (r: Result<String, Error>)
        ensures
            r is Ok <==> flush_permitted(*old(self), false),
            r matches Ok(payload) ==> payload@ == joined(old(self).buffered())
                && old(self).same_config(*final(self))
                && final(self).buffered() == Seq::<Seq<char>>::empty(),
            r is Err ==> *final(self) == *old(self),
            r matches Err(e) ==> !old(self).enabled ==> e.message@ == "Output not enabled!"@,
            r matches Err(e) ==> old(self).enabled && old(self).buffered().len() == 0
                ==> e.message@ == "Log buffer is empty!"@,
            r matches Err(e) ==> old(self).enabled && old(self).buffered().len() > 0
                ==> e.message@ == "Lock is enabled."@,
    {
        self.internal_flush(false)
    }

    /// Marks that appending a payload to the log file failed: the stream
    /// disables itself so a broken file sink cannot fail every following log
    /// call; the lines of the failed payload are lost.
    pub fn report_append_failure(&mut self)
        ensures
            *final(self) == (FileStream { enabled: false, ..*old(self) }),
    {
        self.enabled = false;
    }

    /// Sets the queue length at which the automatic flush fires. `None`
    /// disables automatic flushing (manual flush only); `Some(0)` makes every
    /// accepted line flush at once.
    pub fn set_max_buffer_size(&mut self, size: Option<usize>)
        ensures
            *final(self) == (FileStream { max_buffer_size: size, ..*old(self) }),
    {
        self.max_buffer_size = size;
    }

    /// Enables the output once the caller has re-validated that the log file
    /// path is writable; `writable` is the outcome of that attempt. A stream
    /// that is already enabled stays so; a failed validation leaves it
    /// disabled.
    pub fn enable(&mut self, writable: bool) -> (r: Result<(), Error>)
        ensures
            old(self).enabled ==> r is Ok && *final(self) == *old(self),
            !old(self).enabled && writable ==> r is Ok
                && *final(self) == (FileStream { enabled: true, ..*old(self) }),
            !old(self).enabled && !writable ==> *final(self) == *old(self),
            !old(self).enabled && !writable ==> (r matches Err(e) && e.message@ == "File is not writable!"@),
    {
        if self.enabled {
            Ok(())
        } else if writable {
            self.enabled = true;
            Ok(())
        } else {
            Err(Error::new("File is not writable!"))
        }
    }

    /// Disables the output unconditionally; nothing is flushed.
    pub fn disable(&mut self)
        ensures
            *final(self) == (FileStream { enabled: false, ..*old(self) }),
    {
        self.enabled = false;
    }

    /// Sets the policy of the drop-time flush under an enabled lock.
    pub fn set_on_drop_policy(&mut self, policy: OnDropPolicy)
        ensures
            *final(self) == (FileStream { on_drop_policy: policy, ..*old(self) }),
    {
        self.on_drop_policy = policy;
    }

    /// Locks the log file: an advisory flag that keeps this stream from
    /// writing out, while accepted lines keep accumulating.
    pub fn lock_file(&mut self)
        ensures
            *final(self) == (FileStream { lock_enabled: true, ..*old(self) }),
    {
        self.lock_enabled = true;
    }

    /// Unlocks the log file, letting the stream write out again.
    pub fn unlock_file(&mut self)
        ensures
            *final(self) == (FileStream { lock_enabled: false, ..*old(self) }),
    {
        self.lock_enabled = false;
    }

    /// Returns whether the output is enabled.
    pub fn is_enabled(&self) -> (r: &bool)
        ensures
            *r == self.enabled,
    {
        &self.enabled
    }
}

/// Law (buffered flush threshold): on an enabled, unlocked stream with
/// threshold `n`, accepting a line that brings the queue to `n` or more hands
/// back exactly the queued lines joined in arrival order and empties the
/// queue; accepting a line below the threshold hands nothing back and only
/// grows the queue.
pub proof fn lemma_flush_threshold(pre: FileStream, post: FileStream, payload: Option<Seq<char>>, line: Seq<char>, n: usize)
    requires
        pre.enabled,
        !pre.lock_enabled,
        pre.max_buffer_size == Some(n),
        file_out_spec(pre, post, payload, line),
    ensures
        pre.buffered().len() + 1 >= n ==> (payload matches Some(p)
            && p == joined(pre.buffered().push(line))
            && post.buffered().len() == 0),
        pre.buffered().len() + 1 < n ==> payload is None
            && post.buffered() == pre.buffered().push(line),
{
}

/// Law (lock semantics): with the lock enabled on an enabled stream,
/// accepting a line always succeeds and only grows the queue, whatever the
/// threshold; a manual flush is never permitted; and a drop-time flush of a
/// non-empty queue is permitted exactly when the drop policy ignores the
/// lock.
pub proof fn lemma_lock_semantics(pre: FileStream, post: FileStream, payload: Option<Seq<char>>, line: Seq<char>)
    requires
        pre.enabled,
        pre.lock_enabled,
    ensures
        file_out_spec(pre, post, payload, line) ==> payload is None
            && post.buffered() == pre.buffered().push(line),
        !flush_permitted(pre, false),
        pre.buffered().len() > 0 ==> (flush_permitted(pre, true) <==> pre.on_drop_policy is IgnoreLogFileLock),
{
}

/// Wraps the standard error, buffer and file sinks in the single dispatch
/// point the logger drives: one accepted event goes to every enabled sink.
#[derive(PartialEq, Eq, Hash, Debug)]
pub struct LogOutput {
    /// The `stderr` output stream.
    pub stderr_output: StderrStream,
    /// The file output stream.
    pub file_output: FileStream,
    /// The in-memory buffer stream.
    pub buffer_output: BufferStream,
    /// Whether dispatching is enabled at all.
    pub enabled: bool,
}

impl Clone for LogOutput {
    fn clone(&self) -> (r: LogOutput)
        ensures
            r.stderr_output == self.stderr_output,
            r.file_output.enabled == self.file_output.enabled,
            r.file_output.max_buffer_size == self.file_output.max_buffer_size,
            r.file_output.on_drop_policy == self.file_output.on_drop_policy,
            r.file_output.lock_enabled == self.file_output.lock_enabled,
            r.file_output.log_file_path@ == self.file_output.log_file_path@,
            r.file_output.buffered() == self.file_output.buffered(),
            r.buffer_output.enabled == self.buffer_output.enabled,
            r.buffer_output.log_buffer@ == self.buffer_output.log_buffer@,
            r.enabled == self.enabled,
    {
        LogOutput {
            stderr_output: self.stderr_output,
            file_output: self.file_output.clone(),
            buffer_output: self.buffer_output.clone(),
            enabled: self.enabled,
        }
    }
}

/// What the default output fan-out looks like: `stderr` enabled, the file
/// and buffer sinks disabled and empty, dispatching on.
pub open spec fn default_output_spec(r: LogOutput) -> bool {
    &&& r.enabled == true
    &&& r.stderr_output.enabled == true
    &&& r.buffer_output.enabled == false
    &&& r.buffer_output.log_buffer@ == Seq::<LogStruct>::empty()
    &&& r.file_output.enabled == false
    &&& r.file_output.max_buffer_size == Some(128usize)
    &&& r.file_output.on_drop_policy == OnDropPolicy::DiscardLogBuffer
    &&& r.file_output.lock_enabled == false
    &&& r.file_output.log_file_path@ == Seq::<char>::empty()
    &&& r.file_output.buffered() == Seq::<Seq<char>>::empty()
}

impl Default for LogOutput {
    /// The default fan-out: `stderr` enabled, the file and buffer sinks
    /// disabled, dispatching on.
    fn default() -> (r: LogOutput)
        ensures
            default_output_spec(r),
    {
        LogOutput {
            enabled: true,
            stderr_output: StderrStream::default(),
            file_output: FileStream::default(),
            buffer_output: BufferStream::default(),
        }
    }
}

impl Toggleable for LogOutput {
    open spec fn is_on(&self) -> bool {
        self.enabled
    }

    fn enable(&mut self)
        ensures
            *final(self) == (LogOutput { enabled: true, ..*old(self) }),
    {
        self.enabled = true;
    }

    fn disable(&mut self)
        ensures
            *final(self) == (LogOutput { enabled: false, ..*old(self) }),
    {
        self.enabled = false;
    }

    fn is_enabled(&self) -> (r: &bool) {
        &self.enabled
    }
}

/// The effect of dispatching one event: each enabled sink receives it
/// independently — the event itself into the buffer sink, the rendered line
/// `line` into the file sink — and a failure of the file sink (it may be
/// disabled) stops nothing else. `payload` is what is due on the log file.
pub open spec fn output_out_spec(pre: LogOutput, post: LogOutput, payload: Option<Seq<char>>, log: LogStruct, line: Seq<char>) -> bool {
    if pre.enabled {
        &&& post.enabled == pre.enabled
        &&& post.stderr_output == pre.stderr_output
        &&& buffer_sink_spec(pre.buffer_output, post.buffer_output, log)
        &&& file_sink_spec(pre.file_output, post.file_output, payload, line)
    } else {
        post == pre && payload is None
    }
}

impl LogOutput {
    /// Passes the log and its rendered form to every enabled child sink; the
    /// payload handed back, if any, is to be appended to the file sink's log
    /// file. An error of the file sink is swallowed here: a broken file sink
    /// must not block delivery to the others.
    pub fn out(&mut self, log: &LogStruct, formatter: &LogFormatter) -> (r: Option<String>)
        ensures
            output_out_spec(*old(self), *final(self), payload_view(r), *log, spec_format_log(*formatter, *log)),
    {
        if self.enabled {
            self.stderr_output.out(log, formatter);
            let payload = match self.file_output.out(log, formatter) {
                Ok(p) => p,
                Err(_) => None,
            };
            self.buffer_output.out(log);
            payload
        } else {
            None
        }
    }
}

} // verus!
