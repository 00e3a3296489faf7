//! The follow-stream engine: a resumable byte-position follower of the
//! serial log with rotation detection. The embedding application runs the
//! poll loop (sleeps, file handles, transport framing); each wake is driven
//! through `poll_step` and `ingest_data`, whose contracts fix what happens
//! on deletion, rotation and ordinary growth.

use vstd::prelude::*;

use crate::logs::{spec_split_lines, split_lines};

verus! {

/// One event of the follow stream.
pub enum FollowEvent {
    /// Exactly one, first.
    Init { instance: String, tail: usize },
    /// One per newline-terminated record read.
    Log { line: Vec<u8> },
    /// Emitted when 30 seconds elapse without any other event.
    Heartbeat { timestamp: u64 },
    /// Emitted when a rotation was detected and handled.
    Info { message: String },
    /// Terminal.
    Error { message: String },
}

impl FollowEvent {
    /// The event kind, as framed on the wire.
    pub fn kind(&self) -> (r: String)
        ensures
            (self matches FollowEvent::Init { .. }) ==> r@ == "init"@,
            (self matches FollowEvent::Log { .. }) ==> r@ == "log"@,
            (self matches FollowEvent::Heartbeat { .. }) ==> r@ == "heartbeat"@,
            (self matches FollowEvent::Info { .. }) ==> r@ == "info"@,
            (self matches FollowEvent::Error { .. }) ==> r@ == "error"@,
    {
        match self {
            FollowEvent::Init { .. } => "init".to_owned(),
            FollowEvent::Log { .. } => "log".to_owned(),
            FollowEvent::Heartbeat { .. } => "heartbeat".to_owned(),
            FollowEvent::Info { .. } => "info".to_owned(),
            FollowEvent::Error { .. } => "error".to_owned(),
        }
    }
}

/// The follower's cursor: the byte position it has consumed up to, the
/// inode it believes the log lives on, and whether the stream has ended.
pub struct FollowState {
    pub last_pos: u64,
    pub inode: u64,
    pub done: bool,
}

/// What one wake of the poll loop must do.
pub enum PollOutcome {
    /// The log is gone: emit a terminal error event and stop.
    Terminate,
    /// The file's identity changed (new inode) or it shrank below the
    /// cursor: reopen, emit one info event, and read from byte 0.
    Rotated,
    /// Same file: read from the cursor to the current size.
    Continue,
}

impl FollowState {
    /// A fresh follower positioned at `size` on `inode` (the initial tail
    /// has already been delivered).
    pub fn new(inode: u64, size: u64) -> (r: Self)
        ensures
            r.last_pos == size,
            r.inode == inode,
            !r.done,
    {
        FollowState { last_pos: size, inode, done: false }
    }

    /// One wake of the poll loop, given the probes: whether the path still
    /// exists, and its current inode and size.
    ///
    /// A deleted log terminates the stream. A changed inode or a size below
    /// the cursor is a rotation: the cursor returns to byte 0 of the new
    /// file and the inode cache is refreshed, so reading continues from the
    /// start of the new incarnation. Otherwise the cursor stands and the
    /// caller reads whatever grew past it.
    pub fn poll_step(&mut self, exists: bool, inode: u64, size: u64) -> (r: PollOutcome)
        requires
            !old(self).done,
        ensures
            !exists ==> (r is Terminate) && final (self).done && final (self).last_pos == old(
                self,
            ).last_pos,
            exists && (inode != old(self).inode || size < old(self).last_pos) ==> (r is Rotated)
                && final (self).last_pos == 0 && final (self).inode == inode && !final (self).done,
            exists && inode == old(self).inode && size >= old(self).last_pos ==> (r is Continue)
                && *final (self) == *old(self),
    {
        if !exists {
            self.done = true;
            return PollOutcome::Terminate;
        }
        if inode != self.inode || size < self.last_pos {
            self.last_pos = 0;
            self.inode = inode;
            return PollOutcome::Rotated;
        }
        PollOutcome::Continue
    }

    /// Consumes the bytes read from the cursor up to `new_pos`, advances the
    /// cursor, and returns the records to emit, one `log` event per line, in
    /// file order.
    pub fn ingest_data(&mut self, data: &Vec<u8>, new_pos: u64) -> (lines: Vec<Vec<u8>>)
        requires
            !old(self).done,
        ensures
            lines.deep_view() == spec_split_lines(data@),
            final (self).last_pos == new_pos,
            final (self).inode == old(self).inode,
            !final (self).done,
    {
        self.last_pos = new_pos;
        split_lines(data)
    }
}

/// Whether a heartbeat is due: 30 seconds without any other event.
pub fn heartbeat_due(elapsed_secs: u64) -> (r: bool)
    ensures
        r == (elapsed_secs >= 30),
{
    elapsed_secs >= 30
}

} // verus!
