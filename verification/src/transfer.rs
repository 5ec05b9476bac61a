//! One transfer: the copy of a response body to its destination, as a state
//! machine. The caller reads from the stream and writes to the file; the
//! transfer is told each outcome and answers with what to do next.

use crate::progress::{percent_complete, percent_of};
use vstd::prelude::*;

verus! {

/// The size of the buffer that the body is read into, in bytes.
pub const CHUNK_SIZE: usize = 1024;

/// Where a transfer stands.
#[derive(Clone, Copy, Debug, PartialEq, Eq, Structural)]
pub enum Phase {
    /// The destination file is to be created, before anything is read.
    Opening,
    /// The next chunk is to be read from the stream.
    Reading,
    /// A chunk of `len` bytes was read and is to be written to the file.
    Writing { len: usize },
    /// The stream has ended; everything was written.
    Finished,
    /// A read or a write failed; the file holds what was written before.
    Aborted,
}

/// What happened to the last thing the caller was asked to do.
#[derive(Clone, Copy, Debug, PartialEq, Eq, Structural)]
pub enum Event {
    /// The destination file was created, empty.
    Opened,
    /// The destination file could not be created.
    OpenFailed,
    /// A read returned `len` bytes; zero is the end of the stream.
    ReadOk { len: usize },
    /// A read failed.
    ReadFailed,
    /// All bytes of the chunk were written.
    WriteOk,
    /// The chunk could not be written in full.
    WriteFailed,
}

/// What the caller is to do next.
#[derive(Clone, Copy, Debug, PartialEq, Eq, Structural)]
pub enum Action {
    /// Write the first `len` bytes of the buffer to the file, all of them.
    Write { len: usize },
    /// Show the progress line for `percent`, then read the next chunk.
    Report { percent: u32 },
    /// End the progress line and announce that the download is complete.
    Finish,
    /// Give up and surface the I/O error.
    Abort,
}

/// One in-flight download.
#[derive(Debug)]
pub struct Transfer {
    /// The declared length of the body; zero when it is unknown.
    pub total_bytes: u64,
    /// The number of bytes written to the file so far.
    pub bytes_written: u64,
    /// The file that the body is written to.
    pub destination_path: String,
    /// Where the transfer stands.
    pub phase: Phase,
}

impl Transfer {
    /// The invariant of a transfer: a chunk that waits to be written is not
    /// empty and the counter has room for it.
    pub open spec fn wf(self) -> bool {
        self.phase matches Phase::Writing { len } ==> len > 0 && self.bytes_written + len
            <= u64::MAX
    }

    /// Whether the byte counter can take in what `event` brings. Only a read
    /// of more bytes than a 64-bit counter has left is ever turned away.
    pub open spec fn has_room_for(self, event: Event) -> bool {
        (self.phase == Phase::Reading && event is ReadOk) ==> self.bytes_written + event->len
            <= u64::MAX
    }

    /// The percentage that the transfer stands at.
    pub open spec fn percent(self) -> nat {
        percent_of(self.bytes_written as nat, self.total_bytes as nat)
    }

    /// The phase that follows `event`. The file is created first; then reads
    /// and writes take turns, a chunk being written before the next is read,
    /// until a read of zero bytes finishes the transfer. A failure, or an
    /// event out of turn, aborts it. A finished transfer stays finished and
    /// an aborted one aborted.
    pub open spec fn next_phase(self, event: Event) -> Phase {
        match (self.phase, event) {
            (Phase::Opening, Event::Opened) => Phase::Reading,
            (Phase::Reading, Event::ReadOk { len }) => if len == 0 {
                Phase::Finished
            } else {
                Phase::Writing { len }
            },
            (Phase::Writing { len }, Event::WriteOk) => Phase::Reading,
            (Phase::Finished, _) => Phase::Finished,
            _ => Phase::Aborted,
        }
    }

    /// The transfer after `event`: the phase moves on, a chunk that was
    /// written is counted, and nothing else changes.
    pub open spec fn after(self, event: Event) -> Transfer {
        Transfer {
            total_bytes: self.total_bytes,
            bytes_written: match (self.phase, event) {
                (Phase::Writing { len }, Event::WriteOk) => (self.bytes_written + len) as u64,
                _ => self.bytes_written,
            },
            destination_path: self.destination_path,
            phase: self.next_phase(event),
        }
    }

    /// What the caller is asked to do after `event`: what the phase that
    /// follows calls for. No event leads back to the opening phase.
    pub open spec fn action_on(self, event: Event) -> Action {
        match self.next_phase(event) {
            Phase::Writing { len } => Action::Write { len },
            Phase::Reading => Action::Report { percent: self.after(event).percent() as u32 },
            Phase::Finished => Action::Finish,
            Phase::Opening | Phase::Aborted => Action::Abort,
        }
    }

    /// Starts a transfer to `destination_path`, whose file is still to be
    /// created. A body of undeclared length has a total of zero.
    pub fn new(content_length: Option<u64>, destination_path: String) -> (transfer: Transfer)
        ensures
            transfer.total_bytes == (match content_length {
                Some(n) => n,
                None => 0,
            }),
            transfer.bytes_written == 0,
            transfer.destination_path == destination_path,
            transfer.phase == Phase::Opening,
            transfer.wf(),
    {
        let total_bytes: u64 = match content_length {
            Some(n) => n,
            None => 0,
        };
        Transfer { total_bytes, bytes_written: 0, destination_path, phase: Phase::Opening }
    }

    /// Computes [`Transfer::has_room_for`].
    pub fn can_take(&self, event: Event) -> (fits: bool)
        ensures
            fits == self.has_room_for(event),
    {
        match (self.phase, event) {
            (Phase::Reading, Event::ReadOk { len }) => len as u64 <= u64::MAX - self.bytes_written,
            _ => true,
        }
    }

    /// Takes in the outcome of the last read or write and says what to do
    /// next.
    pub fn step(&mut self, event: Event) -> (action: Action)
        requires
            old(self).wf(),
            old(self).has_room_for(event),
        ensures
            *final(self) == old(self).after(event),
            action == old(self).action_on(event),
            final(self).wf(),
    {
        match (self.phase, event) {
            (Phase::Opening, Event::Opened) => {
                self.phase = Phase::Reading;
                Action::Report { percent: percent_complete(self.bytes_written, self.total_bytes) }
            },
            (Phase::Reading, Event::ReadOk { len }) => {
                if len == 0 {
                    self.phase = Phase::Finished;
                    Action::Finish
                } else {
                    self.phase = Phase::Writing { len };
                    Action::Write { len }
                }
            },
            (Phase::Writing { len }, Event::WriteOk) => {
                self.bytes_written = self.bytes_written + len as u64;
                self.phase = Phase::Reading;
                Action::Report { percent: percent_complete(self.bytes_written, self.total_bytes) }
            },
            (Phase::Finished, _) => Action::Finish,
            _ => {
                self.phase = Phase::Aborted;
                Action::Abort
            },
        }
    }

    /// Computes [`Transfer::percent`].
    pub fn current_percent(&self) -> (percent: u32)
        ensures
            percent == self.percent(),
            percent <= 100,
    {
        percent_complete(self.bytes_written, self.total_bytes)
    }

    /// Whether nothing more is to be read or written.
    pub fn is_over(&self) -> (over: bool)
        ensures
            over == (self.phase == Phase::Finished || self.phase == Phase::Aborted),
    {
        match self.phase {
            Phase::Finished => true,
            Phase::Aborted => true,
            _ => false,
        }
    }

    /// The transfer after each of `sizes` was read as a chunk and written in
    /// full, in order.
    pub open spec fn after_chunks(self, sizes: Seq<usize>) -> Transfer
        decreases sizes.len(),
    {
        if sizes.len() == 0 {
            self
        } else {
            self.after_chunks(sizes.drop_last()).after(Event::ReadOk { len: sizes.last() }).after(
                Event::WriteOk,
            )
        }
    }

    /// What the file holds once a caller that does as it is told has gone
    /// through `chunks`: for each chunk that was read, the bytes that the
    /// transfer asked to be written, in order.
    pub open spec fn file_after(self, chunks: Seq<Seq<u8>>) -> Seq<u8>
        decreases chunks.len(),
    {
        if chunks.len() == 0 {
            Seq::empty()
        } else {
            let front = chunks.drop_last();
            let chunk = chunks.last();
            let asked = match self.after_chunks(lengths(front)).action_on(
                Event::ReadOk { len: chunk.len() as usize },
            ) {
                Action::Write { len } => chunk.take(len as int),
                _ => Seq::empty(),
            };
            self.file_after(front) + asked
        }
    }
}

/// The bytes of all chunks, one after the other.
pub open spec fn joined(chunks: Seq<Seq<u8>>) -> Seq<u8>
    decreases chunks.len(),
{
    if chunks.len() == 0 {
        Seq::empty()
    } else {
        joined(chunks.drop_last()) + chunks.last()
    }
}

/// The length of each chunk.
pub open spec fn lengths(chunks: Seq<Seq<u8>>) -> Seq<usize> {
    Seq::new(chunks.len(), |i: int| chunks[i].len() as usize)
}

/// The sum of the chunk sizes.
pub open spec fn total_len(sizes: Seq<usize>) -> nat
    decreases sizes.len(),
{
    if sizes.len() == 0 {
        0
    } else {
        total_len(sizes.drop_last()) + sizes.last() as nat
    }
}

/// No event lowers the byte counter, changes the declared total or moves the
/// destination.
pub proof fn lemma_step_keeps_course(transfer: Transfer, event: Event)
    requires
        transfer.wf(),
    ensures
        transfer.after(event).bytes_written >= transfer.bytes_written,
        transfer.after(event).total_bytes == transfer.total_bytes,
        transfer.after(event).destination_path == transfer.destination_path,
{
}

/// A read of `len > 0` bytes asks for exactly those bytes to be written, and
/// only their successful write is counted.
pub proof fn lemma_chunk_is_written_then_counted(transfer: Transfer, len: usize)
    requires
        transfer.phase == Phase::Reading,
        len > 0,
        transfer.bytes_written + len <= u64::MAX,
    ensures
        transfer.action_on(Event::ReadOk { len }) == (Action::Write { len }),
        transfer.after(Event::ReadOk { len }).bytes_written == transfer.bytes_written,
        transfer.after(Event::ReadOk { len }).after(Event::WriteOk).bytes_written
            == transfer.bytes_written + len,
        transfer.after(Event::ReadOk { len }).after(Event::WriteFailed).bytes_written
            == transfer.bytes_written,
        transfer.after(Event::ReadOk { len }).action_on(Event::WriteFailed) == Action::Abort,
{
}

/// However a body is cut into chunks, once all of them went through the
/// counter has grown by their sum and the transfer is ready for the next
/// read.
pub proof fn lemma_chunks_are_counted(transfer: Transfer, sizes: Seq<usize>)
    requires
        transfer.phase == Phase::Reading,
        forall|i: int| 0 <= i < sizes.len() ==> sizes[i] > 0,
        transfer.bytes_written + total_len(sizes) <= u64::MAX,
    ensures
        transfer.after_chunks(sizes).bytes_written == transfer.bytes_written + total_len(sizes),
        transfer.after_chunks(sizes).phase == Phase::Reading,
        transfer.after_chunks(sizes).total_bytes == transfer.total_bytes,
        transfer.after_chunks(sizes).destination_path == transfer.destination_path,
    decreases sizes.len(),
{
    if sizes.len() > 0 {
        let front = sizes.drop_last();
        assert forall|i: int| 0 <= i < front.len() implies front[i] > 0 by {
            assert(front[i] == sizes[i]);
        }
        lemma_chunks_are_counted(transfer, front);
    }
}

/// A body of the declared length, in whatever chunks it arrives, ends with a
/// report of 100 percent, and the end of the stream then finishes the
/// transfer.
pub proof fn lemma_whole_body_reports_100(transfer: Transfer, sizes: Seq<usize>)
    requires
        transfer.phase == Phase::Reading,
        transfer.bytes_written == 0,
        sizes.len() > 0,
        forall|i: int| 0 <= i < sizes.len() ==> sizes[i] > 0,
        total_len(sizes) == transfer.total_bytes,
    ensures
        transfer.after_chunks(sizes.drop_last()).after(
            Event::ReadOk { len: sizes.last() },
        ).action_on(Event::WriteOk) == (Action::Report { percent: 100 }),
        transfer.after_chunks(sizes).bytes_written == transfer.total_bytes,
        transfer.after_chunks(sizes).action_on(Event::ReadOk { len: 0 }) == Action::Finish,
{
    let front = sizes.drop_last();
    assert forall|i: int| 0 <= i < front.len() implies front[i] > 0 by {
        assert(front[i] == sizes[i]);
    }
    lemma_chunks_are_counted(transfer, front);
    lemma_chunks_are_counted(transfer, sizes);
    crate::progress::lemma_complete_reports_100(
        transfer.total_bytes as nat,
        transfer.total_bytes as nat,
    );
}

/// The chunk sizes add up to the length of the joined chunks.
proof fn lemma_lengths_add_up(chunks: Seq<Seq<u8>>)
    requires
        forall|i: int| 0 <= i < chunks.len() ==> (#[trigger] chunks[i]).len() <= usize::MAX,
    ensures
        total_len(lengths(chunks)) == joined(chunks).len(),
    decreases chunks.len(),
{
    if chunks.len() > 0 {
        let front = chunks.drop_last();
        assert(lengths(chunks).drop_last() =~= lengths(front));
        assert forall|i: int| 0 <= i < front.len() implies (#[trigger] front[i]).len()
            <= usize::MAX by {
            assert(front[i] == chunks[i]);
        }
        lemma_lengths_add_up(front);
        assert(chunks.last() == chunks[chunks.len() - 1]);
    }
}

/// In whatever chunks a body arrives, the file ends up holding the body,
/// byte for byte, and the counter its length.
pub proof fn lemma_file_is_the_body(transfer: Transfer, chunks: Seq<Seq<u8>>)
    requires
        transfer.phase == Phase::Reading,
        forall|i: int| 0 <= i < chunks.len() ==> 0 < (#[trigger] chunks[i]).len() <= usize::MAX,
        transfer.bytes_written + joined(chunks).len() <= u64::MAX,
    ensures
        transfer.file_after(chunks) == joined(chunks),
        transfer.after_chunks(lengths(chunks)).bytes_written == transfer.bytes_written + joined(
            chunks,
        ).len(),
        transfer.after_chunks(lengths(chunks)).phase == Phase::Reading,
    decreases chunks.len(),
{
    lemma_lengths_add_up(chunks);
    assert forall|i: int| 0 <= i < chunks.len() implies lengths(chunks)[i] > 0 by {
        assert(chunks[i].len() > 0);
    }
    lemma_chunks_are_counted(transfer, lengths(chunks));
    if chunks.len() > 0 {
        let front = chunks.drop_last();
        let chunk = chunks.last();
        assert(chunk == chunks[chunks.len() - 1]);
        assert forall|i: int| 0 <= i < front.len() implies 0 < (#[trigger] front[i]).len()
            <= usize::MAX by {
            assert(front[i] == chunks[i]);
        }
        lemma_file_is_the_body(transfer, front);
        assert(chunk.take(chunk.len() as int) =~= chunk);
    }
}

/// A body of the declared length `L > 0`, cut into chunks in any way, gives a
/// file that is the body itself and a last report of 100 percent.
pub proof fn lemma_download_round_trip(transfer: Transfer, body: Seq<u8>, chunks: Seq<Seq<u8>>)
    requires
        transfer.phase == Phase::Reading,
        transfer.bytes_written == 0,
        transfer.total_bytes == body.len(),
        body.len() > 0,
        joined(chunks) == body,
        forall|i: int| 0 <= i < chunks.len() ==> 0 < (#[trigger] chunks[i]).len() <= usize::MAX,
    ensures
        transfer.file_after(chunks) == body,
        chunks.len() > 0,
        transfer.after_chunks(lengths(chunks.drop_last())).after(
            Event::ReadOk { len: chunks.last().len() as usize },
        ).action_on(Event::WriteOk) == (Action::Report { percent: 100 }),
{
    lemma_file_is_the_body(transfer, chunks);
    lemma_lengths_add_up(chunks);
    let sizes = lengths(chunks);
    assert forall|i: int| 0 <= i < sizes.len() implies sizes[i] > 0 by {
        assert(chunks[i].len() > 0);
    }
    assert(sizes.drop_last() =~= lengths(chunks.drop_last()));
    lemma_whole_body_reports_100(transfer, sizes);
}

/// Nothing is read or written before the file exists: a new transfer asks
/// for a write or counts a byte only after it was told that the file was
/// created, and then it first shows the bar at its current standing.
pub proof fn lemma_file_comes_first(transfer: Transfer, event: Event)
    requires
        transfer.phase == Phase::Opening,
    ensures
        !(transfer.action_on(event) is Write),
        transfer.after(event).bytes_written == transfer.bytes_written,
        event == Event::Opened ==> transfer.after(event).phase == Phase::Reading
            && transfer.action_on(event) == (Action::Report { percent: transfer.percent() as u32 }),
        event != Event::Opened ==> transfer.after(event).phase == Phase::Aborted
            && transfer.action_on(event) == Action::Abort,
{
}

/// While the declared length is unknown, every report says zero percent.
pub proof fn lemma_unknown_length_reports_zero(transfer: Transfer, event: Event)
    requires
        transfer.total_bytes == 0,
        transfer.action_on(event) is Report,
    ensures
        transfer.action_on(event) == (Action::Report { percent: 0 }),
{
}

} // verus!
