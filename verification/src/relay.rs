//! Decisions of the bidirectional relay.
//!
//! After a successful CONNECT the gateway copies bytes in both directions:
//! client to destination and destination to client. Each direction hands
//! every read result to [`RelaySession::on_copy_event`]: a chunk of data is
//! forwarded exactly as it was read, and end-of-stream or a read error stops
//! the copying and ends the whole session. The session is over as soon as
//! either direction finishes; the caller must then tear both directions down
//! rather than wait for the other side to drain.

use vstd::prelude::*;

verus! {

/// One copy direction of the relay.
#[derive(Debug, Clone, Copy, PartialEq, Eq, Structural)]
pub enum Direction {
    ClientToDestination,
    DestinationToClient,
}

/// What one read on a direction's source produced.
pub enum CopyEvent {
    /// A chunk of bytes was read.
    Data { chunk: Vec<u8> },
    /// The source reached end-of-stream.
    Eof,
    /// The read failed.
    ReadError,
}

/// What the direction must do with the read result.
pub enum CopyAction {
    /// Write exactly these bytes to the direction's sink, then read again.
    Forward { chunk: Vec<u8> },
    /// Stop copying; the session is over.
    Stop,
}

/// The state of one relay session: which directions have finished.
pub struct RelaySession {
    pub client_to_destination_done: bool,
    pub destination_to_client_done: bool,
}

impl RelaySession {
    /// The session ends as soon as either direction has finished, whether by
    /// end-of-stream or by an error; it never waits for the second direction
    /// to drain.
    pub open spec fn over(&self) -> bool {
        self.client_to_destination_done || self.destination_to_client_done
    }

    pub open spec fn spec_done(&self, dir: Direction) -> bool {
        match dir {
            Direction::ClientToDestination => self.client_to_destination_done,
            Direction::DestinationToClient => self.destination_to_client_done,
        }
    }

    /// A fresh session: both directions still copying.
    pub fn new() -> (s: Self)
        ensures
            !s.client_to_destination_done,
            !s.destination_to_client_done,
            !s.over(),
    {
        RelaySession { client_to_destination_done: false, destination_to_client_done: false }
    }

    /// Whether the session is over and both directions must be torn down.
    pub fn is_over(&self) -> (r: bool)
        ensures
            r == self.over(),
    {
        self.client_to_destination_done || self.destination_to_client_done
    }

    /// Decides what direction `dir` does with its read result: a chunk is
    /// forwarded unmodified, and end-of-stream or a read error marks the
    /// direction finished — which ends the session — and stops the copying.
    pub fn on_copy_event(&mut self, dir: Direction, ev: CopyEvent) -> (a: CopyAction)
        requires
            !old(self).over(),
        ensures
            match ev {
                CopyEvent::Data { chunk } => {
                    &&& a matches CopyAction::Forward { chunk: out } && out@ == chunk@
                    &&& *final(self) == *old(self)
                    &&& !final(self).over()
                },
                _ => {
                    &&& a matches CopyAction::Stop
                    &&& final(self).spec_done(dir)
                    &&& final(self).over()
                },
            },
    {
        match ev {
            CopyEvent::Data { chunk } => CopyAction::Forward { chunk },
            _ => {
                match dir {
                    Direction::ClientToDestination => {
                        self.client_to_destination_done = true;
                    },
                    Direction::DestinationToClient => {
                        self.destination_to_client_done = true;
                    },
                }
                CopyAction::Stop
            },
        }
    }
}

/// The bytes of a sequence of chunks, in order.
pub open spec fn concat_chunks(chunks: Seq<Seq<u8>>) -> Seq<u8>
    decreases chunks.len(),
{
    if chunks.len() == 0 {
        Seq::empty()
    } else {
        chunks[0] + concat_chunks(chunks.drop_first())
    }
}

/// Bytes cross the relay unmodified and in order: when every chunk a
/// direction forwarded equals the chunk it read — as
/// [`RelaySession::on_copy_event`] guarantees of each read — the whole byte
/// stream written to the sink equals the whole byte stream read from the
/// source.
pub proof fn lemma_relay_preserves_stream(read: Seq<Seq<u8>>, forwarded: Seq<Seq<u8>>)
    requires
        read.len() == forwarded.len(),
        forall|i: int| 0 <= i < read.len() ==> read[i] == forwarded[i],
    ensures
        concat_chunks(forwarded) == concat_chunks(read),
    decreases read.len(),
{
    if read.len() == 0 {
    } else {
        assert(forwarded[0] == read[0]);
        lemma_relay_preserves_stream(read.drop_first(), forwarded.drop_first());
    }
}

} // verus!
