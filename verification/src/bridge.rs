//! The pass-through stream bridge: the per-event decisions of the two byte
//! pumps that tie an HTTP request/response pair to a child's stdio. The pumps'
//! awaiting and writing happen outside; this module decides, for each event,
//! what is written where, and keeps the ghost tally showing that bytes flow
//! through unchanged.

use vstd::prelude::*;

verus! {

/// One thing the upload pump can observe on the request body.
pub enum UploadEvent {
    /// A data frame arrived.
    Frame(Vec<u8>),
    /// A non-data frame (trailers) arrived.
    NonData,
    /// Reading the body failed.
    ReadError,
    /// The body is exhausted.
    Exhausted,
}

/// What the upload pump does in response.
pub enum UploadAction {
    /// Write exactly these bytes to the child's stdin.
    Write(Vec<u8>),
    /// Write nothing and keep pumping.
    Skip,
    /// Stop silently; the error is not surfaced to the client.
    Stop,
    /// Drop stdin, signalling end of input to the child.
    CloseStdin,
}

/// The upload pump: request-body frames go to the child's stdin verbatim, in
/// order, and stdin is closed exactly when the body is exhausted.
pub struct UploadPump {
    done: bool,
    written: Ghost<Seq<u8>>,
}

impl UploadPump {
    /// Every byte this pump has ordered written to stdin, in order.
    pub closed spec fn written_bytes(&self) -> Seq<u8> {
        self.written@
    }

    /// Whether the pump has stopped (error) or closed stdin (exhausted body).
    pub closed spec fn is_done(&self) -> bool {
        self.done
    }

    pub fn new() -> (r: UploadPump)
        ensures
            !r.is_done(),
            r.written_bytes() == Seq::<u8>::empty(),
    {
        UploadPump { done: false, written: Ghost(Seq::empty()) }
    }

    /// Decide on one body event. A data frame is written to stdin exactly as
    /// it arrived; exhaustion closes stdin; a read error stops the pump
    /// silently; a non-data frame carries no bytes and is skipped.
    pub fn on_event(&mut self, ev: UploadEvent) -> (a: UploadAction)
        requires
            !old(self).is_done(),
        ensures
            ev matches UploadEvent::Frame(d) ==> (a matches UploadAction::Write(w) && w@ == d@
                && final(self).written_bytes() == old(self).written_bytes() + d@
                && !final(self).is_done()),
            ev is NonData ==> a is Skip && final(self).written_bytes()
                == old(self).written_bytes() && !final(self).is_done(),
            ev is ReadError ==> a is Stop && final(self).written_bytes()
                == old(self).written_bytes() && final(self).is_done(),
            ev is Exhausted ==> a is CloseStdin && final(self).written_bytes()
                == old(self).written_bytes() && final(self).is_done(),
    {
        match ev {
            UploadEvent::Frame(d) => {
                proof {
                    self.written@ = self.written@ + d@;
                }
                UploadAction::Write(d)
            },
            UploadEvent::NonData => UploadAction::Skip,
            UploadEvent::ReadError => {
                self.done = true;
                UploadAction::Stop
            },
            UploadEvent::Exhausted => {
                self.done = true;
                UploadAction::CloseStdin
            },
        }
    }
}

/// Feed a whole request body through the upload pump: every data frame in
/// order, then exhaustion. What the pump orders written to stdin is exactly
/// the body's bytes, and each returned write is its frame verbatim.
pub fn upload_body(pump: &mut UploadPump, frames: &Vec<Vec<u8>>) -> (writes: Vec<Vec<u8>>)
    requires
        !old(pump).is_done(),
    ensures
        final(pump).written_bytes() == old(pump).written_bytes()
            + frames.deep_view().flatten(),
        final(pump).is_done(),
        writes.deep_view() == frames.deep_view(),
{
    let ghost start = pump.written_bytes();
    let ghost all = frames.deep_view();
    let mut writes: Vec<Vec<u8>> = Vec::new();
    let mut i: usize = 0;
    while i < frames.len()
        invariant
            i <= frames@.len(),
            all == frames.deep_view(),
            all.len() == frames@.len(),
            forall|j: int| 0 <= j < all.len() ==> all[j] == frames@[j]@,
            !pump.is_done(),
            pump.written_bytes() == start + all.subrange(0, i as int).flatten(),
            writes.deep_view() == all.subrange(0, i as int),
        decreases frames@.len() - i,
    {
        let a = pump.on_event(UploadEvent::Frame(frames[i].clone()));
        match a {
            UploadAction::Write(w) => {
                writes.push(w);
            },
            _ => {
                proof {
                    assert(false);
                }
            },
        }
        proof {
            all.subrange(0, i as int).lemma_flatten_push(all[i as int]);
            assert(all.subrange(0, i + 1) =~= all.subrange(0, i as int).push(all[i as int]));
            assert(writes.deep_view() =~= all.subrange(0, i + 1));
        }
        i = i + 1;
    }
    assert(all.subrange(0, frames@.len() as int) =~= all);
    let _closing = pump.on_event(UploadEvent::Exhausted);
    writes
}

/// The download pump: every chunk the child's stdout produces becomes a
/// response-body frame with the same bytes, as soon as it is produced.
pub struct DownloadPump {
    forwarded: Ghost<Seq<u8>>,
}

impl DownloadPump {
    /// Every byte this pump has forwarded to the response body, in order.
    pub closed spec fn forwarded_bytes(&self) -> Seq<u8> {
        self.forwarded@
    }

    pub fn new() -> (r: DownloadPump)
        ensures
            r.forwarded_bytes() == Seq::<u8>::empty(),
    {
        DownloadPump { forwarded: Ghost(Seq::empty()) }
    }

    /// Frame one stdout chunk for the response body, unchanged.
    pub fn on_chunk(&mut self, chunk: Vec<u8>) -> (frame: Vec<u8>)
        ensures
            frame@ == chunk@,
            final(self).forwarded_bytes() == old(self).forwarded_bytes() + chunk@,
    {
        proof {
            self.forwarded@ = self.forwarded@ + chunk@;
        }
        chunk
    }
}

/// Assemble a whole response body from the child's stdout chunks: every chunk
/// in order, verbatim. The body is exactly the chunks' bytes — with an echoing
/// child, whose stdout is what `upload_body` wrote, exactly the request body.
pub fn download_body(pump: &mut DownloadPump, chunks: &Vec<Vec<u8>>) -> (body: Vec<u8>)
    ensures
        body@ == chunks.deep_view().flatten(),
        final(pump).forwarded_bytes() == old(pump).forwarded_bytes()
            + chunks.deep_view().flatten(),
{
    let ghost start = pump.forwarded_bytes();
    let ghost all = chunks.deep_view();
    let mut body: Vec<u8> = Vec::new();
    let mut i: usize = 0;
    while i < chunks.len()
        invariant
            i <= chunks@.len(),
            all == chunks.deep_view(),
            all.len() == chunks@.len(),
            forall|j: int| 0 <= j < all.len() ==> all[j] == chunks@[j]@,
            body@ == all.subrange(0, i as int).flatten(),
            pump.forwarded_bytes() == start + all.subrange(0, i as int).flatten(),
        decreases chunks@.len() - i,
    {
        let frame = pump.on_chunk(chunks[i].clone());
        let mut j: usize = 0;
        while j < frame.len()
            invariant
                j <= frame@.len(),
                frame@ == all[i as int],
                i < all.len(),
                body@ == all.subrange(0, i as int).flatten() + frame@.subrange(0, j as int),
            decreases frame@.len() - j,
        {
            body.push(frame[j]);
            j = j + 1;
            assert(frame@.subrange(0, j as int) == frame@.subrange(0, j - 1) + seq![
                frame@[j - 1],
            ]);
        }
        proof {
            assert(frame@.subrange(0, frame@.len() as int) =~= frame@);
            all.subrange(0, i as int).lemma_flatten_push(all[i as int]);
            assert(all.subrange(0, i + 1) =~= all.subrange(0, i as int).push(all[i as int]));
        }
        i = i + 1;
    }
    assert(all.subrange(0, chunks@.len() as int) =~= all);
    body
}

} // verus!
