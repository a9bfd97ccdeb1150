//! Framing of device responses.
//!
//! The protocol has no length prefix or delimiter for responses. A response
//! is taken to be complete at the first of: a read that returns no bytes
//! (the peer closed), a read of more than one byte whose last byte is `"`
//! (textual answers are quoted), or a read that times out. A read of a single
//! byte never completes the response, even when that byte is `"`.
use vstd::prelude::*;

use crate::text::append_bytes;

verus! {

/// The double-quote byte.
pub const QUOTE: u8 = 34;

/// Whether a chunk just read completes the response.
pub open spec fn ends_response(chunk: Seq<u8>) -> bool {
    chunk.len() > 1 && chunk.last() == QUOTE
}

/// Whether `chunk`, the bytes of one read, completes the response.
pub fn response_complete(chunk: &[u8]) -> (r: bool)
    ensures
        r == ends_response(chunk@),
{
    chunk.len() > 1 && chunk[chunk.len() - 1] == QUOTE
}

/// What one read of the connection gave.
pub enum ReadEvent {
    /// The read returned these bytes; none means the peer closed.
    Data(Vec<u8>),
    /// No byte arrived within the read timeout.
    TimedOut,
}

/// Whether a read outcome ends the response.
pub open spec fn event_ends(e: ReadEvent) -> bool {
    match e {
        ReadEvent::Data(d) => d@.len() == 0 || ends_response(d@),
        ReadEvent::TimedOut => true,
    }
}

/// The bytes a read outcome contributes to the response.
pub open spec fn event_bytes(e: ReadEvent) -> Seq<u8> {
    match e {
        ReadEvent::Data(d) => d@,
        ReadEvent::TimedOut => Seq::empty(),
    }
}

/// The response framed from the outcomes of successive reads: the bytes of
/// every read up to and including the first that ends it (all of them when
/// none does).
pub open spec fn response_from(events: Seq<ReadEvent>) -> Seq<u8>
    decreases events.len(),
{
    if events.len() == 0 {
        Seq::empty()
    } else if event_ends(events[0]) {
        event_bytes(events[0])
    } else {
        event_bytes(events[0]) + response_from(events.drop_first())
    }
}

/// Whether none of the read outcomes ends the response.
pub open spec fn none_ends(events: Seq<ReadEvent>) -> bool {
    forall|i: int| 0 <= i < events.len() ==> !event_ends(#[trigger] events[i])
}

/// While no read has ended the response, one more read adds its bytes.
pub proof fn lemma_response_from_push(events: Seq<ReadEvent>, e: ReadEvent)
    requires
        none_ends(events),
    ensures
        response_from(events.push(e)) == response_from(events) + event_bytes(e),
    decreases events.len(),
{
    if events.len() == 0 {
        assert(events.push(e).drop_first() =~= Seq::<ReadEvent>::empty());
        assert(events.push(e)[0] == e);
        assert(response_from(Seq::<ReadEvent>::empty()) == Seq::<u8>::empty());
        assert(response_from(events.push(e)) =~= event_bytes(e));
    } else {
        assert(events.push(e)[0] == events[0]);
        assert(events.push(e).drop_first() =~= events.drop_first().push(e));
        assert(!event_ends(events[0]));
        lemma_response_from_push(events.drop_first(), e);
        assert(response_from(events.push(e)) =~= response_from(events) + event_bytes(e));
    }
}

/// Accumulates the reads of one response until it is complete.
pub struct ResponseReader {
    received: Vec<u8>,
    done: bool,
    events: Ghost<Seq<ReadEvent>>,
}

impl ResponseReader {
    /// The bytes received so far.
    pub closed spec fn received(&self) -> Seq<u8> {
        self.received@
    }

    /// Whether the response is complete.
    pub closed spec fn done(&self) -> bool {
        self.done
    }

    /// The outcomes of the reads taken in so far, oldest first.
    pub closed spec fn events(&self) -> Seq<ReadEvent> {
        self.events@
    }

    /// The bytes received are the response framed from the reads taken in,
    /// and the response is complete exactly when one of them ended it.
    pub open spec fn wf(&self) -> bool {
        &&& self.received() == response_from(self.events())
        &&& self.done() != none_ends(self.events())
    }

    /// A reader that has received nothing.
    pub fn new() -> (r: Self)
        ensures
            r.wf(),
            r.events() == Seq::<ReadEvent>::empty(),
            r.received() == Seq::<u8>::empty(),
            !r.done(),
    {
        ResponseReader { received: Vec::new(), done: false, events: Ghost(Seq::empty()) }
    }

    /// Whether the response is complete, so that no more reads are due.
    pub fn is_done(&self) -> (r: bool)
        ensures
            r == self.done(),
    {
        self.done
    }

    /// Takes in the outcome of one more read.
    pub fn on_event(&mut self, event: ReadEvent)
        requires
            old(self).wf(),
            !old(self).done(),
        ensures
            final(self).wf(),
            final(self).events() == old(self).events().push(event),
            final(self).received() == old(self).received() + event_bytes(event),
            final(self).done() == event_ends(event),
    {
        let ghost e = event;
        proof {
            lemma_response_from_push(self.events@, e);
        }
        match event {
            ReadEvent::Data(chunk) => {
                let ends = chunk.len() == 0 || response_complete(chunk.as_slice());
                append_bytes(&mut self.received, chunk.as_slice());
                self.done = ends;
            },
            ReadEvent::TimedOut => {
                self.done = true;
                assert(self.received@ =~= old(self).received@ + Seq::<u8>::empty());
            },
        }
        self.events = Ghost(self.events@.push(e));
        proof {
            let evs = self.events@;
            if !event_ends(e) {
                assert forall|i: int| 0 <= i < evs.len() implies !event_ends(#[trigger] evs[i]) by {
                    if i < evs.len() - 1 {
                        assert(evs[i] == old(self).events@[i]);
                    }
                }
            } else {
                assert(evs[evs.len() - 1] == e);
            }
        }
    }

    /// The bytes received, which form the response once it is complete.
    pub fn into_response(self) -> (r: Vec<u8>)
        ensures
            r@ == self.received(),
    {
        self.received
    }
}

} // verus!
