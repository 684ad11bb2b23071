//! Playback: moving samples from the requests of a stream into its pipeline.
//!
//! Reading the guest's memory and pushing buffers into the pipeline happen
//! elsewhere. `write_samples_gstreamer` says which of the two comes next, is
//! told how it went, and keeps the stream's requests up to date.

use crate::stream::{Request, Stream};
use std::collections::VecDeque;
use vstd::prelude::*;

verus! {

/// How far the samples of a stream have been written.
#[derive(Debug, Clone, Copy, PartialEq, Eq, Structural)]
pub struct WriteState {
    /// Whether the pipeline has taken samples.
    pub has_data: bool,
    /// Number of bytes read last.
    pub read_bytes: u32,
}

/// What has happened.
#[derive(Debug, PartialEq, Eq)]
pub enum SampleEvent {
    /// There are requests to look at.
    Begin,
    /// The guest's memory could not be read.
    ReadFailed,
    /// `count` bytes at the start of `buffer` came from the guest.
    Read { buffer: Vec<u8>, count: u32 },
    /// The pipeline took the buffer.
    Pushed,
    /// The pipeline refused the buffer.
    PushFailed,
}

/// What to do next.
#[derive(Debug, PartialEq, Eq)]
pub enum SampleAction {
    /// Fill `buffer` from the first request, starting `pos` bytes into it.
    ReadOutput { pos: usize, buffer: Vec<u8> },
    /// Push these bytes into the pipeline.
    Push(Vec<u8>),
    /// Stop; the value says whether it is worth going on with the stream.
    Return(bool),
}

/// What has happened, for specifications.
pub enum Reply {
    Begin,
    ReadFailed,
    Read { buffer: Seq<u8>, count: u32 },
    Pushed,
    PushFailed,
}

/// What to do next, for specifications.
pub enum Ask {
    ReadOutput { pos: usize, buffer: Seq<u8> },
    Push(Seq<u8>),
    Return(bool),
}

impl View for SampleEvent {
    type V = Reply;

    open spec fn view(&self) -> Reply {
        match *self {
            SampleEvent::Begin => Reply::Begin,
            SampleEvent::ReadFailed => Reply::ReadFailed,
            SampleEvent::Read { buffer, count } => Reply::Read { buffer: buffer@, count },
            SampleEvent::Pushed => Reply::Pushed,
            SampleEvent::PushFailed => Reply::PushFailed,
        }
    }
}

impl View for SampleAction {
    type V = Ask;

    open spec fn view(&self) -> Ask {
        match *self {
            SampleAction::ReadOutput { pos, buffer } => Ask::ReadOutput { pos, buffer: buffer@ },
            SampleAction::Push(buffer) => Ask::Push(buffer@),
            SampleAction::Return(more) => Ask::Return(more),
        }
    }
}

/// What is left of a queue once the completed requests at its head are gone.
pub open spec fn pending<M>(queue: Seq<Request<M>>) -> Seq<Request<M>>
    decreases queue.len(),
{
    if queue.len() > 0 && queue[0].remaining() == 0 {
        pending(queue.skip(1))
    } else {
        queue
    }
}

/// `n` zero bytes.
pub open spec fn zeros(n: nat) -> Seq<u8> {
    Seq::new(n, |i: int| 0u8)
}

/// The requests of a stream together with how far they have been written.
#[verifier::ext_equal]
pub struct Samples<M> {
    pub queue: Seq<Request<M>>,
    pub has_data: bool,
    pub read_bytes: u32,
}

/// The samples of a stream.
pub open spec fn samples<M>(stream: Stream<M>, state: WriteState) -> Samples<M> {
    Samples {
        queue: stream.requests@,
        has_data: state.has_data,
        read_bytes: state.read_bytes,
    }
}

impl<M> Samples<M> {
    /// Drops completed requests, then asks for all that is left of the first
    /// one; with no request left, reports whether samples were taken.
    pub open spec fn proceed(self) -> (Samples<M>, Ask) {
        let queue = pending(self.queue);
        let ask = if queue.len() > 0 {
            Ask::ReadOutput { pos: queue[0].pos, buffer: zeros(queue[0].remaining()) }
        } else {
            Ask::Return(self.has_data)
        };
        (Samples { queue, ..self }, ask)
    }

    /// Goes on to the next request only if the first one is complete.
    pub open spec fn settle(self) -> (Samples<M>, Ask) {
        if self.queue[0].remaining() == 0 {
            self.proceed()
        } else {
            (self, Ask::Return(self.has_data))
        }
    }

    /// The first request advanced by the number of bytes read last.
    pub open spec fn advanced(self) -> Seq<Request<M>> {
        let first = self.queue[0];
        self.queue.update(0, Request { pos: (first.pos + self.read_bytes) as usize, ..first })
    }

    /// What becomes of the samples, and what comes next, after `reply`.
    pub open spec fn after(self, reply: Reply) -> (Samples<M>, Ask) {
        match reply {
            Reply::Begin => Samples { has_data: false, read_bytes: 0, ..self }.proceed(),
            Reply::ReadFailed => (Samples { queue: self.queue.skip(1), ..self }, Ask::Return(true)),
            Reply::Read { buffer, count } => {
                let read = Samples { read_bytes: count, ..self };
                if count == 0 {
                    read.settle()
                } else if count < buffer.len() {
                    (read, Ask::Push(buffer.take(count as int)))
                } else {
                    (read, Ask::Push(buffer))
                }
            },
            Reply::Pushed => Samples { queue: self.advanced(), has_data: true, ..self }.settle(),
            Reply::PushFailed => (self, Ask::Return(false)),
        }
    }
}

/// A buffer of `n` zero bytes.
fn zero_buffer(n: usize) -> (r: Vec<u8>)
    ensures
        r@ == zeros(n as nat),
{
    vec![0u8; n]
}

/// Drops completed requests and asks for all that is left of the first one.
fn proceed<M>(requests: &mut VecDeque<Request<M>>, has_data: bool) -> (r: SampleAction)
    ensures
        ({
            let before = Samples { queue: old(requests)@, has_data, read_bytes: 0 };
            &&& final(requests)@ == before.proceed().0.queue
            &&& r@ == before.proceed().1
        }),
        r is ReadOutput ==> final(requests)@.len() > 0 && r->pos == final(requests)@[0].pos
            && r->buffer@.len() == final(requests)@[0].len - final(requests)@[0].pos,
{
    while requests.len() > 0
        invariant
            pending(requests@) == pending(old(requests)@),
        decreases requests.len(),
    {
        let pos: usize = requests[0].pos;
        let len: usize = requests[0].len;
        if pos < len {
            return SampleAction::ReadOutput { pos, buffer: zero_buffer(len - pos) };
        }
        let ghost queue = requests@;
        let _ = requests.pop_front();
        assert(requests@ == queue.skip(1));
    }
    SampleAction::Return(has_data)
}

/// Takes note of `event` and says what comes next.
///
/// The first call is made with `SampleEvent::Begin`, each later one with the
/// outcome of the action that the call before returned.
pub fn write_samples_gstreamer<M>(
    stream: &mut Stream<M>,
    state: &mut WriteState,
    event: SampleEvent,
) -> (r: SampleAction)
    requires
        event is ReadFailed || event is Read || event is Pushed ==> old(stream).requests@.len() > 0,
        event is Pushed ==> old(stream).requests@[0].pos + old(state).read_bytes <= usize::MAX,
    ensures
        *final(stream) == (Stream { requests: final(stream).requests, ..*old(stream) }),
        samples(*final(stream), *final(state)) == samples(*old(stream), *old(state)).after(event@).0,
        r is ReadOutput ==> final(stream).requests@.len() > 0 && r->pos
            == final(stream).requests@[0].pos && r->buffer@.len() == final(stream).requests@[0].len
            - final(stream).requests@[0].pos,
        event is Read && event->count > 0 ==> r is Push && r->Push_0@ == if event->count
            <= event->buffer@.len() {
            event->buffer@.subrange(0, event->count as int)
        } else {
            event->buffer@
        },
        event is PushFailed ==> final(stream).requests@ == old(stream).requests@ && r
            == SampleAction::Return(false),
        r@ == samples(*old(stream), *old(state)).after(event@).1,
{
    match event {
        SampleEvent::Begin => {
            state.has_data = false;
            state.read_bytes = 0;
            proceed(&mut stream.requests, false)
        },
        SampleEvent::ReadFailed => {
            let _ = stream.requests.pop_front();
            assert(stream.requests@ == old(stream).requests@.skip(1));
            SampleAction::Return(true)
        },
        SampleEvent::Read { buffer, count } => {
            state.read_bytes = count;
            if count > 0 {
                let mut buffer = buffer;
                let ghost filled = buffer@;
                buffer.truncate(count as usize);
                assert(count < filled.len() ==> buffer@ == filled.take(count as int));
                assert(count >= filled.len() ==> buffer@ == filled);
                SampleAction::Push(buffer)
            } else if stream.requests[0].pos >= stream.requests[0].len {
                proceed(&mut stream.requests, state.has_data)
            } else {
                SampleAction::Return(state.has_data)
            }
        },
        SampleEvent::Pushed => {
            state.has_data = true;
            match stream.requests.pop_front() {
                Some(request) => {
                    let mut request = request;
                    request.pos = request.pos + state.read_bytes as usize;
                    let complete = request.pos >= request.len;
                    stream.requests.push_front(request);
                    assert(stream.requests@ == samples(*old(stream), *old(state)).advanced());
                    if complete {
                        proceed(&mut stream.requests, true)
                    } else {
                        SampleAction::Return(true)
                    }
                },
                None => SampleAction::Return(true),
            }
        },
        SampleEvent::PushFailed => SampleAction::Return(false),
    }
}

/// Whether `reply` tells how `ask` went. A read fills at most the buffer.
pub open spec fn answers(reply: Reply, ask: Ask) -> bool {
    match ask {
        Ask::ReadOutput { pos, buffer } => match reply {
            Reply::ReadFailed => true,
            Reply::Read { buffer: filled, count } => filled.len() == buffer.len() && count
                <= buffer.len(),
            _ => false,
        },
        Ask::Push(_) => reply is Pushed || reply is PushFailed,
        Ask::Return(_) => false,
    }
}

impl<M> Samples<M> {
    /// Whether `ask` is about the first request as it stands.
    pub open spec fn in_step(self, ask: Ask) -> bool {
        match ask {
            Ask::ReadOutput { pos, buffer } => {
                &&& self.queue.len() > 0
                &&& self.queue[0].remaining() > 0
                &&& pos == self.queue[0].pos
                &&& buffer == zeros(self.queue[0].remaining())
            },
            Ask::Push(buffer) => {
                &&& self.queue.len() > 0
                &&& 0 < self.read_bytes <= self.queue[0].remaining()
                &&& buffer.len() == self.read_bytes
            },
            Ask::Return(_) => true,
        }
    }

    /// Whether `replies` answer `ask` and all that is asked after it, in order.
    pub open spec fn proper(self, ask: Ask, replies: Seq<Reply>) -> bool
        decreases replies.len(),
    {
        replies.len() > 0 ==> {
            let (next, next_ask) = self.after(replies[0]);
            answers(replies[0], ask) && next.proper(next_ask, replies.skip(1))
        }
    }

    /// The samples and the open question after `replies`.
    pub open spec fn run(self, ask: Ask, replies: Seq<Reply>) -> (Samples<M>, Ask)
        decreases replies.len(),
    {
        if replies.len() == 0 {
            (self, ask)
        } else {
            let (next, next_ask) = self.after(replies[0]);
            next.run(next_ask, replies.skip(1))
        }
    }

    /// The bytes that the pipeline takes in the course of `replies`.
    pub open spec fn pushed(self, ask: Ask, replies: Seq<Reply>) -> Seq<u8>
        decreases replies.len(),
    {
        if replies.len() == 0 {
            seq![]
        } else {
            let (next, next_ask) = self.after(replies[0]);
            let taken = if replies[0] is Pushed {
                ask->Push_0
            } else {
                seq![]
            };
            taken + next.pushed(next_ask, replies.skip(1))
        }
    }

    /// Number of bytes given up, because they could not be read, in the course
    /// of `replies`.
    pub open spec fn lost(self, replies: Seq<Reply>) -> nat
        decreases replies.len(),
    {
        if replies.len() == 0 {
            0
        } else {
            let given_up = if replies[0] is ReadFailed {
                self.queue[0].remaining()
            } else {
                0
            };
            given_up + self.after(replies[0]).0.lost(replies.skip(1))
        }
    }
}

/// Number of bytes that wait in a queue.
pub open spec fn total<M>(queue: Seq<Request<M>>) -> nat
    decreases queue.len(),
{
    if queue.len() == 0 {
        0
    } else {
        queue[0].remaining() + total(queue.skip(1))
    }
}

/// The work that a queue stands for: its bytes, and one unit per request.
pub open spec fn backlog<M>(queue: Seq<Request<M>>) -> nat {
    total(queue) + queue.len()
}

/// Whether `later` is what remains of `queue` after requests left it at the
/// head, and the request that is now first may have moved on.
pub open spec fn drawn_from<M>(later: Seq<Request<M>>, queue: Seq<Request<M>>) -> bool {
    let gone = queue.len() - later.len();
    &&& gone >= 0
    &&& forall|i: int| 0 < i < later.len() ==> #[trigger] later[i] == queue[gone + i]
    &&& later.len() > 0 ==> {
        &&& later[0].message == queue[gone].message
        &&& later[0].len == queue[gone].len
        &&& later[0].pos >= queue[gone].pos
    }
}

/// What dropping completed requests does to a queue.
proof fn lemma_pending<M>(queue: Seq<Request<M>>)
    ensures
        pending(queue).len() <= queue.len(),
        pending(queue).len() > 0 ==> pending(queue)[0].remaining() > 0,
        pending(queue) == queue.skip(queue.len() - pending(queue).len()),
        total(pending(queue)) == total(queue),
    decreases queue.len(),
{
    if queue.len() > 0 && queue[0].remaining() == 0 {
        lemma_pending(queue.skip(1));
        let k = queue.skip(1).len() - pending(queue).len();
        assert(queue.skip(1).skip(k) == queue.skip(1 + k));
    } else {
        assert(queue.skip(0) == queue);
    }
}

/// The question asked after each reply is about the first request as it
/// stands, and the call that passes the reply on is a permitted one.
pub proof fn lemma_in_step<M>(s: Samples<M>, ask: Ask, reply: Reply)
    requires
        reply is Begin || s.in_step(ask) && answers(reply, ask),
    ensures
        s.after(reply).0.in_step(s.after(reply).1),
        reply is ReadFailed || reply is Read || reply is Pushed ==> s.queue.len() > 0,
        reply is Pushed ==> s.queue[0].pos + s.read_bytes <= usize::MAX,
{
    lemma_pending(s.queue);
    lemma_pending(s.advanced());
}

/// One reply keeps the books: bytes leave the queue only into the pipeline or
/// because they cannot be read.
proof fn lemma_step_accounts<M>(s: Samples<M>, ask: Ask, reply: Reply)
    requires
        s.in_step(ask),
        answers(reply, ask),
    ensures
        total(s.queue) == total(s.after(reply).0.queue) + (if reply is Pushed {
            ask->Push_0.len()
        } else {
            0
        }) + (if reply is ReadFailed {
            s.queue[0].remaining()
        } else {
            0
        }),
{
    if reply is Pushed {
        lemma_pending(s.advanced());
        assert(s.advanced().skip(1) == s.queue.skip(1));
    } else if reply is Read {
        lemma_pending(s.queue);
    }
}

/// Every byte that leaves the queue while replies come in went into the
/// pipeline or was given up because it could not be read.
pub proof fn lemma_bytes_accounted_for<M>(s: Samples<M>, ask: Ask, replies: Seq<Reply>)
    requires
        s.in_step(ask),
        s.proper(ask, replies),
    ensures
        total(s.queue) == total(s.run(ask, replies).0.queue) + s.pushed(ask, replies).len()
            + s.lost(replies),
    decreases replies.len(),
{
    if replies.len() > 0 {
        let (next, next_ask) = s.after(replies[0]);
        lemma_step_accounts(s, ask, replies[0]);
        lemma_in_step(s, ask, replies[0]);
        lemma_bytes_accounted_for(next, next_ask, replies.skip(1));
    }
}

/// One step draws on the queue from its head only.
proof fn lemma_step_drawn_from<M>(s: Samples<M>, ask: Ask, reply: Reply)
    requires
        reply is Begin || s.in_step(ask) && answers(reply, ask),
    ensures
        drawn_from(s.after(reply).0.queue, s.queue),
{
    lemma_pending(s.queue);
    lemma_pending(s.advanced());
}

/// Beginning a round draws on the queue from its head only.
pub proof fn lemma_begin_drawn_from<M>(s: Samples<M>)
    ensures
        drawn_from(s.after(Reply::Begin).0.queue, s.queue),
{
    lemma_step_drawn_from(s, Ask::Return(false), Reply::Begin);
}

proof fn lemma_drawn_from_transitive<M>(
    a: Seq<Request<M>>,
    b: Seq<Request<M>>,
    c: Seq<Request<M>>,
)
    requires
        drawn_from(a, b),
        drawn_from(b, c),
    ensures
        drawn_from(a, c),
{
    let ab = b.len() - a.len();
    let bc = c.len() - b.len();
    assert forall|i: int| 0 < i < a.len() implies #[trigger] a[i] == c[ab + bc + i] by {
        assert(a[i] == b[ab + i]);
        assert(b[ab + i] == c[bc + (ab + i)]);
    }
    if a.len() > 0 && ab > 0 {
        assert(b[ab] == c[bc + ab]);
    }
}

/// Requests are served strictly in order: whatever the replies, only the head
/// of the queue is ever touched.
pub proof fn lemma_served_in_order<M>(s: Samples<M>, ask: Ask, replies: Seq<Reply>)
    requires
        s.in_step(ask),
        s.proper(ask, replies),
    ensures
        drawn_from(s.run(ask, replies).0.queue, s.queue),
    decreases replies.len(),
{
    if replies.len() > 0 {
        let (next, next_ask) = s.after(replies[0]);
        lemma_step_drawn_from(s, ask, replies[0]);
        lemma_in_step(s, ask, replies[0]);
        lemma_served_in_order(next, next_ask, replies.skip(1));
        lemma_drawn_from_transitive(s.run(ask, replies).0.queue, next.queue, s.queue);
    }
}

/// The number of replies that can still come.
pub open spec fn replies_left<M>(s: Samples<M>, ask: Ask) -> int {
    match ask {
        Ask::ReadOutput { .. } => 2 * s.queue.len() as int,
        Ask::Push(_) => 2 * s.queue.len() - 1,
        Ask::Return(_) => 0,
    }
}

/// Number of reads among `replies`, failed ones included.
pub open spec fn reads(replies: Seq<Reply>) -> nat
    decreases replies.len(),
{
    if replies.len() == 0 {
        0
    } else {
        reads(replies.skip(1)) + if replies[0] is Read || replies[0] is ReadFailed {
            1nat
        } else {
            0
        }
    }
}

/// Number of pushes among `replies`, refused ones included.
pub open spec fn pushes(replies: Seq<Reply>) -> nat
    decreases replies.len(),
{
    if replies.len() == 0 {
        0
    } else {
        pushes(replies.skip(1)) + if replies[0] is Pushed || replies[0] is PushFailed {
            1nat
        } else {
            0
        }
    }
}

/// What is asked after a reply, and how long the queue is then.
proof fn lemma_step_shrinks<M>(s: Samples<M>, ask: Ask, reply: Reply)
    requires
        s.in_step(ask),
        answers(reply, ask),
    ensures
        ({
            let (next, next_ask) = s.after(reply);
            &&& next.in_step(next_ask)
            &&& s.queue.len() > 0
            &&& next.queue.len() <= s.queue.len()
            &&& reply is Read ==> next_ask is Return || next_ask is Push && next.queue.len()
                == s.queue.len()
            &&& reply is Pushed ==> next_ask is Return || next_ask is ReadOutput
                && next.queue.len() < s.queue.len()
            &&& reply is ReadFailed || reply is PushFailed ==> next_ask is Return
        }),
{
    lemma_pending(s.queue);
    lemma_pending(s.advanced());
    lemma_in_step(s, ask, reply);
}

/// Writing ends: there are no more reads than there are requests in the queue,
/// no more pushes either, and nothing else.
pub proof fn lemma_writing_ends<M>(s: Samples<M>, ask: Ask, replies: Seq<Reply>)
    requires
        s.in_step(ask),
        s.proper(ask, replies),
    ensures
        replies.len() <= replies_left(s, ask),
        replies.len() == reads(replies) + pushes(replies),
        reads(replies) <= s.queue.len(),
        pushes(replies) <= s.queue.len(),
        ask is Push ==> reads(replies) < s.queue.len(),
        ask is Return ==> replies.len() == 0,
    decreases replies.len(),
{
    if replies.len() > 0 {
        let (next, next_ask) = s.after(replies[0]);
        lemma_step_shrinks(s, ask, replies[0]);
        lemma_writing_ends(next, next_ask, replies.skip(1));
    }
}

impl<M> Samples<M> {
    /// Number of bytes that the pipeline takes, in the course of `replies`, of
    /// the request that is now at index `i` of the queue. As requests leave at
    /// the head, the index of those behind goes down.
    pub open spec fn taken_of(self, ask: Ask, replies: Seq<Reply>, i: int) -> nat
        decreases replies.len(),
    {
        if replies.len() == 0 {
            0
        } else {
            let (next, next_ask) = self.after(replies[0]);
            let taken = if replies[0] is Pushed && i == 0 {
                ask->Push_0.len()
            } else {
                0
            };
            taken + next.taken_of(next_ask, replies.skip(1), i - (self.queue.len()
                - next.queue.len()))
        }
    }
}

/// A request that has left the queue takes no more part.
proof fn lemma_nothing_taken_of_the_gone<M>(s: Samples<M>, ask: Ask, replies: Seq<Reply>, i: int)
    requires
        s.in_step(ask),
        s.proper(ask, replies),
        i < 0,
    ensures
        s.taken_of(ask, replies, i) == 0,
    decreases replies.len(),
{
    if replies.len() > 0 {
        let (next, next_ask) = s.after(replies[0]);
        lemma_step_shrinks(s, ask, replies[0]);
        lemma_nothing_taken_of_the_gone(
            next,
            next_ask,
            replies.skip(1),
            i - (s.queue.len() - next.queue.len()),
        );
    }
}

/// Number of bytes that one reply takes of the request at index `i`.
spec fn taken_now(ask: Ask, reply: Reply, i: int) -> nat {
    if reply is Pushed && i == 0 {
        ask->Push_0.len()
    } else {
        0
    }
}

/// One reply moves a request that stays by exactly the bytes it takes of it.
proof fn lemma_step_moves<M>(s: Samples<M>, ask: Ask, reply: Reply, i: int)
    requires
        s.in_step(ask),
        answers(reply, ask),
        s.queue.len() - s.after(reply).0.queue.len() <= i < s.queue.len(),
    ensures
        ({
            let next = s.after(reply).0.queue;
            let left = next[i - (s.queue.len() - next.len())];
            &&& left.message == s.queue[i].message
            &&& left.len == s.queue[i].len
            &&& left.pos == s.queue[i].pos + taken_now(ask, reply, i)
        }),
{
    lemma_pending(s.queue);
    lemma_pending(s.advanced());
}

/// A request that is left in the queue has moved by exactly the bytes that the
/// pipeline took of it.
pub proof fn lemma_requests_move_by_what_is_taken<M>(
    s: Samples<M>,
    ask: Ask,
    replies: Seq<Reply>,
    i: int,
)
    requires
        s.in_step(ask),
        s.proper(ask, replies),
        s.queue.len() - s.run(ask, replies).0.queue.len() <= i < s.queue.len(),
    ensures
        ({
            let end = s.run(ask, replies).0.queue;
            let left = end[i - (s.queue.len() - end.len())];
            &&& left.message == s.queue[i].message
            &&& left.len == s.queue[i].len
            &&& left.pos == s.queue[i].pos + s.taken_of(ask, replies, i)
        }),
    decreases replies.len(),
{
    if replies.len() > 0 {
        let (next, next_ask) = s.after(replies[0]);
        let gone = s.queue.len() - next.queue.len();
        lemma_step_shrinks(s, ask, replies[0]);
        lemma_served_in_order(next, next_ask, replies.skip(1));
        lemma_step_moves(s, ask, replies[0], i);
        lemma_requests_move_by_what_is_taken(next, next_ask, replies.skip(1), i - gone);
        assert(s.taken_of(ask, replies, i) == taken_now(ask, replies[0], i) + next.taken_of(
            next_ask,
            replies.skip(1),
            i - gone,
        ));
    }
}

/// The requests that are dropped as completed are.
proof fn lemma_pending_gone<M>(queue: Seq<Request<M>>)
    ensures
        forall|i: int|
            0 <= i < queue.len() - pending(queue).len() ==> (#[trigger] queue[i]).remaining() == 0,
    decreases queue.len(),
{
    if queue.len() > 0 && queue[0].remaining() == 0 {
        lemma_pending_gone(queue.skip(1));
        assert forall|i: int| 0 <= i < queue.len() - pending(queue).len() implies (
        #[trigger] queue[i]).remaining() == 0 by {
            if i > 0 {
                assert(queue[i] == queue.skip(1)[i - 1]);
            }
        }
    }
}

/// One reply that is not a failed read takes of a request what that request has
/// less to give afterwards; one that leaves has nothing more to give.
proof fn lemma_step_takes<M>(s: Samples<M>, ask: Ask, reply: Reply, i: int)
    requires
        s.in_step(ask),
        answers(reply, ask),
        !(reply is ReadFailed),
        0 <= i < s.queue.len(),
    ensures
        ({
            let next = s.after(reply).0.queue;
            let gone = s.queue.len() - next.len();
            &&& gone >= 0
            &&& i < gone ==> taken_now(ask, reply, i) == s.queue[i].remaining()
            &&& i >= gone ==> next[i - gone].remaining() + taken_now(ask, reply, i)
                == s.queue[i].remaining()
        }),
{
    let queue = if reply is Pushed {
        s.advanced()
    } else {
        s.queue
    };
    let next = s.after(reply).0.queue;
    assert(queue[i].remaining() + taken_now(ask, reply, i) == s.queue[i].remaining());
    assert(next == queue || next == pending(queue));
    if next != queue {
        lemma_pending(queue);
        lemma_pending_gone(queue);
        let gone = queue.len() - next.len();
        if i < gone {
            assert(queue[i].remaining() == 0);
        } else {
            assert(next[i - gone] == queue[i]);
        }
    }
}

/// Unless it could not be read, a request that has left the queue was taken by
/// the pipeline to the end.
pub proof fn lemma_requests_leave_when_complete<M>(
    s: Samples<M>,
    ask: Ask,
    replies: Seq<Reply>,
    i: int,
)
    requires
        s.in_step(ask),
        s.proper(ask, replies),
        0 <= i < s.queue.len() - s.run(ask, replies).0.queue.len(),
        forall|k: int| 0 <= k < replies.len() ==> !(#[trigger] replies[k] is ReadFailed),
    ensures
        s.taken_of(ask, replies, i) == s.queue[i].remaining(),
    decreases replies.len(),
{
    if replies.len() > 0 {
        let (next, next_ask) = s.after(replies[0]);
        let rest = replies.skip(1);
        let gone = s.queue.len() - next.queue.len();
        lemma_in_step(s, ask, replies[0]);
        lemma_step_takes(s, ask, replies[0], i);
        assert forall|k: int| 0 <= k < rest.len() implies !(#[trigger] rest[k] is ReadFailed) by {
            assert(!(replies[k + 1] is ReadFailed));
        }
        assert(s.taken_of(ask, replies, i) == taken_now(ask, replies[0], i) + next.taken_of(
            next_ask,
            rest,
            i - gone,
        ));
        if i < gone {
            lemma_nothing_taken_of_the_gone(next, next_ask, rest, i - gone);
        } else {
            lemma_requests_leave_when_complete(next, next_ask, rest, i - gone);
        }
    }
}

/// The backlog never grows, and it shrinks on the way to a result of `true`
/// unless samples were taken before.
proof fn lemma_run_backlog<M>(s: Samples<M>, ask: Ask, replies: Seq<Reply>)
    requires
        s.in_step(ask),
        s.proper(ask, replies),
        ask is Return ==> !(ask->Return_0 && !s.has_data),
    ensures
        backlog(s.run(ask, replies).0.queue) <= backlog(s.queue),
        s.run(ask, replies).1 == Ask::Return(true) && !s.has_data ==> backlog(
            s.run(ask, replies).0.queue,
        ) < backlog(s.queue),
    decreases replies.len(),
{
    if replies.len() > 0 {
        let reply = replies[0];
        let (next, next_ask) = s.after(reply);
        lemma_step_accounts(s, ask, reply);
        lemma_step_shrinks(s, ask, reply);
        if next_ask is Return {
            reveal_with_fuel(Samples::proper, 2);
            reveal_with_fuel(Samples::run, 2);
            assert(replies.skip(1).len() == 0);
        } else {
            lemma_run_backlog(next, next_ask, replies.skip(1));
        }
    }
}

/// A round of writing that reports `true` has made the backlog smaller, so
/// repeating rounds for as long as they report `true` comes to an end.
pub proof fn lemma_true_means_progress<M>(s: Samples<M>, replies: Seq<Reply>)
    requires
        s.after(Reply::Begin).0.proper(s.after(Reply::Begin).1, replies),
    ensures
        ({
            let (begun, ask) = s.after(Reply::Begin);
            let (end, result) = begun.run(ask, replies);
            &&& backlog(end.queue) <= backlog(s.queue)
            &&& result == Ask::Return(true) ==> backlog(end.queue) < backlog(s.queue)
        }),
{
    let (begun, ask) = s.after(Reply::Begin);
    lemma_pending(s.queue);
    lemma_in_step(s, ask, Reply::Begin);
    lemma_run_backlog(begun, ask, replies);
}

/// A refused push loses nothing: the requests stay as they are, and the next
/// round reads again from where the refused buffer began.
pub proof fn lemma_refused_push_is_repeated<M>(s: Samples<M>, buffer: Seq<u8>)
    requires
        s.in_step(Ask::Push(buffer)),
    ensures
        s.after(Reply::PushFailed) == (s, Ask::Return(false)),
        s.after(Reply::Begin).0.queue == s.queue,
        s.after(Reply::Begin).1 == (Ask::ReadOutput {
            pos: s.queue[0].pos,
            buffer: zeros(s.queue[0].remaining()),
        }),
{
}

/// Whether a reply reports complete success.
pub open spec fn succeeds(reply: Reply) -> bool {
    match reply {
        Reply::Read { buffer, count } => count == buffer.len(),
        Reply::Pushed => true,
        _ => false,
    }
}

/// If every read fills its buffer and every push is taken, a round of writing
/// empties the queue, and all its bytes reach the pipeline.
pub proof fn lemma_success_empties_the_queue<M>(s: Samples<M>, replies: Seq<Reply>)
    requires
        s.after(Reply::Begin).0.proper(s.after(Reply::Begin).1, replies),
        forall|i: int| 0 <= i < replies.len() ==> succeeds(#[trigger] replies[i]),
        s.after(Reply::Begin).0.run(s.after(Reply::Begin).1, replies).1 is Return,
    ensures
        ({
            let (begun, ask) = s.after(Reply::Begin);
            let (end, result) = begun.run(ask, replies);
            &&& end.queue.len() == 0
            &&& begun.pushed(ask, replies).len() == total(s.queue)
            &&& result == Ask::Return(total(s.queue) > 0)
        }),
{
    let (begun, ask) = s.after(Reply::Begin);
    lemma_pending(s.queue);
    lemma_in_step(s, ask, Reply::Begin);
    lemma_success_run(begun, ask, replies);
    lemma_bytes_accounted_for(begun, ask, replies);
}

proof fn lemma_success_run<M>(s: Samples<M>, ask: Ask, replies: Seq<Reply>)
    requires
        s.in_step(ask),
        s.proper(ask, replies),
        forall|i: int| 0 <= i < replies.len() ==> succeeds(#[trigger] replies[i]),
        s.run(ask, replies).1 is Return,
        ask is Push ==> s.read_bytes == s.queue[0].remaining(),
        ask is Return ==> s.queue.len() == 0 && ask == Ask::Return(s.has_data),
    ensures
        s.run(ask, replies).0.queue.len() == 0,
        s.lost(replies) == 0,
        s.run(ask, replies).1 == Ask::Return(s.has_data || s.pushed(ask, replies).len() > 0),
    decreases replies.len(),
{
    if replies.len() > 0 {
        let (next, next_ask) = s.after(replies[0]);
        assert(succeeds(replies[0]));
        lemma_in_step(s, ask, replies[0]);
        lemma_pending(s.queue);
        lemma_pending(s.advanced());
        assert forall|i: int| 0 <= i < replies.skip(1).len() implies succeeds(
            #[trigger] replies.skip(1)[i],
        ) by {
            assert(succeeds(replies[i + 1]));
        }
        lemma_success_run(next, next_ask, replies.skip(1));
    }
}

/// What the guest put into a queue and the pipeline has not taken, in order.
/// `data` gives the bytes behind a message.
pub open spec fn content<M>(queue: Seq<Request<M>>, data: spec_fn(M) -> Seq<u8>) -> Seq<u8>
    decreases queue.len(),
{
    if queue.len() == 0 {
        seq![]
    } else {
        unread(queue[0], data) + content(queue.skip(1), data)
    }
}

/// The bytes of a request that are not yet consumed.
pub open spec fn unread<M>(request: Request<M>, data: spec_fn(M) -> Seq<u8>) -> Seq<u8> {
    if request.pos < request.len {
        data(request.message).subrange(request.pos as int, request.len as int)
    } else {
        seq![]
    }
}

/// Whether each request of a queue has as many bytes as it says.
pub open spec fn backed<M>(queue: Seq<Request<M>>, data: spec_fn(M) -> Seq<u8>) -> bool {
    forall|i: int|
        0 <= i < queue.len() ==> data((#[trigger] queue[i]).message).len() == queue[i].len
}

impl<M> Samples<M> {
    /// Whether each read in the course of `replies` gives what the guest wrote.
    pub open spec fn faithful(self, replies: Seq<Reply>, data: spec_fn(M) -> Seq<u8>) -> bool
        decreases replies.len(),
    {
        replies.len() > 0 ==> {
            &&& replies[0] matches Reply::Read { buffer, count } ==> buffer.take(count as int)
                == unread(self.queue[0], data).take(count as int)
            &&& self.after(replies[0]).0.faithful(replies.skip(1), data)
        }
    }

    /// The bytes given up, because they could not be read, in the course of
    /// `replies`.
    pub open spec fn abandoned(self, replies: Seq<Reply>, data: spec_fn(M) -> Seq<u8>) -> Seq<u8>
        decreases replies.len(),
    {
        if replies.len() == 0 {
            seq![]
        } else {
            let given_up = if replies[0] is ReadFailed {
                unread(self.queue[0], data)
            } else {
                seq![]
            };
            given_up + self.after(replies[0]).0.abandoned(replies.skip(1), data)
        }
    }
}

/// Dropping completed requests drops no bytes.
proof fn lemma_pending_content<M>(queue: Seq<Request<M>>, data: spec_fn(M) -> Seq<u8>)
    ensures
        content(pending(queue), data) == content(queue, data),
        backed(queue, data) ==> backed(pending(queue), data),
    decreases queue.len(),
{
    if queue.len() > 0 && queue[0].remaining() == 0 {
        lemma_pending_content(queue.skip(1), data);
        assert(content(queue, data) == content(queue.skip(1), data));
        if backed(queue, data) {
            assert forall|i: int| 0 <= i < queue.skip(1).len() implies data(
                (#[trigger] queue.skip(1)[i]).message,
            ).len() == queue.skip(1)[i].len by {
                assert(queue.skip(1)[i] == queue[i + 1]);
            }
        }
    }
}

/// Whether the bytes about to be pushed are the next ones of the first request.
spec fn pushes_next<M>(s: Samples<M>, ask: Ask, data: spec_fn(M) -> Seq<u8>) -> bool {
    ask matches Ask::Push(buffer) ==> buffer == unread(s.queue[0], data).take(s.read_bytes as int)
}

/// A push that is taken moves bytes from the head of the queue.
proof fn lemma_push_content<M>(s: Samples<M>, ask: Ask, data: spec_fn(M) -> Seq<u8>)
    requires
        s.in_step(ask),
        ask is Push,
        backed(s.queue, data),
        pushes_next(s, ask, data),
    ensures
        content(s.queue, data) == ask->Push_0 + content(s.after(Reply::Pushed).0.queue, data),
        backed(s.after(Reply::Pushed).0.queue, data),
{
    let first = s.queue[0];
    let advanced = s.advanced();
    assert(data(first.message).len() == first.len);
    assert(advanced.skip(1) == s.queue.skip(1));
    assert(unread(first, data) == ask->Push_0 + unread(advanced[0], data));
    assert(content(s.queue, data) == ask->Push_0 + content(advanced, data));
    assert forall|i: int| 0 <= i < advanced.len() implies data(
        (#[trigger] advanced[i]).message,
    ).len() == advanced[i].len by {
        assert(data(s.queue[i].message).len() == s.queue[i].len);
    }
    lemma_pending_content(advanced, data);
}

/// A read leaves the bytes where they are, and what it gives is pushed next.
proof fn lemma_read_content<M>(
    s: Samples<M>,
    ask: Ask,
    reply: Reply,
    data: spec_fn(M) -> Seq<u8>,
)
    requires
        s.in_step(ask),
        answers(reply, ask),
        backed(s.queue, data),
        reply matches Reply::Read { buffer, count } && buffer.take(count as int) == unread(
            s.queue[0],
            data,
        ).take(count as int),
    ensures
        content(s.queue, data) == content(s.after(reply).0.queue, data),
        backed(s.after(reply).0.queue, data),
        pushes_next(s.after(reply).0, s.after(reply).1, data),
{
    lemma_pending_content(s.queue, data);
    let buffer = reply->buffer;
    assert(buffer.take(buffer.len() as int) == buffer);
}

/// Nothing is asked after a return.
proof fn lemma_return_is_last<M>(s: Samples<M>, ask: Ask, replies: Seq<Reply>)
    requires
        s.proper(ask, replies),
        ask is Return,
    ensures
        replies.len() == 0,
{
}

/// A round of writing that has begun keeps the bytes in order.
proof fn lemma_run_content<M>(
    s: Samples<M>,
    ask: Ask,
    replies: Seq<Reply>,
    data: spec_fn(M) -> Seq<u8>,
)
    requires
        s.in_step(ask),
        s.proper(ask, replies),
        s.faithful(replies, data),
        backed(s.queue, data),
        pushes_next(s, ask, data),
    ensures
        content(s.queue, data) == s.pushed(ask, replies) + s.abandoned(replies, data) + content(
            s.run(ask, replies).0.queue,
            data,
        ),
    decreases replies.len(),
{
    if replies.len() > 0 {
        let reply = replies[0];
        let (next, next_ask) = s.after(reply);
        let rest = replies.skip(1);
        let later = content(next.run(next_ask, rest).0.queue, data);
        lemma_in_step(s, ask, reply);
        if reply is Read {
            lemma_read_content(s, ask, reply, data);
            lemma_run_content(next, next_ask, rest, data);
        } else if reply is Pushed {
            lemma_push_content(s, ask, data);
            lemma_run_content(next, next_ask, rest, data);
        } else {
            lemma_return_is_last(next, next_ask, rest);
            assert(next.pushed(next_ask, rest) == Seq::<u8>::empty());
            assert(next.abandoned(rest, data) == Seq::<u8>::empty());
        }
        assert(content(s.queue, data) == s.pushed(ask, replies) + s.abandoned(replies, data)
            + later);
    } else {
        assert(s.pushed(ask, replies) == Seq::<u8>::empty());
        assert(s.abandoned(replies, data) == Seq::<u8>::empty());
    }
}

/// The pipeline takes what the guest wrote, in that order, with no byte left
/// out or repeated: what waited in the queue is what the pipeline took in a
/// round of writing, then what could not be read, then what still waits.
pub proof fn lemma_samples_arrive_in_order<M>(
    s: Samples<M>,
    replies: Seq<Reply>,
    data: spec_fn(M) -> Seq<u8>,
)
    requires
        s.after(Reply::Begin).0.proper(s.after(Reply::Begin).1, replies),
        s.after(Reply::Begin).0.faithful(replies, data),
        backed(s.queue, data),
    ensures
        ({
            let (begun, ask) = s.after(Reply::Begin);
            content(s.queue, data) == begun.pushed(ask, replies) + begun.abandoned(replies, data)
                + content(begun.run(ask, replies).0.queue, data)
        }),
{
    let (begun, ask) = s.after(Reply::Begin);
    lemma_in_step(s, ask, Reply::Begin);
    lemma_pending_content(s.queue, data);
    lemma_run_content(begun, ask, replies, data);
}

/// What events and actions stand for is what they hold.
pub proof fn lemma_what_events_and_actions_stand_for(event: SampleEvent, action: SampleAction)
    ensures
        event@ is Begin <==> event is Begin,
        event@ is ReadFailed <==> event is ReadFailed,
        event@ is Read <==> event is Read,
        event@ is Pushed <==> event is Pushed,
        event@ is PushFailed <==> event is PushFailed,
        event matches SampleEvent::Read { buffer, count } ==> event@ == (Reply::Read {
            buffer: buffer@,
            count,
        }),
        action@ is ReadOutput <==> action is ReadOutput,
        action@ is Push <==> action is Push,
        action@ is Return <==> action is Return,
        action matches SampleAction::ReadOutput { pos, buffer } ==> action@ == (Ask::ReadOutput {
            pos,
            buffer: buffer@,
        }),
        action matches SampleAction::Push(buffer) ==> action@ == Ask::Push(buffer@),
        action matches SampleAction::Return(more) ==> action@ == Ask::Return(more),
{
}

/// What the samples of a stream stand for is what the stream and its progress
/// hold.
pub proof fn lemma_what_samples_stand_for<M>(stream: Stream<M>, state: WriteState)
    ensures
        samples(stream, state).queue == stream.requests@,
        samples(stream, state).has_data == state.has_data,
        samples(stream, state).read_bytes == state.read_bytes,
{
}

/// Whether `later` is `queue` without requests at its head, of which those from
/// index `from` on are complete, and `ask` goes on from there: it asks for all
/// that is left of the first request, which is not complete, or, with no request
/// left, it is a return with `more`.
pub open spec fn goes_on<M>(
    queue: Seq<Request<M>>,
    from: int,
    later: Seq<Request<M>>,
    ask: Ask,
    more: bool,
) -> bool {
    let gone = queue.len() - later.len();
    &&& from <= gone
    &&& later == queue.skip(gone)
    &&& forall|i: int| from <= i < gone ==> (#[trigger] queue[i]).pos >= queue[i].len
    &&& later.len() == 0 ==> ask == Ask::Return(more)
    &&& later.len() > 0 ==> {
        &&& later[0].pos < later[0].len
        &&& ask is ReadOutput
        &&& ask->pos == later[0].pos
        &&& ask->ReadOutput_buffer.len() == later[0].len - later[0].pos
        &&& forall|k: int|
            0 <= k < later[0].len - later[0].pos ==> #[trigger] ask->ReadOutput_buffer[k] == 0u8
    }
}

/// A round begins by dropping the complete requests at the head of the queue,
/// and with nothing taken yet.
pub proof fn lemma_how_a_round_begins<M>(s: Samples<M>)
    ensures
        ({
            let (next, ask) = s.after(Reply::Begin);
            &&& !next.has_data
            &&& next.read_bytes == 0
            &&& goes_on(s.queue, 0, next.queue, ask, false)
        }),
{
    lemma_pending(s.queue);
    lemma_pending_gone(s.queue);
}

/// A request that cannot be read is given up, it alone, and the stream is worth
/// going on with.
pub proof fn lemma_after_a_failed_read<M>(s: Samples<M>)
    requires
        s.queue.len() > 0,
    ensures
        ({
            let (next, ask) = s.after(Reply::ReadFailed);
            &&& next.queue == s.queue.skip(1)
            &&& next.has_data == s.has_data
            &&& next.read_bytes == s.read_bytes
            &&& ask == Ask::Return(true)
        }),
{
}

/// What was read is pushed, cut to the number of bytes read, and nothing moves
/// yet.
pub proof fn lemma_after_a_read<M>(s: Samples<M>, buffer: Seq<u8>, count: u32)
    requires
        count > 0,
    ensures
        ({
            let (next, ask) = s.after(Reply::Read { buffer, count });
            &&& next.queue == s.queue
            &&& next.has_data == s.has_data
            &&& next.read_bytes == count
            &&& ask is Push
            &&& ask->Push_0.len() == if count <= buffer.len() {
                count as nat
            } else {
                buffer.len()
            }
            &&& forall|i: int| 0 <= i < ask->Push_0.len() ==> ask->Push_0[i] == #[trigger] buffer[i]
        }),
{
}

/// A read of nothing ends the round with the request as it is, unless that was
/// complete already: then it is dropped, and the next one follows.
pub proof fn lemma_after_a_read_of_nothing<M>(s: Samples<M>, buffer: Seq<u8>)
    requires
        s.queue.len() > 0,
    ensures
        ({
            let (next, ask) = s.after(Reply::Read { buffer, count: 0 });
            &&& next.has_data == s.has_data
            &&& next.read_bytes == 0
            &&& s.queue[0].pos < s.queue[0].len ==> next.queue == s.queue && ask == Ask::Return(
                s.has_data,
            )
            &&& s.queue[0].pos >= s.queue[0].len ==> goes_on(
                s.queue,
                0,
                next.queue,
                ask,
                s.has_data,
            )
        }),
{
    lemma_pending(s.queue);
    lemma_pending_gone(s.queue);
}

/// When the pipeline takes a buffer, the first request moves on by as many
/// bytes as were read. If that completes it, the next one follows; if not, the
/// round ends. Either way samples have been taken.
pub proof fn lemma_after_a_push<M>(s: Samples<M>)
    requires
        s.queue.len() > 0,
        s.queue[0].pos + s.read_bytes <= usize::MAX,
    ensures
        ({
            let (next, ask) = s.after(Reply::Pushed);
            let pos = s.queue[0].pos + s.read_bytes;
            &&& next.has_data
            &&& next.read_bytes == s.read_bytes
            &&& pos >= s.queue[0].len ==> goes_on(s.queue, 1, next.queue, ask, true)
            &&& pos < s.queue[0].len ==> {
                &&& ask == Ask::Return(true)
                &&& next.queue.len() == s.queue.len()
                &&& next.queue[0].pos == pos
                &&& next.queue[0].len == s.queue[0].len
                &&& next.queue[0].message == s.queue[0].message
                &&& forall|i: int| 0 < i < s.queue.len() ==> #[trigger] next.queue[i] == s.queue[i]
            }
        }),
{
    let advanced = s.advanced();
    lemma_pending(advanced);
    lemma_pending_gone(advanced);
    if s.queue[0].pos + s.read_bytes >= s.queue[0].len {
        let later = s.after(Reply::Pushed).0.queue;
        let gone = s.queue.len() - later.len();
        assert(later == advanced.skip(gone));
        assert(advanced[0].remaining() == 0);
        assert(pending(advanced) == pending(advanced.skip(1)));
        lemma_pending(advanced.skip(1));
        assert(gone >= 1);
        assert(advanced.skip(gone) == s.queue.skip(gone));
        assert forall|i: int| 1 <= i < gone implies (#[trigger] s.queue[i]).pos >= s.queue[i].len by {
            assert(advanced[i] == s.queue[i]);
            assert(advanced[i].remaining() == 0);
        }
    }
}

/// When the pipeline refuses a buffer, nothing moves, and the stream is not
/// worth going on with for now.
pub proof fn lemma_after_a_refused_push<M>(s: Samples<M>)
    ensures
        ({
            let (next, ask) = s.after(Reply::PushFailed);
            &&& next.queue == s.queue
            &&& next.has_data == s.has_data
            &&& next.read_bytes == s.read_bytes
            &&& ask == Ask::Return(false)
        }),
{
}

} // verus!
