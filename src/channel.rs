use vstd::prelude::*;
use embassy_sync::blocking_mutex::raw::NoopRawMutex;
use embassy_sync::channel::{Channel, TryReceiveError, TrySendError};

verus! {

/// A message as it travels between the application and the broker:
/// a topic and a payload.
pub type Message = (String, Vec<u8>);

/// What a message is, as plain values.
pub type MessageView = (Seq<char>, Seq<u8>);

/// How many messages a channel buffers before a sender has to wait.
pub const CHANNEL_CAPACITY: usize = 5;

/// An embassy channel of messages. Verus cannot take the declaration of
/// embassy's `Channel` (its bound names a trait of that crate), so the
/// channel is held here, out of Verus's sight, and reached through the
/// functions below only.
#[verifier::external_body]
pub struct RawChannel {
    ch: Channel<NoopRawMutex, Message, 5>,
}

/// The messages that the channel holds, oldest first.
pub uninterp spec fn queued(c: RawChannel) -> Seq<MessageView>;

/// A bounded first-in first-out queue of messages, with one writer and one
/// reader. A full queue refuses a message and hands it back, so that the
/// writer can wait and offer it again: nothing is dropped.
pub struct MessageChannel {
    inner: RawChannel,
}

impl View for MessageChannel {
    type V = Seq<MessageView>;

    closed spec fn view(&self) -> Seq<MessageView> {
        queued(self.inner)
    }
}

/// Relies on embassy_sync's `Channel::new`: a new channel buffers nothing.
#[verifier::external_body]
fn new_channel() -> (r: RawChannel)
    ensures
        queued(r) == Seq::<MessageView>::empty(),
{
    RawChannel { ch: Channel::new() }
}

/// Relies on embassy_sync's `Channel::try_send`: the message is appended at
/// the back of the queue unless the queue already holds `N` messages, in
/// which case the queue is left as it was and the message comes back in
/// `TrySendError::Full`.
#[verifier::external_body]
fn channel_try_send(c: &mut RawChannel, m: Message) -> (r: Result<(), Message>)
    ensures
        queued(*old(c)).len() < 5 ==> r is Ok && queued(*final(c)) == queued(*old(c)).push(m@),
        queued(*old(c)).len() >= 5 ==> r is Err && queued(*final(c)) == queued(*old(c)),
        r is Err ==> r->Err_0@ == m@,
{
    match c.ch.try_send(m) {
        Ok(()) => Ok(()),
        Err(TrySendError::Full(back)) => Err(back),
    }
}

/// Relies on embassy_sync's `Channel::try_receive`: the message at the front
/// of the queue is taken out, or `TryReceiveError::Empty` comes when there
/// is none.
#[verifier::external_body]
fn channel_try_receive(c: &mut RawChannel) -> (r: Option<Message>)
    ensures
        queued(*old(c)).len() == 0 ==> r is None && queued(*final(c)) == queued(*old(c)),
        queued(*old(c)).len() > 0 ==> r is Some && r->Some_0@ == queued(*old(c))[0]
            && queued(*final(c)) == queued(*old(c)).drop_first(),
{
    match c.ch.try_receive() {
        Ok(m) => Some(m),
        Err(TryReceiveError::Empty) => None,
    }
}

/// Relies on embassy_sync's `Channel::len`: the number of buffered messages.
#[verifier::external_body]
fn channel_len(c: &RawChannel) -> (r: usize)
    ensures
        r == queued(*c).len(),
{
    c.ch.len()
}

/// The queue after a send is offered: the message joins the back unless the
/// queue is full.
pub open spec fn after_send(q: Seq<MessageView>, m: MessageView) -> Seq<MessageView> {
    if q.len() < CHANNEL_CAPACITY {
        q.push(m)
    } else {
        q
    }
}

/// The queue after a receive: its front message leaves, if there is one.
pub open spec fn after_receive(q: Seq<MessageView>) -> Seq<MessageView> {
    if q.len() == 0 {
        q
    } else {
        q.drop_first()
    }
}

/// What a receive hands out: the front message, if there is one.
pub open spec fn received(q: Seq<MessageView>) -> Option<MessageView> {
    if q.len() == 0 {
        None
    } else {
        Some(q[0])
    }
}

/// The queue after each message of `ms` has been offered in turn.
pub open spec fn send_all(q: Seq<MessageView>, ms: Seq<MessageView>) -> Seq<MessageView>
    decreases ms.len(),
{
    if ms.len() == 0 {
        q
    } else {
        send_all(after_send(q, ms[0]), ms.drop_first())
    }
}

/// The messages handed out by `n` receives in a row, in the order they came.
pub open spec fn receive_n(q: Seq<MessageView>, n: nat) -> Seq<MessageView>
    decreases n,
{
    if n == 0 || q.len() == 0 {
        Seq::empty()
    } else {
        seq![q[0]].add(receive_n(q.drop_first(), (n - 1) as nat))
    }
}

/// Offering messages to a queue with room for them all appends them in order.
proof fn lemma_send_all_appends(q: Seq<MessageView>, ms: Seq<MessageView>)
    requires
        q.len() + ms.len() <= CHANNEL_CAPACITY,
    ensures
        send_all(q, ms) == q + ms,
    decreases ms.len(),
{
    if ms.len() > 0 {
        lemma_send_all_appends(q.push(ms[0]), ms.drop_first());
        assert(q.push(ms[0]) + ms.drop_first() =~= q + ms);
    } else {
        assert(q + ms =~= q);
    }
}

/// As many receives as a queue holds hand out the whole queue, front first.
proof fn lemma_receive_all(q: Seq<MessageView>)
    ensures
        receive_n(q, q.len()) == q,
    decreases q.len(),
{
    if q.len() > 0 {
        lemma_receive_all(q.drop_first());
        assert(seq![q[0]] + q.drop_first() =~= q);
    } else {
        assert(Seq::<MessageView>::empty() =~= q);
    }
}

/// A channel keeps the order of its messages: when an empty channel is
/// offered up to its capacity of messages, as many receives return exactly
/// those messages, in the order they were sent.
pub proof fn lemma_fifo_order(ms: Seq<MessageView>)
    requires
        ms.len() <= CHANNEL_CAPACITY,
    ensures
        receive_n(send_all(Seq::empty(), ms), ms.len()) == ms,
{
    lemma_send_all_appends(Seq::empty(), ms);
    assert(Seq::<MessageView>::empty() + ms =~= ms);
    lemma_receive_all(ms);
}

/// A full channel refuses a send and keeps what it holds; a receive makes
/// room, and the same message offered again is then taken. Nothing is
/// dropped or duplicated on the way: the message received, followed by what
/// the channel then holds, is what it held followed by the new message.
pub proof fn lemma_backpressure(q: Seq<MessageView>, m: MessageView)
    requires
        q.len() == CHANNEL_CAPACITY,
    ensures
        after_send(q, m) == q,
        received(q) is Some,
        after_receive(q).len() < CHANNEL_CAPACITY,
        seq![received(q)->Some_0] + after_send(after_receive(q), m) == q.push(m),
{
    assert(seq![q[0]] + q.drop_first().push(m) =~= q.push(m));
}

impl MessageChannel {
    /// Well-formed: never more messages than the capacity.
    pub open spec fn wf(&self) -> bool {
        self@.len() <= CHANNEL_CAPACITY
    }

    /// An empty channel.
    pub fn new() -> (r: MessageChannel)
        ensures
            r@ == Seq::<MessageView>::empty(),
            r.wf(),
    {
        MessageChannel { inner: new_channel() }
    }

    /// Offers a message. It joins the back of the queue when there is room;
    /// on a full channel the queue is unchanged and the message comes back
    /// in `Err`, for the writer to offer again once a receive made room.
    pub fn try_send(&mut self, m: Message) -> (r: Result<(), Message>)
        requires
            old(self).wf(),
        ensures
            final(self).wf(),
            final(self)@ == after_send(old(self)@, m@),
            r is Ok <==> old(self)@.len() < CHANNEL_CAPACITY,
            r is Err ==> r->Err_0@ == m@,
    {
        channel_try_send(&mut self.inner, m)
    }

    /// Takes the oldest message out, or `None` when nothing is buffered
    /// (which is no error: it means nothing new arrived).
    pub fn try_receive(&mut self) -> (r: Option<Message>)
        requires
            old(self).wf(),
        ensures
            final(self).wf(),
            final(self)@ == after_receive(old(self)@),
            r is None <==> received(old(self)@) is None,
            r is Some ==> Some(r->Some_0@) == received(old(self)@),
    {
        channel_try_receive(&mut self.inner)
    }

    /// How many messages are buffered.
    pub fn len(&self) -> (r: usize)
        ensures
            r == self@.len(),
    {
        channel_len(&self.inner)
    }

    /// Whether no message is buffered.
    pub fn is_empty(&self) -> (r: bool)
        ensures
            r == (self@.len() == 0),
    {
        self.len() == 0
    }

    /// Whether a send would be refused now.
    pub fn is_full(&self) -> (r: bool)
        requires
            self.wf(),
        ensures
            r == (self@.len() == CHANNEL_CAPACITY),
    {
        self.len() == CHANNEL_CAPACITY
    }
}

} // verus!
