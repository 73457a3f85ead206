//! The message router: classification of outbound messages onto the two
//! request/reply channels, and the per-channel strict request/reply loop.
//!
//! The unverified shell drives one `ChannelDriver` per channel: it takes the
//! next queued request, writes it to the socket, reads exactly one reply and
//! hands it back. The driver's bookkeeping proves the delivery discipline:
//! replies reach the consumer in the order their requests were sent.

use vstd::prelude::*;

use crate::message::{is_control_content, spec_channel_of, Channel, KernelMessage};
use crate::message::classify;

verus! {

/// One completed request/reply exchange on a channel.
#[derive(Clone, Copy, Debug, PartialEq, Eq, Structural)]
pub struct Exchange {
    pub request: KernelMessage,
    pub reply: KernelMessage,
}

/// The state of one request/reply channel (control or shell): requests
/// queued behind the socket, at most one in flight, and the completed
/// exchanges in the order their replies were forwarded to the consumer.
pub struct ChannelDriver {
    queued: Vec<KernelMessage>,
    in_flight: Option<KernelMessage>,
    completed: Vec<Exchange>,
    accepted: Ghost<Seq<KernelMessage>>,
}

impl ChannelDriver {
    /// Every request this channel has accepted, in arrival order.
    pub closed spec fn accepted(self) -> Seq<KernelMessage> {
        self.accepted@
    }

    /// The requests waiting to be written to the socket.
    pub closed spec fn queued(self) -> Seq<KernelMessage> {
        self.queued@
    }

    /// The request written to the socket whose reply is still awaited.
    pub closed spec fn in_flight(self) -> Option<KernelMessage> {
        self.in_flight
    }

    /// The completed exchanges, in the order their replies were forwarded.
    pub closed spec fn completed(self) -> Seq<Exchange> {
        self.completed@
    }

    /// The requests sent so far, in order: completed ones first, then the
    /// in-flight one.
    pub open spec fn sent(self) -> Seq<KernelMessage> {
        self.completed().map_values(|e: Exchange| e.request) + match self.in_flight() {
            Some(m) => seq![m],
            None => Seq::empty(),
        }
    }

    /// The replies forwarded to the consumer, in order.
    pub open spec fn delivered(self) -> Seq<KernelMessage> {
        self.completed().map_values(|e: Exchange| e.reply)
    }

    /// Bookkeeping invariant: the accepted requests are exactly the sent
    /// ones followed by the queued ones, in order. Sends never overtake the
    /// queue and never reorder it.
    pub open spec fn wf(self) -> bool {
        self.accepted() == self.sent() + self.queued()
    }

    /// A fresh channel with nothing queued, in flight or completed.
    pub fn new() -> (r: ChannelDriver)
        ensures
            r.wf(),
            r.accepted() == Seq::<KernelMessage>::empty(),
            r.queued() == Seq::<KernelMessage>::empty(),
            r.in_flight() is None,
            r.completed() == Seq::<Exchange>::empty(),
    {
        let r = ChannelDriver {
            queued: Vec::new(),
            in_flight: None,
            completed: Vec::new(),
            accepted: Ghost(Seq::empty()),
        };
        proof {
            assert(r.accepted() =~= r.sent() + r.queued());
        }
        r
    }

    /// Accepts one outbound request at the back of the queue.
    pub fn accept(&mut self, m: KernelMessage)
        requires
            old(self).wf(),
        ensures
            final(self).wf(),
            final(self).accepted() == old(self).accepted().push(m),
            final(self).queued() == old(self).queued().push(m),
            final(self).in_flight() == old(self).in_flight(),
            final(self).completed() == old(self).completed(),
    {
        self.queued.push(m);
        proof {
            self.accepted@ = self.accepted@.push(m);
            assert(self.accepted() =~= self.sent() + self.queued());
        }
    }

    /// Takes the next request to write to the socket, if the channel is
    /// quiet and one is queued; it becomes the in-flight request.
    pub fn take_next(&mut self) -> (r: Option<KernelMessage>)
        requires
            old(self).wf(),
            old(self).in_flight() is None,
        ensures
            final(self).wf(),
            final(self).accepted() == old(self).accepted(),
            final(self).completed() == old(self).completed(),
            old(self).queued().len() == 0 ==> r is None && *final(self) == *old(self),
            old(self).queued().len() > 0 ==> {
                &&& r == Some(old(self).queued()[0])
                &&& final(self).in_flight() == Some(old(self).queued()[0])
                &&& final(self).queued() == old(self).queued().drop_first()
            },
    {
        if self.queued.len() == 0 {
            None
        } else {
            let m = self.queued.remove(0);
            self.in_flight = Some(m);
            proof {
                assert(self.queued@ =~= old(self).queued().drop_first());
                assert(self.accepted() =~= self.sent() + self.queued());
            }
            Some(m)
        }
    }

    /// The completed exchanges so far, oldest first.
    pub fn exchange_log(&self) -> (r: &Vec<Exchange>)
        ensures
            r@ == self.completed(),
    {
        &self.completed
    }

    /// Records the reply read from the socket for the in-flight request and
    /// forwards it: the exchange is complete and the channel quiet again.
    pub fn complete(&mut self, reply: KernelMessage)
        requires
            old(self).wf(),
            old(self).in_flight() is Some,
        ensures
            final(self).wf(),
            final(self).accepted() == old(self).accepted(),
            final(self).queued() == old(self).queued(),
            final(self).in_flight() is None,
            final(self).completed() == old(self).completed().push(
                Exchange { request: old(self).in_flight()->Some_0, reply },
            ),
            final(self).delivered() == old(self).delivered().push(reply),
    {
        let m = self.in_flight.take().unwrap();
        self.completed.push(Exchange { request: m, reply });
        proof {
            assert(final(self).delivered() =~= old(self).delivered().push(reply));
            assert(final(self).sent() =~= old(self).sent());
            assert(self.accepted() =~= self.sent() + self.queued());
        }
    }
}

/// Within a single channel, replies are delivered to the consumer in the
/// order their requests were sent: the `i`-th delivered reply is the reply
/// to the `i`-th accepted request.
pub proof fn lemma_channel_fifo(d: ChannelDriver)
    requires
        d.wf(),
    ensures
        d.delivered().len() == d.completed().len(),
        forall|i: int|
            0 <= i < d.completed().len() ==> #[trigger] d.completed()[i].request == d.accepted()[i]
                && d.delivered()[i] == d.completed()[i].reply,
{
    assert forall|i: int| 0 <= i < d.completed().len() implies #[trigger] d.completed()[i].request
        == d.accepted()[i] && d.delivered()[i] == d.completed()[i].reply by {
        assert(d.accepted()[i] == (d.sent() + d.queued())[i]);
        assert(d.sent()[i] == d.completed().map_values(|e: Exchange| e.request)[i]);
    }
}

/// The outbound router: pulls messages from the session's queue and fans
/// them out to the two channel drivers by semantic content.
pub struct MessageRouter {
    pub control: ChannelDriver,
    pub shell: ChannelDriver,
    pub submitted: Ghost<Seq<KernelMessage>>,
}

/// The control-class messages of `s`, in order.
pub open spec fn control_part(s: Seq<KernelMessage>) -> Seq<KernelMessage> {
    s.filter(|m: KernelMessage| is_control_content(m.content))
}

/// The shell-class messages of `s`, in order.
pub open spec fn shell_part(s: Seq<KernelMessage>) -> Seq<KernelMessage> {
    s.filter(|m: KernelMessage| !is_control_content(m.content))
}

impl MessageRouter {
    /// Every message pulled from the outbound queue, in order.
    pub open spec fn submitted(self) -> Seq<KernelMessage> {
        self.submitted@
    }

    /// The control channel accepted exactly the control-class messages and
    /// the shell channel exactly the rest, each in submission order.
    pub open spec fn wf(self) -> bool {
        &&& self.control.wf()
        &&& self.shell.wf()
        &&& self.control.accepted() == control_part(self.submitted())
        &&& self.shell.accepted() == shell_part(self.submitted())
    }

    /// A fresh router with both channels quiet.
    pub fn new() -> (r: MessageRouter)
        ensures
            r.wf(),
            r.submitted() == Seq::<KernelMessage>::empty(),
            r.control.accepted() == Seq::<KernelMessage>::empty(),
            r.shell.accepted() == Seq::<KernelMessage>::empty(),
    {
        let r = MessageRouter {
            control: ChannelDriver::new(),
            shell: ChannelDriver::new(),
            submitted: Ghost(Seq::empty()),
        };
        proof {
            reveal(Seq::filter);
            assert(control_part(r.submitted()) =~= Seq::<KernelMessage>::empty());
            assert(shell_part(r.submitted()) =~= Seq::<KernelMessage>::empty());
        }
        r
    }

    /// Routes one message pulled from the outbound queue: control-class
    /// content is accepted by the control channel, every other content by
    /// the shell channel, and by exactly one of the two.
    pub fn route(&mut self, m: KernelMessage) -> (c: Channel)
        requires
            old(self).wf(),
        ensures
            final(self).wf(),
            c == spec_channel_of(m.content),
            final(self).submitted() == old(self).submitted().push(m),
            is_control_content(m.content) ==> {
                &&& final(self).control.accepted() == old(self).control.accepted().push(m)
                &&& final(self).control.queued() == old(self).control.queued().push(m)
                &&& final(self).shell == old(self).shell
            },
            !is_control_content(m.content) ==> {
                &&& final(self).shell.accepted() == old(self).shell.accepted().push(m)
                &&& final(self).shell.queued() == old(self).shell.queued().push(m)
                &&& final(self).control == old(self).control
            },
            final(self).control.in_flight() == old(self).control.in_flight(),
            final(self).control.completed() == old(self).control.completed(),
            final(self).shell.in_flight() == old(self).shell.in_flight(),
            final(self).shell.completed() == old(self).shell.completed(),
    {
        proof {
            lemma_partition_push(old(self).submitted(), m);
        }
        let c = classify(m.content);
        match c {
            Channel::Control => {
                self.control.accept(m);
            },
            Channel::Shell => {
                self.shell.accept(m);
            },
        }
        proof {
            self.submitted@ = self.submitted@.push(m);
        }
        c
    }
}

/// Over a whole run, the control channel accepted control-class messages
/// and nothing else, and the shell channel the rest: the classification
/// holds message by message for every stream the router produced.
pub proof fn lemma_channels_carry_their_class(r: MessageRouter)
    requires
        r.wf(),
    ensures
        forall|i: int|
            0 <= i < r.control.accepted().len() ==> is_control_content(
                #[trigger] r.control.accepted()[i].content,
            ),
        forall|i: int|
            0 <= i < r.shell.accepted().len() ==> !is_control_content(
                #[trigger] r.shell.accepted()[i].content,
            ),
{
    broadcast use vstd::seq_lib::group_filter_ensures;

    assert forall|i: int| 0 <= i < r.control.accepted().len() implies is_control_content(
        #[trigger] r.control.accepted()[i].content,
    ) by {
        r.submitted().lemma_filter_pred(|m: KernelMessage| is_control_content(m.content), i);
    }
    assert forall|i: int| 0 <= i < r.shell.accepted().len() implies !is_control_content(
        #[trigger] r.shell.accepted()[i].content,
    ) by {
        r.submitted().lemma_filter_pred(|m: KernelMessage| !is_control_content(m.content), i);
    }
}

/// Pushing a message extends exactly one of the two classified parts of the
/// submission stream, by that message.
proof fn lemma_partition_push(s: Seq<KernelMessage>, m: KernelMessage)
    ensures
        is_control_content(m.content) ==> control_part(s.push(m)) == control_part(s).push(m)
            && shell_part(s.push(m)) == shell_part(s),
        !is_control_content(m.content) ==> shell_part(s.push(m)) == shell_part(s).push(m)
            && control_part(s.push(m)) == control_part(s),
{
    reveal(Seq::filter);
    assert(s.push(m).drop_last() =~= s);
    assert(s.push(m).last() == m);
}

} // verus!
