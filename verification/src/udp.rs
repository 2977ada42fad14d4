//! UDP forwarding: the listener of one port, and the flows it starts.
//!
//! The listener files every datagram it receives in the flow table. A sender
//! without a flow gets one: a task of its own with an upstream socket of its
//! own, which sends what arrives in its mailbox to the target, sends what the
//! target answers back to its client, and ends when nothing has passed for
//! the idle timeout.

use crate::addr::{get_unspecified, SocketAddress};
use crate::error::RelayError;
use crate::idle::ticks;
use crate::table::{Dispatch, FlowTable, Received};
use vstd::prelude::*;

verus! {

/// What the task of a new flow needs to know.
#[derive(Clone, Copy, Debug, PartialEq, Eq, Structural)]
pub struct FlowPlan {
    /// The address that the flow serves: where its replies go.
    pub client: SocketAddress,
    /// The local address to bind the flow's own upstream socket to.
    pub bind: SocketAddress,
    /// The target to connect the upstream socket to.
    pub connect: SocketAddress,
    /// The idle timeout, in ticks.
    pub idle_timeout: u64,
    /// The size of the receive buffer, in bytes.
    pub buffer_size: usize,
}

/// What the listener does about a datagram.
#[derive(Clone, Copy, Debug, PartialEq, Eq, Structural)]
pub enum ListenerAction {
    /// A flow was created for the sender: start its task.
    Spawn(FlowPlan),
    /// The datagram waits in the mailbox of this address's flow: wake its
    /// task.
    Wake(SocketAddress),
    /// The datagram was dropped: nothing to do.
    Discard,
}

/// The receiving side of one UDP listen port: where it forwards to, and the
/// flows it has.
pub struct UdpListener {
    /// The address of the target.
    pub target: SocketAddress,
    /// The idle timeout of a flow, in seconds.
    pub timeout: u64,
    /// The address that the listener receives on.
    pub inbound: SocketAddress,
    /// The size of a receive buffer, in bytes.
    pub buffer_size: usize,
    /// The flows by client address.
    pub table: FlowTable,
}

impl UdpListener {
    /// The listener's table is well formed.
    pub open spec fn wf(&self) -> bool {
        self.table.wf()
    }

    /// The plan of a flow for `client`: its upstream socket binds to the
    /// wildcard address of the target's family, with a port that the system
    /// picks, and connects to the target.
    pub open spec fn plan(&self, client: SocketAddress) -> FlowPlan {
        FlowPlan {
            client,
            bind: get_unspecified(&self.target.ip),
            connect: self.target,
            idle_timeout: ticks(self.timeout),
            buffer_size: self.buffer_size,
        }
    }

    /// What the listener answers to a datagram from `source`.
    pub open spec fn answer(&self, source: SocketAddress) -> ListenerAction {
        match self.table.dispatch_outcome(source) {
            Dispatch::Started => ListenerAction::Spawn(self.plan(source)),
            Dispatch::Queued => ListenerAction::Wake(source),
            Dispatch::Dropped => ListenerAction::Discard,
        }
    }

    /// A listener on `inbound` that forwards to `target`, with no flows yet.
    ///
    /// `timeout_dur` is a flow's idle timeout in seconds, `buffer_size` the
    /// size of a receive buffer in bytes, and `udp_channel_buffer_size` the
    /// capacity of each flow's mailbox.
    pub fn new(
        target: SocketAddress,
        timeout_dur: u64,
        inbound: SocketAddress,
        buffer_size: usize,
        udp_channel_buffer_size: usize,
    ) -> (listener: UdpListener)
        ensures
            listener.wf(),
            listener.target == target,
            listener.timeout == timeout_dur,
            listener.inbound == inbound,
            listener.buffer_size == buffer_size,
            listener.table@ == Map::<SocketAddress, Seq<Seq<u8>>>::empty(),
            listener.table.mailbox_capacity() == udp_channel_buffer_size,
    {
        UdpListener {
            target,
            timeout: timeout_dur,
            inbound,
            buffer_size,
            table: FlowTable::new(udp_channel_buffer_size),
        }
    }
}

/// Handles one datagram that the listener received from `source`.
///
/// The datagram is dispatched into the flow table. If the sender had no
/// flow, one now exists with the datagram in its mailbox, and the answer is
/// the plan for its task. If it had one, the datagram waits behind the
/// others and the answer is to wake the flow, unless the mailbox was full:
/// then the datagram is dropped. No other flow is touched, and the call
/// never waits.
pub fn udp_listen_handler(
    listener: &mut UdpListener,
    source: SocketAddress,
    datagram: Vec<u8>,
) -> (action: ListenerAction)
    requires
        old(listener).wf(),
    ensures
        final(listener).wf(),
        final(listener).target == old(listener).target,
        final(listener).timeout == old(listener).timeout,
        final(listener).inbound == old(listener).inbound,
        final(listener).buffer_size == old(listener).buffer_size,
        final(listener).table.mailbox_capacity() == old(listener).table.mailbox_capacity(),
        final(listener).table@ == old(listener).table.after_dispatch(source, datagram@),
        action == old(listener).answer(source),
{
    match listener.table.dispatch(source, datagram) {
        Dispatch::Started => ListenerAction::Spawn(
            FlowPlan {
                client: source,
                bind: get_unspecified(&listener.target.ip),
                connect: listener.target,
                idle_timeout: ticks(listener.timeout),
                buffer_size: listener.buffer_size,
            },
        ),
        Dispatch::Queued => ListenerAction::Wake(source),
        Dispatch::Dropped => ListenerAction::Discard,
    }
}

/// What happened in a flow.
#[derive(Debug)]
pub enum FlowEvent {
    /// The flow was woken: its mailbox may hold datagrams.
    Wake,
    /// The upstream socket produced a datagram, or failed to.
    Upstream(Result<Vec<u8>, std::io::Error>),
    /// A send finished: so many bytes went out, or it failed.
    Sent(Result<usize, std::io::Error>),
    /// The time to check the deadline has come.
    Timer,
}

/// What a flow needs done next.
#[derive(Debug)]
pub enum FlowAction {
    /// Send this datagram to the target over the flow's upstream socket, and
    /// come back with [`FlowEvent::Sent`].
    SendUpstream(Vec<u8>),
    /// Send this datagram from the listener's socket to `to`, and come back
    /// with [`FlowEvent::Sent`].
    SendToClient { to: SocketAddress, datagram: Vec<u8> },
    /// Nothing to send: wait for the next event, the timer at
    /// [`UdpFlow::deadline`] among them.
    Wait,
    /// The flow has ended, for this reason. Its entry is gone from the table.
    End(RelayError),
}

/// One flow: the client it serves and its idle deadline. All times are in
/// ticks.
pub struct UdpFlow {
    /// The address that the flow serves.
    pub client: SocketAddress,
    /// How long the flow may stay without a send or a receive.
    pub timeout: u64,
    /// When the flow ends if nothing is sent or received before.
    pub deadline: u64,
    /// Whether the flow has ended.
    pub over: bool,
}

impl UdpFlow {
    /// The flow of `plan` as it starts at time `now`.
    pub open spec fn started(plan: FlowPlan, now: u64) -> UdpFlow {
        UdpFlow {
            client: plan.client,
            timeout: plan.idle_timeout,
            deadline: now.saturating_add(plan.idle_timeout),
            over: false,
        }
    }

    /// The flow after a send or a receive succeeded at `now`: the deadline
    /// moves to one timeout after it.
    pub open spec fn refreshed(self, now: u64) -> UdpFlow {
        UdpFlow { deadline: now.saturating_add(self.timeout), ..self }
    }

    /// The flow as it ends.
    pub open spec fn ended(self) -> UdpFlow {
        UdpFlow { over: true, ..self }
    }

    /// Whether `event` makes the flow look into its mailbox: a wake-up, or a
    /// send that went well, after which the next datagram is due.
    pub open spec fn polls(event: FlowEvent) -> bool {
        event is Wake || event matches FlowEvent::Sent(Ok(_))
    }

    /// Whether `event` is a send or a receive that succeeded at or before
    /// the mailbox is looked into.
    pub open spec fn succeeded(event: FlowEvent) -> bool {
        event matches FlowEvent::Sent(Ok(_)) || event matches FlowEvent::Upstream(Ok(_))
    }

    /// Why the flow ends on `event`, if it does, given what waits for its
    /// client in `flows`.
    pub open spec fn ends_with(
        self,
        flows: Map<SocketAddress, Seq<Seq<u8>>>,
        event: FlowEvent,
        now: u64,
    ) -> Option<RelayError> {
        match event {
            FlowEvent::Upstream(Err(e)) => Some(RelayError::Read(e)),
            FlowEvent::Sent(Err(e)) => Some(RelayError::Write(e)),
            FlowEvent::Timer => if now >= self.deadline {
                Some(RelayError::Timeout)
            } else {
                None
            },
            FlowEvent::Upstream(Ok(_)) => None,
            _ => if flows.contains_key(self.client) {
                None
            } else {
                Some(RelayError::ChannelClosed)
            },
        }
    }

    /// Whether `action` is what the flow answers to `event`: the end, with
    /// the reason; a datagram from upstream, sent on to the flow's own
    /// client; the oldest datagram of the mailbox, sent upstream; or nothing
    /// to send.
    pub open spec fn answers(
        self,
        flows: Map<SocketAddress, Seq<Seq<u8>>>,
        event: FlowEvent,
        now: u64,
        action: FlowAction,
    ) -> bool {
        match self.ends_with(flows, event, now) {
            Some(reason) => action == FlowAction::End(reason),
            None => match event {
                FlowEvent::Upstream(Ok(datagram)) => action == (FlowAction::SendToClient {
                    to: self.client,
                    datagram,
                }),
                FlowEvent::Timer => action == FlowAction::Wait,
                _ => if flows[self.client].len() > 0 {
                    action matches FlowAction::SendUpstream(d) && d@ == flows[self.client][0]
                } else {
                    action == FlowAction::Wait
                },
            },
        }
    }

    /// The flow after `event`.
    pub open spec fn next(
        self,
        flows: Map<SocketAddress, Seq<Seq<u8>>>,
        event: FlowEvent,
        now: u64,
    ) -> UdpFlow {
        if self.ends_with(flows, event, now) is Some {
            self.ended()
        } else if Self::succeeded(event) || (Self::polls(event) && flows[self.client].len() > 0) {
            self.refreshed(now)
        } else {
            self
        }
    }

    /// The table's contents after `event`.
    pub open spec fn flows_after(
        self,
        flows: Map<SocketAddress, Seq<Seq<u8>>>,
        event: FlowEvent,
        now: u64,
    ) -> Map<SocketAddress, Seq<Seq<u8>>> {
        if self.ends_with(flows, event, now) is Some {
            flows.remove(self.client)
        } else if Self::polls(event) && flows[self.client].len() > 0 {
            flows.insert(self.client, flows[self.client].drop_first())
        } else {
            flows
        }
    }

    /// Starts the flow of `plan` at time `now`.
    pub fn new(plan: &FlowPlan, now: u64) -> (flow: UdpFlow)
        ensures
            flow == Self::started(*plan, now),
    {
        UdpFlow {
            client: plan.client,
            timeout: plan.idle_timeout,
            deadline: now.saturating_add(plan.idle_timeout),
            over: false,
        }
    }

    /// Ends the flow: removes its entry from the table.
    fn end(&mut self, listener: &mut UdpListener, reason: RelayError) -> (action: FlowAction)
        requires
            old(listener).wf(),
        ensures
            final(listener).wf(),
            *final(self) == old(self).ended(),
            final(listener).table@ == old(listener).table@.remove(old(self).client),
            final(listener).table.mailbox_capacity() == old(listener).table.mailbox_capacity(),
            final(listener).target == old(listener).target,
            final(listener).timeout == old(listener).timeout,
            final(listener).inbound == old(listener).inbound,
            final(listener).buffer_size == old(listener).buffer_size,
            action == FlowAction::End(reason),
    {
        let _ = listener.table.evict(&self.client);
        self.over = true;
        FlowAction::End(reason)
    }

    /// Takes the next datagram out of the flow's mailbox.
    fn channel_recv(&mut self, listener: &mut UdpListener, now: u64) -> (action: FlowAction)
        requires
            old(listener).wf(),
        ensures
            final(listener).wf(),
            final(listener).table.mailbox_capacity() == old(listener).table.mailbox_capacity(),
            final(listener).target == old(listener).target,
            final(listener).timeout == old(listener).timeout,
            final(listener).inbound == old(listener).inbound,
            final(listener).buffer_size == old(listener).buffer_size,
            final(self).client == old(self).client,
            final(self).timeout == old(self).timeout,
            !old(listener).table@.contains_key(old(self).client) ==> {
                &&& action == FlowAction::End(RelayError::ChannelClosed)
                &&& *final(self) == old(self).ended()
                &&& final(listener).table@ == old(listener).table@.remove(old(self).client)
            },
            old(listener).table@.contains_key(old(self).client) && old(listener).table@[old(
                self,
            ).client].len() == 0 ==> {
                &&& action == FlowAction::Wait
                &&& *final(self) == *old(self)
                &&& final(listener).table@ == old(listener).table@
            },
            old(listener).table@.contains_key(old(self).client) && old(listener).table@[old(
                self,
            ).client].len() > 0 ==> {
                &&& action matches FlowAction::SendUpstream(d)
                &&& d@ == old(listener).table@[old(self).client][0]
                &&& *final(self) == old(self).refreshed(now)
                &&& final(listener).table@ == old(listener).table@.insert(
                    old(self).client,
                    old(listener).table@[old(self).client].drop_first(),
                )
            },
    {
        match listener.table.receive(&self.client) {
            Received::Datagram(datagram) => {
                self.deadline = now.saturating_add(self.timeout);
                FlowAction::SendUpstream(datagram)
            },
            Received::Empty => FlowAction::Wait,
            Received::Closed => {
                self.over = true;
                FlowAction::End(RelayError::ChannelClosed)
            },
        }
    }
}

/// Moves a flow one step at time `now`.
///
/// A flow that is woken, or has finished a send, takes the oldest datagram
/// out of its mailbox and has it sent upstream. A datagram from upstream is
/// sent back to the flow's own client, and to no other. Every send or
/// receive that succeeds moves the deadline to one timeout later. The flow
/// ends when the deadline is reached, when a send or a receive fails, or
/// when its mailbox is gone; its entry is then removed from the table.
///
/// A flow that has ended takes no event: the event comes back as it is.
pub fn flow_handler(
    flow: &mut UdpFlow,
    listener: &mut UdpListener,
    event: FlowEvent,
    now: u64,
) -> (result: Result<FlowAction, FlowEvent>)
    requires
        old(listener).wf(),
    ensures
        final(listener).wf(),
        final(listener).table.mailbox_capacity() == old(listener).table.mailbox_capacity(),
        final(listener).target == old(listener).target,
        final(listener).timeout == old(listener).timeout,
        final(listener).inbound == old(listener).inbound,
        final(listener).buffer_size == old(listener).buffer_size,
        result is Ok <==> !old(flow).over,
        result matches Ok(action) ==> {
            &&& old(flow).answers(old(listener).table@, event, now, action)
            &&& *final(flow) == old(flow).next(old(listener).table@, event, now)
            &&& final(listener).table@ == old(flow).flows_after(old(listener).table@, event, now)
        },
        result matches Err(refused) ==> {
            &&& refused == event
            &&& *final(flow) == *old(flow)
            &&& final(listener).table@ == old(listener).table@
        },
{
    if flow.over {
        return Err(event);
    }
    let action = match event {
        FlowEvent::Wake => flow.channel_recv(listener, now),
        FlowEvent::Sent(Ok(_)) => {
            let action = flow.channel_recv(listener, now);
            if !flow.over {
                flow.deadline = now.saturating_add(flow.timeout);
            }
            action
        },
        FlowEvent::Sent(Err(e)) => flow.end(listener, RelayError::Write(e)),
        FlowEvent::Upstream(Ok(datagram)) => {
            flow.deadline = now.saturating_add(flow.timeout);
            FlowAction::SendToClient { to: flow.client, datagram }
        },
        FlowEvent::Upstream(Err(e)) => flow.end(listener, RelayError::Read(e)),
        FlowEvent::Timer => {
            if now >= flow.deadline {
                flow.end(listener, RelayError::Timeout)
            } else {
                FlowAction::Wait
            }
        },
    };
    Ok(action)
}

/// Idle eviction: a flow that is asked at its deadline or later ends with
/// [`RelayError::Timeout`] and its address leaves the table, so that the
/// next datagram from that address starts a new flow. Before the deadline
/// the timer changes nothing.
pub proof fn lemma_idle_eviction(
    flow: UdpFlow,
    flows: Map<SocketAddress, Seq<Seq<u8>>>,
    now: u64,
)
    requires
        !flow.over,
    ensures
        now >= flow.deadline ==> {
            &&& flow.answers(flows, FlowEvent::Timer, now, FlowAction::End(RelayError::Timeout))
            &&& flow.next(flows, FlowEvent::Timer, now).over
            &&& !flow.flows_after(flows, FlowEvent::Timer, now).contains_key(flow.client)
        },
        now < flow.deadline ==> {
            &&& flow.answers(flows, FlowEvent::Timer, now, FlowAction::Wait)
            &&& flow.next(flows, FlowEvent::Timer, now) == flow
            &&& flow.flows_after(flows, FlowEvent::Timer, now) == flows
        },
{
}

/// A flow touches its own entry alone, and answers its own client alone:
/// whatever the event, the mailbox of every other address stays as it was,
/// and a datagram from upstream goes to the flow's client.
pub proof fn lemma_flow_keeps_to_itself(
    flow: UdpFlow,
    flows: Map<SocketAddress, Seq<Seq<u8>>>,
    event: FlowEvent,
    now: u64,
    other: SocketAddress,
    action: FlowAction,
)
    requires
        other != flow.client,
        flow.answers(flows, event, now, action),
    ensures
        flow.flows_after(flows, event, now).contains_key(other) == flows.contains_key(other),
        flows.contains_key(other) ==> flow.flows_after(flows, event, now)[other] == flows[other],
        action matches FlowAction::SendToClient { to, .. } ==> to == flow.client,
{
}

} // verus!
