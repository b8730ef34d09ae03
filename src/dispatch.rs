use vstd::prelude::*;

use crate::message::{find_ifname, LinkMessage, NetlinkPayload, RtnlMessage};

verus! {

/// The three link changes that are reported.
#[derive(Clone, Copy, Debug, PartialEq, Eq, Structural)]
pub enum LinkChange {
    Created,
    Deleted,
    Modified,
}

/// The event title sent for a link change.
pub open spec fn title_of(change: LinkChange) -> Seq<char> {
    match change {
        LinkChange::Created => "Interface Created"@,
        LinkChange::Deleted => "Interface Deleted"@,
        LinkChange::Modified => "Interface Set"@,
    }
}

/// Returns the event title for a link change.
pub fn change_title(change: LinkChange) -> (r: String)
    ensures
        r@ == title_of(change),
{
    match change {
        LinkChange::Created => "Interface Created".to_owned(),
        LinkChange::Deleted => "Interface Deleted".to_owned(),
        LinkChange::Modified => "Interface Set".to_owned(),
    }
}

/// An event handed to the notifier: a title and a free-text body.
pub struct OutboundEvent {
    pub title: String,
    pub text: String,
}

impl View for OutboundEvent {
    type V = (Seq<char>, Seq<char>);

    open spec fn view(&self) -> (Seq<char>, Seq<char>) {
        (self.title@, self.text@)
    }
}

pub open spec fn opt_view(e: Option<OutboundEvent>) -> Option<(Seq<char>, Seq<char>)> {
    match e {
        Some(ev) => Some(ev@),
        None => None,
    }
}

/// The event owed for a change of the link described by `lm`: none when the
/// message carries no interface name.
pub open spec fn event_for(change: LinkChange, lm: LinkMessage) -> Option<(Seq<char>, Seq<char>)> {
    match lm.ifname() {
        Some(name) => Some((title_of(change), name)),
        None => None,
    }
}

/// The event owed for a routing message: only link creation, deletion and
/// modification are reported.
pub open spec fn notification_of(msg: RtnlMessage) -> Option<(Seq<char>, Seq<char>)> {
    match msg {
        RtnlMessage::NewLink(lm) => event_for(LinkChange::Created, lm),
        RtnlMessage::DelLink(lm) => event_for(LinkChange::Deleted, lm),
        RtnlMessage::SetLink(lm) => event_for(LinkChange::Modified, lm),
        _ => None,
    }
}

/// The event owed for one envelope of the stream.
pub open spec fn payload_notification(p: NetlinkPayload) -> Option<(Seq<char>, Seq<char>)> {
    match p {
        NetlinkPayload::InnerMessage(msg) => notification_of(msg),
        _ => None,
    }
}

/// Builds the event for a link change, if the message names the interface.
pub fn link_event(change: LinkChange, lm: &LinkMessage) -> (r: Option<OutboundEvent>)
    ensures
        opt_view(r) == event_for(change, *lm),
{
    match find_ifname(lm) {
        Some(name) => Some(OutboundEvent { title: change_title(change), text: name }),
        None => None,
    }
}

/// The event for a newly created link.
pub fn on_link_created(lm: &LinkMessage) -> (r: Option<OutboundEvent>)
    ensures
        opt_view(r) == event_for(LinkChange::Created, *lm),
{
    link_event(LinkChange::Created, lm)
}

/// The event for a deleted link.
pub fn on_link_deleted(lm: &LinkMessage) -> (r: Option<OutboundEvent>)
    ensures
        opt_view(r) == event_for(LinkChange::Deleted, *lm),
{
    link_event(LinkChange::Deleted, lm)
}

/// The event for a link whose settings changed.
pub fn on_link_set(lm: &LinkMessage) -> (r: Option<OutboundEvent>)
    ensures
        opt_view(r) == event_for(LinkChange::Modified, *lm),
{
    link_event(LinkChange::Modified, lm)
}

/// Routes a routing message by kind to the event it calls for.
pub fn handle_message(msg: &RtnlMessage) -> (r: Option<OutboundEvent>)
    ensures
        opt_view(r) == notification_of(*msg),
{
    match msg {
        RtnlMessage::NewLink(lm) => on_link_created(lm),
        RtnlMessage::DelLink(lm) => on_link_deleted(lm),
        RtnlMessage::SetLink(lm) => on_link_set(lm),
        _ => None,
    }
}

/// A diagnostic line for the console; rendering it is left to the caller.
pub enum Diagnostic {
    Done,
    Error(i32),
    Ack,
    Noop,
    Overrun(usize),
    /// A reported link change, with the interface name.
    Link(LinkChange, String),
    /// A routing message of a kind that is not reported.
    Unhandled,
    /// The stream of envelopes came to an end.
    StreamEnded,
    /// The notifier failed to send the event for this change.
    NotifyFailed(LinkChange, String),
}

/// What the loop does for one envelope: at most one diagnostic, and at most
/// one event to send.
pub struct Reaction {
    pub diagnostic: Option<Diagnostic>,
    pub notification: Option<OutboundEvent>,
}

/// Whether a routing message is one of the link operations.
pub open spec fn is_link(msg: RtnlMessage) -> bool {
    msg is NewLink || msg is DelLink || msg is SetLink || msg is GetLink
}

/// The link change that a routing message reports, if it is one.
pub open spec fn change_of(msg: RtnlMessage) -> Option<LinkChange> {
    match msg {
        RtnlMessage::NewLink(_) => Some(LinkChange::Created),
        RtnlMessage::DelLink(_) => Some(LinkChange::Deleted),
        RtnlMessage::SetLink(_) => Some(LinkChange::Modified),
        _ => None,
    }
}

/// The diagnostic logged for an envelope, described by its shape.
pub open spec fn logs_for(p: NetlinkPayload, d: Option<Diagnostic>) -> bool {
    match p {
        NetlinkPayload::Done => d matches Some(Diagnostic::Done),
        NetlinkPayload::Error(code) => d == Some(Diagnostic::Error(code)),
        NetlinkPayload::Ack => d matches Some(Diagnostic::Ack),
        NetlinkPayload::Noop => d matches Some(Diagnostic::Noop),
        NetlinkPayload::Overrun(n) => d == Some(Diagnostic::Overrun(n)),
        NetlinkPayload::InnerMessage(msg) => match notification_of(msg) {
            Some((_, name)) => d matches Some(Diagnostic::Link(c, n)) && change_of(msg) == Some(c)
                && n@ == name,
            None => if change_of(msg) is Some {
                d is None
            } else {
                d matches Some(Diagnostic::Unhandled)
            },
        },
    }
}

/// Classifies one envelope: control envelopes are only logged, routing
/// messages are routed by kind.
pub fn classify(p: &NetlinkPayload) -> (r: Reaction)
    ensures
        opt_view(r.notification) == payload_notification(*p),
        logs_for(*p, r.diagnostic),
{
    match p {
        NetlinkPayload::Done => Reaction { diagnostic: Some(Diagnostic::Done), notification: None },
        NetlinkPayload::Error(code) => Reaction {
            diagnostic: Some(Diagnostic::Error(*code)),
            notification: None,
        },
        NetlinkPayload::Ack => Reaction { diagnostic: Some(Diagnostic::Ack), notification: None },
        NetlinkPayload::Noop => Reaction { diagnostic: Some(Diagnostic::Noop), notification: None },
        NetlinkPayload::Overrun(n) => Reaction {
            diagnostic: Some(Diagnostic::Overrun(*n)),
            notification: None,
        },
        NetlinkPayload::InnerMessage(msg) => {
            let change = match msg {
                RtnlMessage::NewLink(_) => Some(LinkChange::Created),
                RtnlMessage::DelLink(_) => Some(LinkChange::Deleted),
                RtnlMessage::SetLink(_) => Some(LinkChange::Modified),
                _ => None,
            };
            let notification = handle_message(msg);
            let diagnostic = match (&notification, change) {
                (Some(ev), Some(c)) => Some(Diagnostic::Link(c, ev.text.clone())),
                _ => match msg {
                    RtnlMessage::NewLink(_) | RtnlMessage::DelLink(_) | RtnlMessage::SetLink(_) => None,
                    _ => Some(Diagnostic::Unhandled),
                },
            };
            Reaction { diagnostic, notification }
        },
    }
}

/// Where the dispatch loop stands between envelopes.
#[derive(Clone, Copy, Debug, PartialEq, Eq, Structural)]
pub enum LoopState {
    AwaitingEnvelope,
    /// The stream ended; the process should exit.
    Exhausted,
}

/// The dispatch loop's decisions: it is handed each envelope in arrival
/// order, and says what to log and what to send.
pub struct Dispatcher {
    /// The broadcast groups subscribed to, fixed at start.
    pub groups: u32,
    pub state: LoopState,
}

impl Dispatcher {
    /// A loop bound to the standard subscription, awaiting its first envelope.
    pub fn new() -> (r: Dispatcher)
        ensures
            r.groups == groups_spec(),
            r.state == LoopState::AwaitingEnvelope,
    {
        Dispatcher { groups: subscription_groups(), state: LoopState::AwaitingEnvelope }
    }

    /// Takes the next item of the stream: an envelope, or `None` when the
    /// stream has ended. No envelope ends the loop.
    pub fn step(&mut self, next: Option<&NetlinkPayload>) -> (r: Reaction)
        requires
            old(self).state == LoopState::AwaitingEnvelope,
        ensures
            final(self).groups == old(self).groups,
            match next {
                Some(p) => {
                    &&& final(self).state == LoopState::AwaitingEnvelope
                    &&& opt_view(r.notification) == payload_notification(*p)
                    &&& logs_for(*p, r.diagnostic)
                },
                None => {
                    &&& final(self).state == LoopState::Exhausted
                    &&& r.notification is None
                    &&& r.diagnostic matches Some(Diagnostic::StreamEnded)
                },
            },
    {
        match next {
            Some(p) => classify(p),
            None => {
                self.state = LoopState::Exhausted;
                Reaction { diagnostic: Some(Diagnostic::StreamEnded), notification: None }
            },
        }
    }
}

/// What to log once the notifier has answered for `ev`: nothing when it
/// was sent, a failure line naming the change otherwise. The loop goes on
/// either way.
pub fn after_send(change: LinkChange, ev: &OutboundEvent, sent: bool) -> (r: Option<
    Diagnostic,
>)
    ensures
        sent ==> r is None,
        !sent ==> (r matches Some(Diagnostic::NotifyFailed(c, n)) && c == change && n@
            == ev.text@),
{
    if sent {
        None
    } else {
        Some(Diagnostic::NotifyFailed(change, ev.text.clone()))
    }
}

/// Broadcast group identifiers of the kernel's routing channel.
pub const RTNLGRP_LINK: u32 = 1;
pub const RTNLGRP_NEIGH: u32 = 3;
pub const RTNLGRP_IPV4_IFADDR: u32 = 5;
pub const RTNLGRP_IPV4_MROUTE: u32 = 6;
pub const RTNLGRP_IPV4_ROUTE: u32 = 7;
pub const RTNLGRP_IPV4_RULE: u32 = 8;
pub const RTNLGRP_IPV6_IFADDR: u32 = 9;
pub const RTNLGRP_IPV6_MROUTE: u32 = 10;
pub const RTNLGRP_IPV6_ROUTE: u32 = 11;
pub const RTNLGRP_IPV6_RULE: u32 = 19;
pub const RTNLGRP_IPV4_NETCONF: u32 = 24;
pub const RTNLGRP_IPV6_NETCONF: u32 = 25;
pub const RTNLGRP_MPLS_ROUTE: u32 = 27;
pub const RTNLGRP_NSID: u32 = 28;
pub const RTNLGRP_MPLS_NETCONF: u32 = 29;

/// The subscription: link, address, route, multicast-route, neighbour,
/// netconf, rule and namespace-id changes, or-ed together.
pub open spec fn groups_spec() -> u32 {
    RTNLGRP_LINK | RTNLGRP_IPV4_IFADDR | RTNLGRP_IPV6_IFADDR | RTNLGRP_IPV4_ROUTE
        | RTNLGRP_IPV6_ROUTE | RTNLGRP_MPLS_ROUTE | RTNLGRP_IPV4_MROUTE | RTNLGRP_IPV6_MROUTE
        | RTNLGRP_NEIGH | RTNLGRP_IPV4_NETCONF | RTNLGRP_IPV6_NETCONF | RTNLGRP_IPV4_RULE
        | RTNLGRP_IPV6_RULE | RTNLGRP_NSID | RTNLGRP_MPLS_NETCONF
}

/// The group value the socket is bound with.
pub fn subscription_groups() -> (r: u32)
    ensures
        r == groups_spec(),
{
    RTNLGRP_LINK | RTNLGRP_IPV4_IFADDR | RTNLGRP_IPV6_IFADDR | RTNLGRP_IPV4_ROUTE
        | RTNLGRP_IPV6_ROUTE | RTNLGRP_MPLS_ROUTE | RTNLGRP_IPV4_MROUTE | RTNLGRP_IPV6_MROUTE
        | RTNLGRP_NEIGH | RTNLGRP_IPV4_NETCONF | RTNLGRP_IPV6_NETCONF | RTNLGRP_IPV4_RULE
        | RTNLGRP_IPV6_RULE | RTNLGRP_NSID | RTNLGRP_MPLS_NETCONF
}

/// Why the process stops.
#[derive(Clone, Copy, Debug, PartialEq, Eq, Structural)]
pub enum ExitReason {
    /// The socket could not be opened or bound.
    BindFailed,
    /// The notifier client could not be constructed.
    NotifierFailed,
    /// The stream of envelopes ended.
    StreamExhausted,
}

pub open spec fn exit_code_spec(reason: ExitReason) -> i32 {
    match reason {
        ExitReason::StreamExhausted => 0,
        ExitReason::BindFailed => 2,
        ExitReason::NotifierFailed => 3,
    }
}

/// The process exit code for each way of stopping; distinct for each.
pub fn exit_code(reason: ExitReason) -> (r: i32)
    ensures
        r == exit_code_spec(reason),
{
    match reason {
        ExitReason::StreamExhausted => 0,
        ExitReason::BindFailed => 2,
        ExitReason::NotifierFailed => 3,
    }
}

/// The events owed for a stream of envelopes, in arrival order.
pub open spec fn notifications_of(ps: Seq<NetlinkPayload>) -> Seq<(Seq<char>, Seq<char>)>
    decreases ps.len(),
{
    if ps.len() == 0 {
        seq![]
    } else {
        let prev = notifications_of(ps.drop_last());
        match payload_notification(ps.last()) {
            Some(e) => prev.push(e),
            None => prev,
        }
    }
}

/// Runs a loop over `ps` and collects the events it sends, in order.
pub fn notifications(ps: &Vec<NetlinkPayload>) -> (r: Vec<OutboundEvent>)
    ensures
        r@.map_values(|e: OutboundEvent| e@) == notifications_of(ps@),
{
    let mut d = Dispatcher::new();
    let mut out: Vec<OutboundEvent> = Vec::new();
    let mut i: usize = 0;
    while i < ps.len()
        invariant
            i <= ps@.len(),
            d.state == LoopState::AwaitingEnvelope,
            out@.map_values(|e: OutboundEvent| e@) == notifications_of(ps@.subrange(0, i as int)),
        decreases ps@.len() - i,
    {
        let reaction = d.step(Some(&ps[i]));
        let ghost before = out@;
        assert(ps@.subrange(0, i + 1).drop_last() =~= ps@.subrange(0, i as int));
        match reaction.notification {
            Some(ev) => {
                out.push(ev);
                assert(out@.map_values(|e: OutboundEvent| e@) =~= before.map_values(
                    |e: OutboundEvent| e@,
                ).push(ev@));
            },
            None => {},
        }
        i = i + 1;
    }
    assert(ps@.subrange(0, ps@.len() as int) =~= ps@);
    out
}

/// Events keep arrival order: the events of two stretches of the stream, one
/// after the other, are those of the first followed by those of the second.
pub proof fn lemma_notifications_in_order(a: Seq<NetlinkPayload>, b: Seq<NetlinkPayload>)
    ensures
        notifications_of(a + b) == notifications_of(a) + notifications_of(b),
    decreases b.len(),
{
    if b.len() == 0 {
        assert(a + b =~= a);
        assert(notifications_of(a) + notifications_of(b) =~= notifications_of(a));
    } else {
        lemma_notifications_in_order(a, b.drop_last());
        assert((a + b).drop_last() =~= a + b.drop_last());
        assert((a + b).last() == b.last());
        match payload_notification(b.last()) {
            Some(e) => {
                assert(notifications_of(a) + notifications_of(b) =~= (notifications_of(a)
                    + notifications_of(b.drop_last())).push(e));
            },
            None => {},
        }
    }
}

/// A link creation that names its interface gives exactly one event, titled
/// "Interface Created", whose body is that name.
pub proof fn lemma_created_with_name(lm: LinkMessage, name: Seq<char>)
    requires
        lm.ifname() == Some(name),
    ensures
        notification_of(RtnlMessage::NewLink(lm)) == Some(("Interface Created"@, name)),
        notifications_of(seq![NetlinkPayload::InnerMessage(RtnlMessage::NewLink(lm))])
            == seq![("Interface Created"@, name)],
{
    let ps = seq![NetlinkPayload::InnerMessage(RtnlMessage::NewLink(lm))];
    assert(ps.drop_last() =~= Seq::<NetlinkPayload>::empty());
    assert(notifications_of(ps.drop_last()) =~= seq![]);
    assert(notifications_of(ps) =~= seq![("Interface Created"@, name)]);
}

/// A link creation without an interface name gives no event.
pub proof fn lemma_created_without_name(lm: LinkMessage)
    requires
        lm.ifname() is None,
    ensures
        notification_of(RtnlMessage::NewLink(lm)) is None,
        notifications_of(seq![NetlinkPayload::InnerMessage(RtnlMessage::NewLink(lm))]).len() == 0,
{
    let ps = seq![NetlinkPayload::InnerMessage(RtnlMessage::NewLink(lm))];
    assert(ps.drop_last() =~= Seq::<NetlinkPayload>::empty());
    assert(notifications_of(ps.drop_last()) =~= seq![]);
}

/// Routing messages that are not link messages give no event, whatever they
/// carry.
pub proof fn lemma_non_link_silent(msg: RtnlMessage)
    requires
        !is_link(msg),
    ensures
        notification_of(msg) is None,
{
}

} // verus!
