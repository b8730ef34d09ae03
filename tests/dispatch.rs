use linkwatch::datagram::event_datagram;
use linkwatch::dispatch::{
    after_send, change_title, classify, exit_code, handle_message, link_event, notifications,
    on_link_created, on_link_deleted, on_link_set, subscription_groups, Diagnostic, Dispatcher,
    ExitReason, LinkChange, LoopState, OutboundEvent,
};
use linkwatch::message::{find_ifname, LinkAttr, LinkMessage, NetlinkPayload, RtnlMessage};

fn link(attrs: Vec<LinkAttr>) -> LinkMessage {
    LinkMessage { attrs }
}

fn named(name: &str) -> LinkMessage {
    link(vec![LinkAttr::IfName(name.to_string())])
}

fn titles_and_texts(evs: &[OutboundEvent]) -> Vec<(String, String)> {
    evs.iter().map(|e| (e.title.clone(), e.text.clone())).collect()
}

#[test]
fn find_ifname_first_match() {
    let lm = link(vec![
        LinkAttr::Other(4),
        LinkAttr::IfName("eth0".to_string()),
        LinkAttr::IfName("eth1".to_string()),
    ]);
    assert_eq!(find_ifname(&lm), Some("eth0".to_string()));
}

#[test]
fn find_ifname_absent() {
    assert_eq!(find_ifname(&link(vec![])), None);
    assert_eq!(find_ifname(&link(vec![LinkAttr::Other(1), LinkAttr::Other(2)])), None);
}

#[test]
fn unrelated_attrs_do_not_change_name() {
    let plain = named("wlan0");
    let padded = link(vec![
        LinkAttr::Other(7),
        LinkAttr::Other(13),
        LinkAttr::IfName("wlan0".to_string()),
        LinkAttr::Other(3),
    ]);
    assert_eq!(find_ifname(&plain), find_ifname(&padded));
    assert_eq!(find_ifname(&padded), find_ifname(&padded));
}

#[test]
fn created_with_name_gives_one_event() {
    let ev = on_link_created(&named("veth9")).expect("an event");
    assert_eq!(ev.title, "Interface Created");
    assert_eq!(ev.text, "veth9");
}

#[test]
fn created_without_name_gives_none() {
    assert!(on_link_created(&link(vec![LinkAttr::Other(2)])).is_none());
}

#[test]
fn deleted_and_set_titles() {
    assert_eq!(on_link_deleted(&named("br0")).unwrap().title, "Interface Deleted");
    assert_eq!(on_link_set(&named("br0")).unwrap().title, "Interface Set");
    assert_eq!(link_event(LinkChange::Modified, &named("lo")).unwrap().text, "lo");
    assert_eq!(change_title(LinkChange::Created), "Interface Created");
}

#[test]
fn non_link_kinds_are_silent() {
    let kinds = vec![
        RtnlMessage::GetLink(named("eth0")),
        RtnlMessage::NewAddress,
        RtnlMessage::DelAddress,
        RtnlMessage::GetAddress,
        RtnlMessage::NewNeighbour,
        RtnlMessage::GetNeighbour,
        RtnlMessage::DelNeighbour,
        RtnlMessage::NewRule,
        RtnlMessage::DelRule,
        RtnlMessage::GetRule,
        RtnlMessage::NewRoute,
        RtnlMessage::DelRoute,
        RtnlMessage::GetRoute,
        RtnlMessage::Other,
    ];
    for k in kinds.iter() {
        assert!(handle_message(k).is_none());
    }
}

#[test]
fn unhandled_kind_is_logged() {
    let r = classify(&NetlinkPayload::InnerMessage(RtnlMessage::NewRoute));
    assert!(r.notification.is_none());
    assert!(matches!(r.diagnostic, Some(Diagnostic::Unhandled)));
    let r = classify(&NetlinkPayload::InnerMessage(RtnlMessage::GetLink(named("eth0"))));
    assert!(r.notification.is_none());
    assert!(matches!(r.diagnostic, Some(Diagnostic::Unhandled)));
    let r = classify(&NetlinkPayload::InnerMessage(RtnlMessage::SetLink(link(vec![]))));
    assert!(r.notification.is_none());
    assert!(r.diagnostic.is_none());
}

#[test]
fn every_envelope_kind_keeps_the_loop_running() {
    let payloads = vec![
        NetlinkPayload::Done,
        NetlinkPayload::Error(-22),
        NetlinkPayload::Ack,
        NetlinkPayload::Noop,
        NetlinkPayload::Overrun(64),
        NetlinkPayload::InnerMessage(RtnlMessage::NewLink(named("eth0"))),
    ];
    let mut d = Dispatcher::new();
    for p in payloads.iter() {
        let r = d.step(Some(p));
        assert!(r.diagnostic.is_some());
        assert!(d.state == LoopState::AwaitingEnvelope);
    }
    assert!(matches!(classify(&NetlinkPayload::Error(-22)).diagnostic, Some(Diagnostic::Error(-22))));
}

#[test]
fn scenario_link_created() {
    let mut d = Dispatcher::new();
    let p = NetlinkPayload::InnerMessage(RtnlMessage::NewLink(named("eth0")));
    let r = d.step(Some(&p));
    let ev = r.notification.expect("one notify call");
    assert_eq!(ev.title, "Interface Created");
    assert_eq!(ev.text, "eth0");
    assert!(matches!(r.diagnostic, Some(Diagnostic::Link(LinkChange::Created, ref n)) if n == "eth0"));
}

#[test]
fn scenario_link_deleted_without_name() {
    let ps = vec![NetlinkPayload::InnerMessage(RtnlMessage::DelLink(link(vec![])))];
    assert!(notifications(&ps).is_empty());
}

#[test]
fn scenario_overrun() {
    let mut d = Dispatcher::new();
    let r = d.step(Some(&NetlinkPayload::Overrun(128)));
    assert!(r.notification.is_none());
    assert!(matches!(r.diagnostic, Some(Diagnostic::Overrun(128))));
    assert!(d.state == LoopState::AwaitingEnvelope);
}

#[test]
fn scenario_three_in_order() {
    let ps = vec![
        NetlinkPayload::InnerMessage(RtnlMessage::NewLink(named("eth0"))),
        NetlinkPayload::InnerMessage(RtnlMessage::SetLink(named("eth0"))),
        NetlinkPayload::InnerMessage(RtnlMessage::DelLink(named("eth0"))),
    ];
    let evs = notifications(&ps);
    assert_eq!(
        titles_and_texts(&evs),
        vec![
            ("Interface Created".to_string(), "eth0".to_string()),
            ("Interface Set".to_string(), "eth0".to_string()),
            ("Interface Deleted".to_string(), "eth0".to_string()),
        ]
    );
}

#[test]
fn order_kept_across_mixed_stream() {
    let ps = vec![
        NetlinkPayload::InnerMessage(RtnlMessage::SetLink(named("a"))),
        NetlinkPayload::Overrun(8),
        NetlinkPayload::InnerMessage(RtnlMessage::NewAddress),
        NetlinkPayload::InnerMessage(RtnlMessage::NewLink(link(vec![]))),
        NetlinkPayload::InnerMessage(RtnlMessage::NewLink(named("b"))),
    ];
    let evs = notifications(&ps);
    assert_eq!(
        titles_and_texts(&evs),
        vec![
            ("Interface Set".to_string(), "a".to_string()),
            ("Interface Created".to_string(), "b".to_string()),
        ]
    );
}

#[test]
fn stream_end_exhausts_loop() {
    let mut d = Dispatcher::new();
    let r = d.step(None);
    assert!(d.state == LoopState::Exhausted);
    assert!(r.notification.is_none());
    assert!(matches!(r.diagnostic, Some(Diagnostic::StreamEnded)));
}

#[test]
fn subscription_groups_value() {
    assert_eq!(subscription_groups(), 31);
    assert_eq!(Dispatcher::new().groups, 31);
}

#[test]
fn exit_codes_distinct() {
    assert_eq!(exit_code(ExitReason::StreamExhausted), 0);
    assert_eq!(exit_code(ExitReason::BindFailed), 2);
    assert_eq!(exit_code(ExitReason::NotifierFailed), 3);
}

#[test]
fn send_failure_is_logged() {
    let ev = on_link_set(&named("eth2")).unwrap();
    assert!(after_send(LinkChange::Modified, &ev, true).is_none());
    let d = after_send(LinkChange::Modified, &ev, false);
    assert!(matches!(d, Some(Diagnostic::NotifyFailed(LinkChange::Modified, ref n)) if n == "eth2"));
}

#[test]
fn datagram_ascii() {
    let ev = on_link_created(&named("eth0")).unwrap();
    assert_eq!(event_datagram(&ev), "_e{17,4}:Interface Created|eth0");
}

#[test]
fn datagram_counts_bytes() {
    let ev = OutboundEvent { title: "Interface Set".to_string(), text: "é".to_string() };
    assert_eq!(event_datagram(&ev), "_e{13,2}:Interface Set|é");
}
