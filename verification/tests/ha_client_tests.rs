use aegispanel_core::ha_client::{
    next_backoff, parse_ha_state, DisarmRequest, HaEntityState, HaEvent, HaFrame, HaLink, HaMessage,
    HaOutbound, HaPhase, HaReaction, INITIAL_BACKOFF_SECS,
};
use aegispanel_core::state_machine::AlarmStatus;

fn message(msg_type: &str) -> HaMessage {
    HaMessage {
        msg_type: Some(msg_type.to_string()),
        id: None,
        success: None,
        event_entity_id: None,
        event_new_state: None,
        error_message: None,
        result: None,
    }
}

fn link() -> HaLink {
    HaLink::new(
        "https://ha.example.com".to_string(),
        "token-1".to_string(),
        "alarm_control_panel.alarmo".to_string(),
    )
}

fn events(r: HaReaction) -> Vec<HaEvent> {
    assert!(r.reconnect_after.is_none(), "unexpected disconnect");
    assert!(r.send.is_empty());
    r.report
}

/// A link that has completed the handshake: ids 1 and 2 went to the
/// subscription and the state query.
fn live_link() -> HaLink {
    let mut l = link();
    let r = l.on_connect_result(true);
    assert!(matches!(&r.report[..], [HaEvent::Connected]));
    let r = l.on_frame(&HaFrame::Message(message("auth_required")));
    match &r.send[..] {
        [HaOutbound::Auth { access_token }] => assert_eq!(access_token, "token-1"),
        _ => panic!("no auth message"),
    }
    assert_eq!(l.phase(), HaPhase::AwaitingAuthResult);
    let r = l.on_frame(&HaFrame::Message(message("auth_ok")));
    assert!(matches!(
        &r.send[..],
        [HaOutbound::SubscribeStateChanged { id: 1 }, HaOutbound::GetStates { id: 2 }]
    ));
    assert_eq!(l.phase(), HaPhase::Live);
    l
}

#[test]
fn parse_every_alarmo_state() {
    let table = [
        ("disarmed", AlarmStatus::Disarmed),
        ("armed_home", AlarmStatus::ArmedHome),
        ("armed_away", AlarmStatus::ArmedAway),
        ("armed_night", AlarmStatus::ArmedNight),
        ("armed_vacation", AlarmStatus::ArmedVacation),
        ("arming", AlarmStatus::Arming),
        ("disarming", AlarmStatus::Disarming),
        ("pending", AlarmStatus::Pending),
        ("triggered", AlarmStatus::Triggered),
        ("", AlarmStatus::Unknown),
        ("Armed_Home", AlarmStatus::Unknown),
        ("armed_custom_bypass", AlarmStatus::ArmedCustom),
        ("armed_", AlarmStatus::ArmedCustom),
    ];
    for (s, st) in table {
        assert_eq!(parse_ha_state(s), st, "{}", s);
    }
}

#[test]
fn websocket_url_switches_scheme() {
    assert_eq!(link().websocket_url(), "wss://ha.example.com/api/websocket");
    let l = HaLink::new("http://192.168.1.50:8123".to_string(), String::new(), String::new());
    assert_eq!(l.websocket_url(), "ws://192.168.1.50:8123/api/websocket");
    let l = HaLink::new("ha.local".to_string(), String::new(), String::new());
    assert_eq!(l.websocket_url(), "ha.local/api/websocket");
}

#[test]
fn handshake_makes_the_link_live() {
    let l = live_link();
    assert_eq!(l.phase(), HaPhase::Live);
}

#[test]
fn failed_handshake_retries_without_longer_delay() {
    let mut l = link();
    l.on_connect_result(true);
    let r = l.on_frame(&HaFrame::Message(message("auth_required")));
    assert_eq!(r.send.len(), 1);
    let r = l.on_frame(&HaFrame::Message(message("auth_invalid")));
    assert_eq!(r.reconnect_after, Some(1));
    assert!(matches!(&r.report[..], [HaEvent::Disconnected]));
    assert_eq!(l.phase(), HaPhase::Connecting);
    l.on_connect_result(true);
    let r = l.on_frame(&HaFrame::Closed);
    assert_eq!(r.reconnect_after, Some(1));
}

#[test]
fn failed_connections_back_off() {
    let mut l = link();
    let mut waits = vec![];
    for _ in 0..7 {
        let r = l.on_connect_result(false);
        assert!(matches!(&r.report[..], [HaEvent::Disconnected]));
        waits.push(r.reconnect_after.expect("reconnect"));
    }
    assert_eq!(waits, vec![1, 2, 4, 8, 16, 30, 30]);
    let r = l.on_connect_result(true);
    assert!(r.reconnect_after.is_none());
    l.on_frame(&HaFrame::Ignored);
    assert_eq!(l.on_connect_result(false).reconnect_after, Some(1));
}

#[test]
fn session_ids_count_up_from_one() {
    let mut l = live_link();
    let r = l.on_ping_tick();
    assert!(matches!(&r.send[..], [HaOutbound::Ping { id: 3 }]));
}

#[test]
fn unanswered_ping_drops_the_connection() {
    let mut l = live_link();
    assert_eq!(l.on_ping_tick().send.len(), 1);
    let r = l.on_ping_tick();
    assert_eq!(r.reconnect_after, Some(1));
    assert!(matches!(&r.report[..], [HaEvent::Disconnected]));
    assert_eq!(l.phase(), HaPhase::Connecting);
}

#[test]
fn pong_answers_the_heartbeat() {
    let mut l = live_link();
    assert_eq!(l.on_ping_tick().send.len(), 1);
    let evts = events(l.on_frame(&HaFrame::Message(message("pong"))));
    assert!(evts.is_empty());
    assert!(matches!(&l.on_ping_tick().send[..], [HaOutbound::Ping { id: 4 }]));
}

#[test]
fn lost_ping_drops_lost_disarm_reports() {
    let mut l = live_link();
    let r = l.on_send_failed(&HaOutbound::Ping { id: 3 });
    assert_eq!(r.reconnect_after, Some(1));
    let mut l = live_link();
    let r = l.on_send_failed(&HaOutbound::Disarm { id: 3, entity_id: "x".to_string(), code: None });
    assert!(r.reconnect_after.is_none());
    match &r.report[..] {
        [HaEvent::DisarmResult { success: false, message: Some(m) }] => assert_eq!(m, "Netzwerkfehler beim Senden"),
        _ => panic!("no failure report"),
    }
    assert!(l.on_send_failed(&HaOutbound::GetStates { id: 2 }).report.is_empty());
}

#[test]
fn closed_stream_disconnects() {
    let mut l = live_link();
    assert!(events(l.on_frame(&HaFrame::Ignored)).is_empty());
    let r = l.on_frame(&HaFrame::Closed);
    assert_eq!(r.reconnect_after, Some(1));
    assert_eq!(l.phase(), HaPhase::Connecting);
}

#[test]
fn alarmo_state_change_is_reported() {
    let mut l = live_link();
    let mut m = message("event");
    m.event_entity_id = Some("alarm_control_panel.alarmo".to_string());
    m.event_new_state = Some("armed_away".to_string());
    let evts = events(l.on_frame(&HaFrame::Message(m)));
    assert_eq!(evts.len(), 1);
    assert!(matches!(evts[0], HaEvent::AlarmStateUpdated(AlarmStatus::ArmedAway)));

    let mut other = message("event");
    other.event_entity_id = Some("light.kitchen".to_string());
    other.event_new_state = Some("on".to_string());
    assert!(events(l.on_frame(&HaFrame::Message(other))).is_empty());
}

#[test]
fn initial_states_report_the_alarmo_entity() {
    let mut l = live_link();
    let mut m = message("result");
    m.id = Some(2);
    m.success = Some(true);
    m.result = Some(vec![
        HaEntityState { entity_id: Some("light.kitchen".to_string()), state: Some("on".to_string()) },
        HaEntityState {
            entity_id: Some("alarm_control_panel.alarmo".to_string()),
            state: Some("disarmed".to_string()),
        },
        HaEntityState { entity_id: None, state: None },
    ]);
    let evts = events(l.on_frame(&HaFrame::Message(m)));
    assert_eq!(evts.len(), 1);
    assert!(matches!(evts[0], HaEvent::AlarmStateUpdated(AlarmStatus::Disarmed)));
}

#[test]
fn failed_service_call_reports_the_error() {
    let mut l = live_link();
    let mut m = message("result");
    m.id = Some(9);
    m.success = Some(false);
    m.error_message = Some("Wrong code".to_string());
    let evts = events(l.on_frame(&HaFrame::Message(m)));
    match &evts[..] {
        [HaEvent::DisarmResult { success: false, message: Some(msg) }] => assert_eq!(msg, "Wrong code"),
        _ => panic!("unexpected events"),
    }
    let mut m = message("result");
    m.success = Some(false);
    let evts = events(l.on_frame(&HaFrame::Message(m)));
    match &evts[..] {
        [HaEvent::DisarmResult { success: false, message: Some(msg) }] => assert_eq!(msg, "PIN Falsch"),
        _ => panic!("unexpected events"),
    }
}

#[test]
fn successful_service_call_reports_success() {
    let mut l = live_link();
    let mut m = message("result");
    m.id = Some(7);
    m.success = Some(true);
    let evts = events(l.on_frame(&HaFrame::Message(m)));
    assert!(matches!(&evts[..], [HaEvent::DisarmResult { success: true, message: None }]));
}

#[test]
fn disarm_call_defaults_to_alarmo_and_omits_empty_pin() {
    let mut l = live_link();
    let req = DisarmRequest { pin: String::new(), entity_id: String::new() };
    match &l.on_disarm(&req).send[..] {
        [HaOutbound::Disarm { id, entity_id, code }] => {
            let id = *id;
            assert_eq!(id, 3);
            assert_eq!(entity_id, "alarm_control_panel.alarmo");
            assert!(code.is_none());
        }
        _ => panic!("not a disarm call"),
    }
    let req = DisarmRequest { pin: "1234".to_string(), entity_id: "alarm_control_panel.garage".to_string() };
    match &l.on_disarm(&req).send[..] {
        [HaOutbound::Disarm { id, entity_id, code }] => {
            let id = *id;
            assert_eq!(id, 4);
            assert_eq!(entity_id, "alarm_control_panel.garage");
            assert_eq!(code.as_deref(), Some("1234"));
        }
        _ => panic!("not a disarm call"),
    }
}

#[test]
fn disarm_before_handshake_sends_nothing() {
    let mut l = link();
    let req = DisarmRequest { pin: "1234".to_string(), entity_id: String::new() };
    let r = l.on_disarm(&req);
    assert!(r.send.is_empty());
    assert!(r.report.is_empty());
    assert!(r.reconnect_after.is_none());
    let r = l.on_connect_result(true);
    assert!(matches!(&r.report[..], [HaEvent::Connected]));
    assert!(l.on_disarm(&req).send.is_empty());
    assert_eq!(l.phase(), HaPhase::AwaitingAuthRequest);
}

#[test]
fn backoff_doubles_up_to_thirty_seconds() {
    let mut b = INITIAL_BACKOFF_SECS;
    let mut seen = vec![b];
    for _ in 0..6 {
        b = next_backoff(b);
        seen.push(b);
    }
    assert_eq!(seen, vec![1, 2, 4, 8, 16, 30, 30]);
}
