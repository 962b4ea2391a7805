use ha_client::{
    friendly_name_text, is_off_state, is_on_state, last_updated_text, set_field, state_matches,
    wait_step,
    EntityAttributes, EntityState, HaClient, HaEntity, HaError, JsonValue, StateContext,
    SwitchAction, SwitchPhase, SwitchStep, WaitStep, POLL_INTERVAL_MS,
};

fn s(text: &str) -> String {
    text.to_string()
}

fn state_of(id: &str, state: &str, name: Option<&str>, updated: Option<&str>) -> EntityState {
    EntityState {
        entity_id: Some(s(id)),
        state: s(state),
        attributes: Some(EntityAttributes {
            friendly_name: name.map(s),
            editable: None,
            id: None,
            source: None,
            user_id: None,
            icon: None,
            other_fields: JsonValue::Object(Vec::new()),
        }),
        last_changed: None,
        last_reported: None,
        last_updated: updated.map(s),
        context: Some(StateContext { id: s("ctx"), parent_id: None, user_id: None }),
    }
}

#[test]
fn client_keeps_its_connection() {
    let client = HaClient::new("http://localhost:8123", "your-token");
    assert_eq!(client.ha_url(), "http://localhost:8123");
    assert_eq!(client.ha_token(), "your-token");
}

#[test]
fn entity_inherits_the_connection() {
    let client = HaClient::new("http://localhost:8123", "tok");
    let switch = client.entity("switch.example");
    assert_eq!(switch.entity_id(), "switch.example");
    assert_eq!(switch.ha_url(), "http://localhost:8123");
    assert_eq!(switch.ha_token(), "tok");
    assert_eq!(switch.entity_id_string(), "switch.example");
}

#[test]
fn entity_new_matches_client_entity() {
    let a = HaEntity::new("light.bedroom", "http://h", "t");
    let b = HaClient::new("http://h", "t").entity("light.bedroom");
    assert_eq!(a.entity_id(), b.entity_id());
    assert_eq!(a.ha_url(), b.ha_url());
    assert_eq!(a.ha_token(), b.ha_token());
}

#[test]
fn domain_is_the_part_before_the_first_dot() {
    assert_eq!(HaEntity::new("switch.ce_shi_usb_1", "u", "t").get_domain(), "switch");
    assert_eq!(HaEntity::new("a.b.c", "u", "t").get_domain(), "a");
    assert_eq!(HaEntity::new("light", "u", "t").get_domain(), "light");
    assert_eq!(HaEntity::new("", "u", "t").get_domain(), "");
    assert_eq!(HaEntity::new(".hidden", "u", "t").get_domain(), "");
    assert_eq!(HaEntity::new("传感器.温度", "u", "t").get_domain(), "传感器");
}

#[test]
fn switch_actions_name_their_services() {
    assert_eq!(SwitchAction::TurnOn.service_name(), "turn_on");
    assert_eq!(SwitchAction::TurnOff.service_name(), "turn_off");
    assert_eq!(SwitchAction::Toggle.service_name(), "toggle");
    assert_eq!(SwitchAction::TurnOn.awaited_state(), Some(s("on")));
    assert_eq!(SwitchAction::TurnOff.awaited_state(), Some(s("off")));
    assert_eq!(SwitchAction::Toggle.awaited_state(), None);
}

#[test]
fn switch_request_targets_own_domain() {
    let e = HaClient::new("http://h:8123", "tok").entity("switch.socket1");
    let call = e.switch_request(SwitchAction::TurnOn);
    assert_eq!(call.ha_url, "http://h:8123");
    assert_eq!(call.ha_token, "tok");
    assert_eq!(call.domain, "switch");
    assert_eq!(call.service, "turn_on");
    assert!(!call.return_response);
    assert_eq!(call.payload, vec![(s("entity_id"), JsonValue::Str(s("switch.socket1")))]);

    let off = e.switch_request(SwitchAction::TurnOff);
    assert_eq!(off.service, "turn_off");
    let toggle = e.switch_request(SwitchAction::Toggle);
    assert_eq!(toggle.service, "toggle");
    assert_eq!(toggle.payload, vec![(s("entity_id"), JsonValue::Str(s("switch.socket1")))]);
}

#[test]
fn service_request_merges_object_data() {
    let e = HaEntity::new("light.living_room", "http://h", "t");
    let data = JsonValue::Object(vec![
        (s("brightness_pct"), JsonValue::Number(s("50"))),
        (s("color_temp"), JsonValue::Number(s("400"))),
        (
            s("rgb_color"),
            JsonValue::Array(vec![
                JsonValue::Number(s("255")),
                JsonValue::Number(s("0")),
                JsonValue::Number(s("0")),
            ]),
        ),
    ]);
    let call = e.service_request("light", "turn_on", data);
    assert_eq!(call.domain, "light");
    assert_eq!(call.service, "turn_on");
    assert!(!call.return_response);
    assert_eq!(
        call.payload,
        vec![
            (s("entity_id"), JsonValue::Str(s("light.living_room"))),
            (s("brightness_pct"), JsonValue::Number(s("50"))),
            (s("color_temp"), JsonValue::Number(s("400"))),
            (
                s("rgb_color"),
                JsonValue::Array(vec![
                    JsonValue::Number(s("255")),
                    JsonValue::Number(s("0")),
                    JsonValue::Number(s("0")),
                ]),
            ),
        ]
    );
}

#[test]
fn service_request_data_overrides_entity_id_and_repeats() {
    let e = HaEntity::new("light.a", "u", "t");
    let data = JsonValue::Object(vec![
        (s("x"), JsonValue::Bool(true)),
        (s("entity_id"), JsonValue::Str(s("light.b"))),
        (s("x"), JsonValue::Null),
    ]);
    let call = e.service_request("light", "toggle", data);
    assert_eq!(
        call.payload,
        vec![(s("entity_id"), JsonValue::Str(s("light.b"))), (s("x"), JsonValue::Null)]
    );
}

#[test]
fn service_request_ignores_non_object_data() {
    let e = HaEntity::new("switch.a", "u", "t");
    for data in [
        JsonValue::Null,
        JsonValue::Bool(false),
        JsonValue::Number(s("1")),
        JsonValue::Str(s("x")),
        JsonValue::Array(vec![JsonValue::Null]),
    ] {
        let call = e.service_request("switch", "turn_off", data);
        assert_eq!(call.payload, vec![(s("entity_id"), JsonValue::Str(s("switch.a")))]);
    }
}

#[test]
fn plain_service_call_equals_switch_request() {
    let e = HaEntity::new("switch.a", "u", "t");
    let a = e.switch_request(SwitchAction::Toggle);
    let b = e.service_request("switch", "toggle", JsonValue::Object(Vec::new()));
    assert_eq!(a.domain, b.domain);
    assert_eq!(a.service, b.service);
    assert_eq!(a.payload, b.payload);
}

#[test]
fn set_field_replaces_or_appends() {
    let mut fields = vec![(s("a"), JsonValue::Null), (s("b"), JsonValue::Bool(true))];
    set_field(&mut fields, s("a"), JsonValue::Bool(false));
    assert_eq!(fields, vec![(s("a"), JsonValue::Bool(false)), (s("b"), JsonValue::Bool(true))]);
    set_field(&mut fields, s("c"), JsonValue::Str(s("x")));
    assert_eq!(fields.len(), 3);
    assert_eq!(fields[2], (s("c"), JsonValue::Str(s("x"))));
}

#[test]
fn state_query_takes_the_first_response() {
    let e = HaEntity::new("switch.a", "u", "t");
    let states = vec![state_of("switch.a", "on", None, None), state_of("switch.b", "off", None, None)];
    assert_eq!(e.state_from_responses(states).unwrap(), "on");
    let full = e
        .full_state_from_responses(vec![state_of("switch.a", "off", Some("Socket"), None)])
        .unwrap();
    assert_eq!(full.state, "off");
    assert_eq!(full.entity_id, Some(s("switch.a")));
}

#[test]
fn state_query_without_responses_is_not_found() {
    let e = HaEntity::new("switch.nonexistent", "u", "t");
    match e.state_from_responses(Vec::new()) {
        Err(HaError::EntityNotFound(id)) => assert_eq!(id, "switch.nonexistent"),
        Ok(_) => panic!("expected an error"),
    }
    let err = e.full_state_from_responses(Vec::new()).unwrap_err();
    assert_eq!(err.message(), "未找到实体: switch.nonexistent");
}

#[test]
fn on_and_off_checks() {
    assert!(is_on_state(&Some(s("on"))));
    assert!(!is_on_state(&Some(s("off"))));
    assert!(!is_on_state(&None));
    assert!(is_off_state(&Some(s("off"))));
    assert!(!is_off_state(&Some(s("on"))));
    assert!(!is_off_state(&Some(s("unavailable"))));
    assert!(!is_off_state(&None));
    assert!(state_matches(&Some(s("heat")), "heat"));
    assert!(!state_matches(&Some(s("heat")), "Heat"));
}

#[test]
fn friendly_name_or_na() {
    assert_eq!(friendly_name_text(&state_of("light.b", "on", Some("卧室灯"), None)), "卧室灯");
    assert_eq!(friendly_name_text(&state_of("light.b", "on", None, None)), "N/A");
    let mut bare = state_of("light.b", "on", None, None);
    bare.attributes = None;
    assert_eq!(friendly_name_text(&bare), "N/A");
}

#[test]
fn info_lines_report_the_entity() {
    let e = HaEntity::new("light.bedroom", "u", "t");
    let st = state_of("light.bedroom", "on", Some("卧室灯"), Some("2026-03-26T10:30:45.123456+00:00"));
    let lines = e.info_lines(&st);
    assert_eq!(
        lines,
        vec![
            s("实体信息:"),
            s("  ID: light.bedroom"),
            s("  友好名称: 卧室灯"),
            s("  状态: on"),
            s("  最后更新: 2026-03-26T10:30:45.123456+00:00"),
        ]
    );
    let none = state_of("light.bedroom", "off", None, None);
    let lines = e.info_lines(&none);
    assert_eq!(lines[2], "  友好名称: N/A");
    assert_eq!(lines[4], "  最后更新: None");
    let quoted = state_of("light.bedroom", "off", None, Some("a\"b"));
    assert_eq!(e.info_lines(&quoted)[4], "  最后更新: a\"b");
}

#[test]
fn wait_step_decisions() {
    assert_eq!(wait_step(&Some(s("on")), "on", 0, 5000), WaitStep::Reached);
    assert_eq!(wait_step(&Some(s("on")), "on", 9000, 5000), WaitStep::Reached);
    assert_eq!(wait_step(&Some(s("off")), "on", 100, 5000), WaitStep::RetryAfter(100));
    assert_eq!(wait_step(&None, "on", 4999, 5000), WaitStep::RetryAfter(POLL_INTERVAL_MS));
    assert_eq!(wait_step(&None, "on", 5000, 5000), WaitStep::TimedOut);
    assert_eq!(wait_step(&Some(s("off")), "on", 7000, 5000), WaitStep::TimedOut);
    assert_eq!(wait_step(&Some(s("off")), "on", 0, 0), WaitStep::TimedOut);
    assert_eq!(POLL_INTERVAL_MS, 100);
}

#[test]
fn last_updated_or_none() {
    let st = state_of("light.b", "on", None, Some("2026-03-26T10:30:45.123456+00:00"));
    assert_eq!(last_updated_text(&st), "2026-03-26T10:30:45.123456+00:00");
    assert_eq!(last_updated_text(&state_of("light.b", "on", None, None)), "None");
}

#[test]
fn switch_and_wait_steps() {
    let e = HaEntity::new("switch.socket1", "http://h", "t");
    match e.switch_and_wait_step(SwitchAction::TurnOn, SwitchPhase::Start) {
        SwitchStep::Send(call) => {
            assert_eq!(call.domain, "switch");
            assert_eq!(call.service, "turn_on");
            assert_eq!(call.payload, vec![(s("entity_id"), JsonValue::Str(s("switch.socket1")))]);
        }
        other => panic!("expected a request, got {:?}", other),
    }
    match e.switch_and_wait_step(SwitchAction::TurnOn, SwitchPhase::Sent) {
        SwitchStep::WaitFor(state) => assert_eq!(state, "on"),
        other => panic!("expected a wait, got {:?}", other),
    }
    match e.switch_and_wait_step(SwitchAction::TurnOff, SwitchPhase::Sent) {
        SwitchStep::WaitFor(state) => assert_eq!(state, "off"),
        other => panic!("expected a wait, got {:?}", other),
    }
    assert!(matches!(e.switch_and_wait_step(SwitchAction::Toggle, SwitchPhase::Sent), SwitchStep::Finish));
    assert!(matches!(e.switch_and_wait_step(SwitchAction::TurnOn, SwitchPhase::Waited), SwitchStep::Finish));
    assert!(matches!(e.switch_and_wait_step(SwitchAction::TurnOff, SwitchPhase::Waited), SwitchStep::Finish));
}

#[test]
fn set_field_keeps_positions() {
    let mut fields = vec![
        (s("a"), JsonValue::Null),
        (s("b"), JsonValue::Bool(true)),
        (s("c"), JsonValue::Number(s("1"))),
    ];
    set_field(&mut fields, s("b"), JsonValue::Str(s("x")));
    assert_eq!(
        fields,
        vec![
            (s("a"), JsonValue::Null),
            (s("b"), JsonValue::Str(s("x"))),
            (s("c"), JsonValue::Number(s("1"))),
        ]
    );
    set_field(&mut fields, s("d"), JsonValue::Null);
    assert_eq!(fields[3], (s("d"), JsonValue::Null));
    assert_eq!(fields.len(), 4);
}
