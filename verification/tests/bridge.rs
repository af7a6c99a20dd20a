use homebridge::client::{
    is_success, read_accessories_response, read_accessory_response, read_empty_response,
    u16_string, Accessory, BridgeError, HomebridgeClient, SwitchConfig, SwitchDeclaration,
    SwitchState,
};
use homebridge::json::Json;
use homebridge::kit::HomeKit;
use homebridge::switch::Switch;

#[test]
fn accessory_absent_on_404() {
    // An unknown id: the bridge answers 404, which is an empty result,
    // never an error, whatever the body says.
    let r = read_accessory_response(404, b"");
    assert!(matches!(r, Ok(None)));
    let r = read_accessory_response(404, b"not json at all");
    assert!(matches!(r, Ok(None)));
}

#[test]
fn accessory_request_failed_carries_status() {
    let r = read_accessory_response(500, b"");
    assert!(matches!(r, Err(BridgeError::RequestFailed { status: 500 })));
    let r = read_accessory_response(301, b"{}");
    assert!(matches!(r, Err(BridgeError::RequestFailed { status: 301 })));
}

#[test]
fn accessories_request_failed_carries_status() {
    let r = read_accessories_response(500, b"");
    assert!(matches!(r, Err(BridgeError::RequestFailed { status: 500 })));
}

#[test]
fn empty_response_statuses() {
    assert!(matches!(read_empty_response(200), Ok(())));
    assert!(matches!(read_empty_response(204), Ok(())));
    assert!(matches!(
        read_empty_response(404),
        Err(BridgeError::RequestFailed { status: 404 })
    ));
    assert!(!is_success(199));
    assert!(is_success(299));
    assert!(!is_success(300));
}

#[test]
fn accessory_decodes_structurally() {
    let body =
        br#"{"state":{"on":false},"config":{"id":"sw1","name":"Lamp","on_url":null,"off_url":null}}"#;
    let r = read_accessory_response(200, body);
    let Ok(Some(Accessory::Switch(decl))) = r else {
        panic!("expected a switch declaration");
    };
    assert!(!decl.state.on);
    assert_eq!(decl.config.id, "sw1");
    assert_eq!(decl.config.name, "Lamp");
    assert_eq!(decl.config.on_url, None);
    assert_eq!(decl.config.off_url, None);
}

#[test]
fn accessory_decode_ignores_unknown_fields() {
    let body = br#"{"state":{"on":true,"spare":null},"config":{"id":"a","name":"A","on_url":"http://x/on","off_url":"http://x/off","vendor":"acme"},"extra":[]}"#;
    let r = read_accessory_response(200, body);
    let Ok(Some(Accessory::Switch(decl))) = r else {
        panic!("expected a switch declaration");
    };
    assert!(decl.state.on);
    assert_eq!(decl.config.on_url.as_deref(), Some("http://x/on"));
    assert_eq!(decl.config.off_url.as_deref(), Some("http://x/off"));
}

#[test]
fn accessory_missing_urls_read_as_absent() {
    let body = br#"{"state":{"on":true},"config":{"id":"a","name":"A"}}"#;
    let r = read_accessory_response(200, body);
    let Ok(Some(Accessory::Switch(decl))) = r else {
        panic!("expected a switch declaration");
    };
    assert_eq!(decl.config.on_url, None);
    assert_eq!(decl.config.off_url, None);
}

#[test]
fn unknown_shape_is_decode_error_not_default() {
    // A payload matching no known variant fails with a decode error; it is
    // never replaced by a silent default.
    let r = read_accessory_response(200, br#"{"foo":"bar"}"#);
    assert!(matches!(r, Err(BridgeError::DecodeError)));
    let r = read_accessory_response(200, b"");
    assert!(matches!(r, Err(BridgeError::DecodeError)));
    let r = read_accessory_response(200, br#"{"state":{"on":"yes"},"config":{"id":"a","name":"A"}}"#);
    assert!(matches!(r, Err(BridgeError::DecodeError)));
}

#[test]
fn list_preserves_server_order() {
    let body = br#"{"accessories":[{"state":{"on":true},"config":{"id":"a","name":"A"}},{"state":{"on":false},"config":{"id":"b","name":"B"}}]}"#;
    let r = read_accessories_response(200, body);
    let Ok(accessories) = r else {
        panic!("expected a list");
    };
    assert_eq!(accessories.len(), 2);
    let Accessory::Switch(first) = &accessories[0];
    let Accessory::Switch(second) = &accessories[1];
    assert_eq!(first.config.id, "a");
    assert_eq!(second.config.id, "b");
}

#[test]
fn list_with_unknown_element_is_decode_error() {
    let body = br#"{"accessories":[{"state":{"on":true},"config":{"id":"a","name":"A"}},{"foo":1}]}"#;
    let r = read_accessories_response(200, body);
    assert!(matches!(r, Err(BridgeError::DecodeError)));
}

#[test]
fn config_builder_sets_urls() {
    let c = SwitchConfig::new("sw1", "Lamp")
        .with_on_url("http://h/on")
        .with_off_url("http://h/off");
    assert_eq!(c.id, "sw1");
    assert_eq!(c.name, "Lamp");
    assert_eq!(c.on_url.as_deref(), Some("http://h/on"));
    assert_eq!(c.off_url.as_deref(), Some("http://h/off"));
}

#[test]
fn create_body_is_the_config_document() {
    let c = SwitchConfig::new("sw1", "Lamp");
    let body = homebridge::client::create_switch_body(&c);
    assert_eq!(
        String::from_utf8(body).unwrap(),
        r#"{"id":"sw1","name":"Lamp","off_url":null,"on_url":null}"#
    );
}

#[test]
fn created_config_reads_back_equal() {
    // The document sent to register a switch, served back by the bridge
    // inside a declaration, decodes to the configuration that was created.
    let c = SwitchConfig::new("sw1", "Lamp").with_on_url("http://h/on");
    let config_doc = String::from_utf8(homebridge::client::create_switch_body(&c)).unwrap();
    let served = format!(r#"{{"state":{{"on":false}},"config":{}}}"#, config_doc);
    let r = read_accessory_response(200, served.as_bytes());
    let Ok(Some(Accessory::Switch(decl))) = r else {
        panic!("expected a switch declaration");
    };
    assert_eq!(decl.config.id, c.id);
    assert_eq!(decl.config.name, c.name);
    assert_eq!(decl.config.on_url, c.on_url);
    assert_eq!(decl.config.off_url, c.off_url);
    assert!(!decl.state.on);
}

#[test]
fn set_then_is_on_round_trips() {
    // For both flags: the body `set` sends, echoed by the bridge inside the
    // state envelope, reads back as the same flag.
    for flag in [true, false] {
        let kit = HomeKit::connect("http://bridge.local:8080");
        let sw = kit.switch_handle(SwitchConfig::new("sw1", "Lamp"));
        let sent = sw.set_body(flag);
        let echoed = format!(r#"{{"state":{}}}"#, String::from_utf8(sent).unwrap());
        let r = Switch::read_is_on_response(200, echoed.as_bytes());
        assert_eq!(r.unwrap(), flag);
    }
}

#[test]
fn set_body_is_raw_state_not_enveloped() {
    let kit = HomeKit::connect("http://h");
    let sw = kit.switch_handle(SwitchConfig::new("s", "S"));
    assert_eq!(String::from_utf8(sw.set_body(true)).unwrap(), r#"{"on":true}"#);
    assert_eq!(String::from_utf8(sw.set_body(false)).unwrap(), r#"{"on":false}"#);
}

#[test]
fn state_read_needs_envelope_and_bool() {
    let r = Switch::read_is_on_response(200, br#"{"state":{"on":true}}"#);
    assert_eq!(r.unwrap(), true);
    // The raw state document without the envelope does not decode.
    let r = Switch::read_is_on_response(200, br#"{"on":true}"#);
    assert!(matches!(r, Err(BridgeError::DecodeError)));
    let r = Switch::read_is_on_response(200, br#"{"state":{"on":1}}"#);
    assert!(matches!(r, Err(BridgeError::DecodeError)));
    let r = Switch::read_is_on_response(500, br#"{"state":{"on":true}}"#);
    assert!(matches!(r, Err(BridgeError::RequestFailed { status: 500 })));
}

#[test]
fn state_envelope_is_shape_agnostic() {
    // The envelope hands out whatever document sits under `state`; the
    // switch is just one consumer of it.
    let r = homebridge::client::read_state_response(200, br#"{"state":["a",true,null]}"#);
    let Ok(Json::Arr(items)) = r else {
        panic!("expected an array state");
    };
    assert_eq!(items.len(), 3);
    assert!(matches!(items[0], Json::Str(ref s) if s == "a"));
    assert!(matches!(items[1], Json::Bool(true)));
    assert!(matches!(items[2], Json::Null));
    // A body without the envelope does not decode.
    let r = homebridge::client::read_state_response(200, br#"["a"]"#);
    assert!(matches!(r, Err(BridgeError::DecodeError)));
}

#[test]
fn numeric_payloads_do_not_decode() {
    // The wire format carries no numbers; a payload holding one anywhere is
    // rejected when it is parsed and surfaces as a decode failure.
    let r = read_accessory_response(
        200,
        br#"{"state":{"on":true},"config":{"id":"a","name":"A","rank":3}}"#,
    );
    assert!(matches!(r, Err(BridgeError::DecodeError)));
}

#[test]
fn urls_follow_the_wire_table() {
    let client = HomebridgeClient::new("http://bridge.local:8080");
    assert_eq!(client.accessories_url(), "http://bridge.local:8080/accessory");
    assert_eq!(client.accessory_url("sw1"), "http://bridge.local:8080/accessory/sw1");
    assert_eq!(client.state_url("sw1"), "http://bridge.local:8080/accessory/sw1/state");
}

#[test]
fn error_messages_name_the_status() {
    let e = BridgeError::RequestFailed { status: 503 };
    assert_eq!(e.message(), "request failed: 503");
    assert_eq!(u16_string(0), "0");
    assert_eq!(u16_string(65535), "65535");
    assert_eq!(BridgeError::DecodeError.message(), "could not decode the response body");
    let t = BridgeError::Transport { message: String::from("connection refused") };
    assert_eq!(t.message(), "transport error: connection refused");
}

#[test]
fn switches_filters_and_keeps_order() {
    let kit = HomeKit::connect("http://h");
    let accessories = vec![
        Accessory::Switch(SwitchDeclaration {
            state: SwitchState { on: true },
            config: SwitchConfig::new("a", "A"),
        }),
        Accessory::Switch(SwitchDeclaration {
            state: SwitchState { on: false },
            config: SwitchConfig::new("b", "B"),
        }),
    ];
    let handles = kit.switches(accessories);
    assert_eq!(handles.len(), 2);
    assert_eq!(handles[0].id(), "a");
    assert_eq!(handles[1].id(), "b");
    assert_eq!(handles[0].name(), "A");
}

#[test]
fn get_switch_decision_yields_handle() {
    let kit = HomeKit::connect("http://h");
    let accessory = Accessory::Switch(SwitchDeclaration {
        state: SwitchState { on: true },
        config: SwitchConfig::new("sw1", "Lamp"),
    });
    let sw = kit.switch_of_accessory(accessory).unwrap();
    assert_eq!(sw.id(), "sw1");
    assert_eq!(sw.name(), "Lamp");
}

#[test]
fn scenario_connect_add_set_read_delete() {
    // connect; add a switch; set(true); is_on -> true; delete; a later get
    // of the same id finds nothing.
    let kit = HomeKit::connect("http://bridge.local:8080");
    let config = SwitchConfig::new("sw1", "Lamp");
    let create_body = homebridge::client::create_switch_body(&config);
    assert!(!create_body.is_empty());
    let sw = kit.switch_handle(config);
    assert_eq!(sw.id(), "sw1");
    assert_eq!(sw.state_url(), "http://bridge.local:8080/accessory/sw1/state");

    let sent = sw.set_body(true);
    let echoed = format!(r#"{{"state":{}}}"#, String::from_utf8(sent).unwrap());
    assert_eq!(Switch::read_is_on_response(200, echoed.as_bytes()).unwrap(), true);

    // delete consumes the handle: after this, `sw` is gone for good.
    let delete_url = sw.delete();
    assert_eq!(delete_url, "http://bridge.local:8080/accessory/sw1");
    assert!(matches!(read_empty_response(204), Ok(())));

    // the bridge no longer knows the id: 404, an empty result.
    let r = read_accessory_response(404, b"");
    assert!(matches!(r, Ok(None)));
}
