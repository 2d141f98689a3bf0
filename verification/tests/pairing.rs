use image_trainer::pairing::{listen_address, Pairing, Reaction, PORT};

fn reply(reaction: Reaction) -> (String, bool) {
    match reaction {
        Reaction::Reply { text, close } => (text, close),
        _ => panic!("no reply"),
    }
}

fn paired() -> (String, bool) {
    ("{\"status\": \"authenticated\"}".to_string(), false)
}

fn refused() -> (String, bool) {
    ("{\"status\": \"auth_failed\"}".to_string(), true)
}

#[test]
fn details_carry_address_port_and_token() {
    let mut pairing = Pairing::new();
    assert_eq!(
        pairing.get_connection_details(Ok("192.168.0.7".to_string()), 1_700_000_123_456),
        Ok("{\"ip\": \"192.168.0.7\", \"port\": 8765, \"token\": \"123456\"}".to_string())
    );
    assert_eq!(PORT, 8765);
    assert_eq!(listen_address(), "0.0.0.0:8765");
}

#[test]
fn tokens_run_from_one_hundred_thousand() {
    let mut pairing = Pairing::new();
    for (now, token) in [
        (0u128, "100000"),
        (899_999, "999999"),
        (900_000, "100000"),
        (u128::MAX, "611455"),
    ] {
        let details = pairing.get_connection_details(Ok("h".to_string()), now).unwrap();
        let expected = u128::from_str_radix(token, 10).unwrap();
        assert_eq!(now % 900_000 + 100_000, expected);
        assert_eq!(details, format!("{{\"ip\": \"h\", \"port\": 8765, \"token\": \"{}\"}}", token));
    }
}

#[test]
fn missing_address_is_an_error_and_issues_nothing() {
    let mut pairing = Pairing::new();
    assert_eq!(
        pairing.get_connection_details(Err("no network".to_string()), 5),
        Err("Failed to get local IP: no network".to_string())
    );
    assert_eq!(reply(pairing.mobile_message("{\"action\":\"auth\",\"token\":\"100005\"}")), refused());
    pairing.get_connection_details(Ok("h".to_string()), 5).unwrap();
    assert!(pairing.get_connection_details(Err("x".to_string()), 6).is_err());
    assert_eq!(reply(pairing.mobile_message("{\"action\":\"auth\",\"token\":\"100005\"}")), paired());
}

#[test]
fn nothing_pairs_before_a_token_is_issued() {
    let pairing = Pairing::new();
    for text in [
        "{\"action\":\"auth\",\"token\":\"\"}",
        "{\"action\":\"auth\"}",
        "{\"action\":\"auth\",\"token\":\"100000\"}",
        "{\"action\":\"auth\",\"token\":100000}",
    ] {
        assert_eq!(reply(pairing.mobile_message(text)), refused());
    }
}

#[test]
fn only_the_token_that_was_issued_last_pairs() {
    let mut pairing = Pairing::new();
    pairing.get_connection_details(Ok("h".to_string()), 23_456).unwrap();
    assert_eq!(reply(pairing.mobile_message("{\"action\":\"auth\",\"token\":\"123456\"}")), paired());
    assert_eq!(reply(pairing.mobile_message("{\"action\":\"auth\",\"token\":123456}")), refused());
    assert_eq!(reply(pairing.mobile_message("{\"action\":\"auth\",\"token\":\"\"}")), refused());
    pairing.get_connection_details(Ok("h".to_string()), 23_457).unwrap();
    assert_eq!(reply(pairing.mobile_message("{\"action\":\"auth\",\"token\":\"123456\"}")), refused());
    assert_eq!(reply(pairing.mobile_message("{\"action\":\"auth\",\"token\":\"123457\"}")), paired());
}

#[test]
fn commands_are_handed_on_as_they_came() {
    let pairing = Pairing::new();
    for text in [
        "{\"action\": \"stop_training\"}",
        " {\"action\":\"start_training\",\"epochs\":3} ",
        "{\"lr\":0.1,\"action\":\"adjust_params\"}",
    ] {
        match pairing.mobile_message(text) {
            Reaction::Forward(sent) => assert_eq!(sent, text),
            _ => panic!("not handed on"),
        }
    }
}

#[test]
fn other_messages_are_dropped() {
    let pairing = Pairing::new();
    for text in [
        "",
        "hello",
        "{\"action\":\"stop\"}",
        "{\"action\":5}",
        "{\"command\":\"stop_training\"}",
        "[\"stop_training\"]",
        "\"auth\"",
    ] {
        assert!(matches!(pairing.mobile_message(text), Reaction::Nothing), "{}", text);
    }
}

#[test]
fn parsed_message_is_answered() {
    let mut pairing = Pairing::new();
    pairing.get_connection_details(Ok("h".to_string()), 1).unwrap();
    let message: serde_json::Value =
        serde_json::from_str("{\"action\":\"auth\",\"token\":\"100001\"}").unwrap();
    assert_eq!(reply(pairing.react(&message, "text")), paired());
    let message: serde_json::Value = serde_json::from_str("{\"action\":\"stop_training\"}").unwrap();
    match pairing.react(&message, "text") {
        Reaction::Forward(sent) => assert_eq!(sent, "text"),
        _ => panic!("not handed on"),
    }
}
