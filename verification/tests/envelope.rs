use robot_pi::command::Command;
use robot_pi::envelope::{decide, Envelope, Request};

fn envelope(kind: &str, payload: &str) -> Envelope {
    Envelope { kind: kind.to_string(), payload: payload.to_string() }
}

#[test]
fn decode_reads_kind_and_payload() {
    assert_eq!(
        Envelope::decode("{\"type\":\"cmd\",\"payload\":\"W\"}"),
        Some(envelope("cmd", "W"))
    );
    assert_eq!(
        Envelope::decode(" { \"payload\" : \"STOP\" , \"type\" : \"cmd\" } "),
        Some(envelope("cmd", "STOP"))
    );
    assert_eq!(
        Envelope::decode("{\"type\":\"chat\",\"payload\":\"hello\"}"),
        Some(envelope("chat", "hello"))
    );
    assert_eq!(Envelope::decode("{\"type\":\"\",\"payload\":\"\"}"), Some(envelope("", "")));
}

#[test]
fn decode_resolves_json_escapes() {
    assert_eq!(
        Envelope::decode("{\"type\":\"c\\u006dd\",\"payload\":\"\\u0057\"}"),
        Some(envelope("cmd", "W"))
    );
    assert_eq!(
        Envelope::decode("{\"type\":\"cmd\",\"payload\":\"a\\\"b\\n\"}"),
        Some(envelope("cmd", "a\"b\n"))
    );
}

#[test]
fn decode_ignores_other_members() {
    assert_eq!(
        Envelope::decode("{\"id\":7,\"type\":\"cmd\",\"extra\":[1,{\"a\":null}],\"payload\":\"D\"}"),
        Some(envelope("cmd", "D"))
    );
}

#[test]
fn decode_rejects_text_that_is_not_json() {
    assert_eq!(Envelope::decode("not json"), None);
    assert_eq!(Envelope::decode(""), None);
    assert_eq!(Envelope::decode("{"), None);
    assert_eq!(Envelope::decode("{\"type\":\"cmd\",\"payload\":\"W\"} trailing"), None);
    assert_eq!(Envelope::decode("{'type':'cmd','payload':'W'}"), None);
    assert_eq!(Envelope::decode("W"), None);
}

#[test]
fn decode_rejects_json_of_another_shape() {
    assert_eq!(Envelope::decode("null"), None);
    assert_eq!(Envelope::decode("\"cmd\""), None);
    assert_eq!(Envelope::decode("42"), None);
    assert_eq!(Envelope::decode("[\"cmd\",\"W\"]"), None);
    assert_eq!(Envelope::decode("{}"), None);
    assert_eq!(Envelope::decode("{\"type\":\"cmd\"}"), None);
    assert_eq!(Envelope::decode("{\"payload\":\"W\"}"), None);
    assert_eq!(Envelope::decode("{\"type\":\"cmd\",\"payload\":1}"), None);
    assert_eq!(Envelope::decode("{\"type\":\"cmd\",\"payload\":null}"), None);
    assert_eq!(Envelope::decode("{\"type\":true,\"payload\":\"W\"}"), None);
    assert_eq!(Envelope::decode("{\"type\":\"cmd\",\"payload\":[\"W\"]}"), None);
    assert_eq!(Envelope::decode("{\"Type\":\"cmd\",\"Payload\":\"W\"}"), None);
}

#[test]
fn decode_takes_the_last_of_a_repeated_key() {
    assert_eq!(
        Envelope::decode("{\"type\":\"chat\",\"type\":\"cmd\",\"payload\":\"W\"}"),
        Some(envelope("cmd", "W"))
    );
    assert_eq!(
        Envelope::decode("{\"type\":\"cmd\",\"payload\":\"W\",\"payload\":\"S\"}"),
        Some(envelope("cmd", "S"))
    );
    assert_eq!(
        Envelope::decode("{\"type\":\"cmd\",\"payload\":\"W\",\"payload\":1}"),
        None
    );
}

#[test]
fn decode_rejects_a_number_too_large_in_any_member() {
    assert_eq!(
        Envelope::decode("{\"type\":\"cmd\",\"payload\":\"W\",\"n\":1e999}"),
        None
    );
    assert_eq!(
        Envelope::decode("{\"type\":\"cmd\",\"payload\":\"W\",\"n\":1e300}"),
        Some(envelope("cmd", "W"))
    );
}

#[test]
fn decode_rejects_nesting_128_deep() {
    let with_extra = |arrays: usize| {
        format!(
            "{{\"type\":\"cmd\",\"payload\":\"W\",\"x\":{}{}}}",
            "[".repeat(arrays),
            "]".repeat(arrays)
        )
    };
    assert_eq!(Envelope::decode(&with_extra(126)), Some(envelope("cmd", "W")));
    assert_eq!(Envelope::decode(&with_extra(127)), None);
    assert_eq!(Envelope::decode(&with_extra(500)), None);
}

#[test]
fn request_of_a_decoded_envelope() {
    assert_eq!(Request::of(Some(envelope("cmd", "A"))), Request::Run(Command::TurnLeft));
    assert_eq!(Request::of(Some(envelope("cmd", "a"))), Request::UnknownPayload);
    assert_eq!(Request::of(Some(envelope("note", "A"))), Request::OtherKind);
    assert_eq!(Request::of(None), Request::NotAnEnvelope);
}

#[test]
fn assemble_needs_both_members() {
    assert_eq!(
        Envelope::assemble(Some("cmd".to_string()), Some("W".to_string())),
        Some(envelope("cmd", "W"))
    );
    assert_eq!(Envelope::assemble(Some("cmd".to_string()), None), None);
    assert_eq!(Envelope::assemble(None, Some("W".to_string())), None);
    assert_eq!(Envelope::assemble(None, None), None);
}

#[test]
fn request_in_a_command_envelope() {
    assert_eq!(envelope("cmd", "W").request(), Request::Run(Command::Forward));
    assert_eq!(envelope("cmd", "S").request(), Request::Run(Command::Backward));
    assert_eq!(envelope("cmd", "A").request(), Request::Run(Command::TurnLeft));
    assert_eq!(envelope("cmd", "D").request(), Request::Run(Command::TurnRight));
    assert_eq!(envelope("cmd", "STOP").request(), Request::Run(Command::Stop));
}

#[test]
fn envelope_of_another_kind_asks_for_nothing() {
    assert_eq!(envelope("chat", "W").request(), Request::OtherKind);
    assert_eq!(envelope("", "STOP").request(), Request::OtherKind);
    assert_eq!(envelope("CMD", "W").request(), Request::OtherKind);
    assert_eq!(envelope("cmd ", "W").request(), Request::OtherKind);
    assert_eq!(envelope("W", "cmd").request(), Request::OtherKind);
    assert_eq!(envelope("chat", "nothing").request(), Request::OtherKind);
}

#[test]
fn unknown_payload_asks_for_nothing() {
    assert_eq!(envelope("cmd", "").request(), Request::UnknownPayload);
    assert_eq!(envelope("cmd", "w").request(), Request::UnknownPayload);
    assert_eq!(envelope("cmd", "JUMP").request(), Request::UnknownPayload);
    assert_eq!(envelope("cmd", "stop").request(), Request::UnknownPayload);
}

#[test]
fn only_a_run_request_has_a_command() {
    assert_eq!(Request::Run(Command::TurnLeft).command(), Some(Command::TurnLeft));
    assert_eq!(Request::Run(Command::Stop).command(), Some(Command::Stop));
    assert_eq!(Request::UnknownPayload.command(), None);
    assert_eq!(Request::OtherKind.command(), None);
    assert_eq!(Request::NotAnEnvelope.command(), None);
}

#[test]
fn decide_goes_from_text_to_request() {
    assert_eq!(decide("{\"type\":\"cmd\",\"payload\":\"W\"}"), Request::Run(Command::Forward));
    assert_eq!(decide("{\"type\":\"cmd\",\"payload\":\"STOP\"}"), Request::Run(Command::Stop));
    assert_eq!(decide("{\"type\":\"cmd\",\"payload\":\"\"}"), Request::UnknownPayload);
    assert_eq!(decide("{\"type\":\"cmd\",\"payload\":\"Q\"}"), Request::UnknownPayload);
    assert_eq!(decide("{\"type\":\"msg\",\"payload\":\"W\"}"), Request::OtherKind);
    assert_eq!(decide("{\"type\":\"cmd\",\"payload\":7}"), Request::NotAnEnvelope);
    assert_eq!(decide("not json"), Request::NotAnEnvelope);
    assert_eq!(decide("W"), Request::NotAnEnvelope);
}
