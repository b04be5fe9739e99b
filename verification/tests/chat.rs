use dune::chat::{parse_chat, parse_component, strip_old_control, ChatComponent, ChatError, Json};

fn s(x: &str) -> Json {
    Json::String(x.to_string())
}

fn obj(members: Vec<(&str, Json)>) -> Json {
    Json::Object(members.into_iter().map(|(k, v)| (k.to_string(), v)).collect())
}

#[test]
fn strip_control_codes() {
    assert_eq!(strip_old_control("§aHello §lworld"), "Hello world");
    assert_eq!(strip_old_control("plain"), "plain");
    assert_eq!(strip_old_control("end§"), "end");
    assert_eq!(strip_old_control("§§x"), "x");
    assert_eq!(strip_old_control(""), "");
}

#[test]
fn plain_string_component() {
    let c = parse_component(&s("§cRed")).unwrap();
    assert_eq!(c.to_text().unwrap(), "Red");
}

#[test]
fn text_with_extra() {
    let j = obj(vec![("text", s("Hello ")), ("extra", Json::Array(vec![s("big "), obj(vec![("text", s("world"))])]))]);
    let c = parse_component(&j).unwrap();
    assert_eq!(c.to_text().unwrap(), "Hello big world");
}

#[test]
fn translated_chat_message() {
    let j = obj(vec![
        ("translate", s("chat.type.text")),
        ("with", Json::Array(vec![s("Steve"), obj(vec![("text", s("hi"))])])),
    ]);
    let c = parse_component(&j).unwrap();
    assert_eq!(c.to_text().unwrap(), "<Steve> hi");

    let j = obj(vec![("translate", s("multiplayer.player.joined")), ("with", Json::Array(vec![s("Alex")]))]);
    assert_eq!(parse_component(&j).unwrap().to_text().unwrap(), "Alex joined the game");

    let j = obj(vec![("translate", s("sleep.skipping_night"))]);
    assert_eq!(parse_component(&j).unwrap().to_text().unwrap(), "Sleeping through this night");
}

#[test]
fn refused_components() {
    let wrong_count = obj(vec![("translate", s("chat.type.text")), ("with", Json::Array(vec![s("x")]))]);
    assert_eq!(parse_component(&wrong_count).unwrap_err(), ChatError::WrongCaptures { expected: 2, found: 1 });
    let unknown = obj(vec![("translate", s("no.such.key"))]);
    assert_eq!(parse_component(&unknown).unwrap_err(), ChatError::UnknownTranslation("no.such.key".to_string()));
    let missing_with = obj(vec![("translate", s("multiplayer.player.left"))]);
    assert_eq!(parse_component(&missing_with).unwrap_err(), ChatError::WrongCaptures { expected: 1, found: 0 });
    let text_not_string = obj(vec![("text", Json::Bool(true))]);
    assert_eq!(parse_component(&text_not_string).unwrap_err(), ChatError::ExpectedString);
    let extra_not_array = obj(vec![("text", s("a")), ("extra", s("b"))]);
    assert_eq!(parse_component(&extra_not_array).unwrap_err(), ChatError::ExpectedArrayForExtra);
    let with_not_array = obj(vec![("translate", s("chat.type.text")), ("with", s("x"))]);
    assert_eq!(parse_component(&with_not_array).unwrap_err(), ChatError::ExpectedArray);
    let translate_not_string = obj(vec![("translate", Json::Null)]);
    assert_eq!(parse_component(&translate_not_string).unwrap_err(), ChatError::ExpectedString);
}

#[test]
fn unsupported_components() {
    assert_eq!(parse_component(&Json::Null).unwrap_err(), ChatError::Unsupported);
    assert_eq!(parse_component(&Json::Number("1".to_string())).unwrap_err(), ChatError::Unsupported);
    assert_eq!(parse_component(&obj(vec![("color", s("red"))])).unwrap_err(), ChatError::Unsupported);
    let nested = obj(vec![("text", s("a")), ("extra", Json::Array(vec![Json::Bool(false)]))]);
    assert_eq!(parse_component(&nested).unwrap_err(), ChatError::Unsupported);
}

#[test]
fn display_of_hand_built_components() {
    let c = ChatComponent::Translate { format: "100%% %s", with: vec![ChatComponent::Text { text: "x".to_string(), extra: vec![] }] };
    assert_eq!(c.to_text().unwrap(), "100% x");
    let too_few = ChatComponent::Translate { format: "%s %s", with: vec![] };
    assert!(too_few.to_text().is_none());
    let bad_escape = ChatComponent::Translate { format: "%d", with: vec![] };
    assert!(bad_escape.to_text().is_none());
}

#[test]
fn chat_from_json_text() {
    let c = parse_chat(r#"{"text":"§aHi ","extra":[{"translate":"chat.type.text","with":["Bob","yo"]}]}"#).unwrap();
    assert_eq!(c.to_text().unwrap(), "Hi <Bob> yo");
    assert_eq!(parse_chat(r#""plain""#).unwrap().to_text().unwrap(), "plain");
    assert_eq!(parse_chat("{not json").unwrap_err(), ChatError::NotJson);
    assert_eq!(parse_chat(r#"{"text":1}"#).unwrap_err(), ChatError::ExpectedString);
    assert_eq!(
        parse_chat(r#"{"translate":"chat.type.text","with":["a"]}"#).unwrap_err(),
        ChatError::WrongCaptures { expected: 2, found: 1 }
    );
    assert_eq!(parse_chat("null").unwrap_err(), ChatError::Unsupported);
}
