use llimp::config::{Argument, Config, GenerationParams};
use llimp::declaration::Context;
use llimp::failure::{Failure, FailureKind};
use llimp::json::Json;
use llimp::request::{prepare, schema, user_prompt};
use llimp::syntax::extract_arguments;

fn online(credential: Option<&str>, base_url: Option<&str>) -> Config {
    Config::resolve(
        credential.map(|s| s.to_string()),
        base_url.map(|s| s.to_string()),
        None,
        false,
    )
}

fn greeter(hint: Option<&str>) -> Context {
    Context {
        interface: Some("Greeter".to_string()),
        self_type: "Simple".to_string(),
        signatures: vec![
            "fn greet (& self , name : & str) -> String".to_string(),
            "fn exclaim (& self , text : & str) -> String".to_string(),
        ],
        hint: hint.map(|h| h.to_string()),
    }
}

fn to_value(json: &Json) -> serde_json::Value {
    match json {
        Json::Null => serde_json::Value::Null,
        Json::Bool(b) => serde_json::Value::Bool(*b),
        Json::Number(n) => serde_json::from_str(n).unwrap(),
        Json::Text(s) => serde_json::Value::String(s.clone()),
        Json::Array(items) => serde_json::Value::Array(items.iter().map(to_value).collect()),
        Json::Object(members) => serde_json::Value::Object(
            members.iter().map(|(k, v)| (k.clone(), to_value(v))).collect(),
        ),
    }
}

const SYSTEM: &str = r#"You are a Rust code generator. Return ONLY valid Rust code for method bodies.
Do not include backticks. Follow the provided signatures exactly.
If something is unspecified, make reasonable, deterministic choices.
Avoid external crates unless explicitly requested."#;

const FORMAT: &str = "Return ONLY a strict JSON object like {\"bodies\":[\"{ /* body 1 */ }\", \"{ /* body 2 */ }\"]} \
                 where each string parses as a Rust block for the corresponding method, in order.";

#[test]
fn the_user_prompt_describes_the_declaration() {
    let ctx = greeter(Some("be terse"));
    let expected = format!(
        r#"Implement the following Rust impl methods.
Do not change signatures. Provide only the method bodies (without 'fn' lines).
Context:
- Trait: {:?}
- Self type: {}
- Methods:
{}
Additional hint: {}"#,
        ctx.interface,
        ctx.self_type,
        ctx.signatures.join("\n"),
        ctx.hint.clone().unwrap_or_default(),
    );
    assert_eq!(user_prompt(&ctx), expected);
    assert_eq!(
        user_prompt(&ctx),
        "Implement the following Rust impl methods.\nDo not change signatures. Provide only the method bodies (without 'fn' lines).\nContext:\n- Trait: Some(\"Greeter\")\n- Self type: Simple\n- Methods:\nfn greet (& self , name : & str) -> String\nfn exclaim (& self , text : & str) -> String\nAdditional hint: be terse"
    );
}

#[test]
fn the_user_prompt_without_trait_methods_and_hint() {
    let ctx = Context {
        interface: None,
        self_type: "S".to_string(),
        signatures: vec![],
        hint: None,
    };
    assert_eq!(
        user_prompt(&ctx),
        "Implement the following Rust impl methods.\nDo not change signatures. Provide only the method bodies (without 'fn' lines).\nContext:\n- Trait: None\n- Self type: S\n- Methods:\n\nAdditional hint: "
    );
    let one = Context {
        interface: None,
        self_type: "S".to_string(),
        signatures: vec!["fn f ()".to_string()],
        hint: None,
    };
    assert!(user_prompt(&one).contains("- Methods:\nfn f ()\nAdditional hint: "));
}

#[test]
fn a_request_is_prepared() {
    let config = online(Some("SECRET-REDACTED"), None);
    let request = prepare(&config, &greeter(Some("be terse")), "gpt-4o-mini").unwrap();
    assert_eq!(request.url, "https://api.openai.com/v1/chat/completions");
    assert_eq!(request.credential, "SECRET-REDACTED");
    assert_eq!(request.model, "gpt-4o-mini");
    assert_eq!(request.messages.len(), 3);
    assert_eq!(request.messages[0].role, "system");
    assert_eq!(request.messages[0].content, SYSTEM);
    assert_eq!(request.messages[1].role, "user");
    assert_eq!(request.messages[1].content, user_prompt(&greeter(Some("be terse"))));
    assert_eq!(request.messages[2].role, "user");
    assert_eq!(request.messages[2].content, FORMAT);
}

#[test]
fn the_base_endpoint_can_be_overridden() {
    let config = online(Some("k"), Some("http://localhost:8080/v1"));
    let request = prepare(&config, &greeter(None), "m").unwrap();
    assert_eq!(request.url, "http://localhost:8080/v1/chat/completions");
    assert_eq!(config.endpoint(), "http://localhost:8080/v1");
    assert_eq!(online(None, None).endpoint(), "https://api.openai.com/v1");
}

#[test]
fn a_request_needs_a_credential() {
    let got = prepare(&online(None, None), &greeter(None), "m");
    assert_eq!(got, Err(Failure::MissingCredential));
    let failure = got.unwrap_err();
    assert_eq!(failure.kind(), FailureKind::Configuration);
    assert_eq!(failure.message(), "missing OPENAI_API_KEY");
}

#[test]
fn no_request_is_prepared_offline() {
    let offline = Config::resolve(Some("k".to_string()), None, Some("1".to_string()), false);
    assert_eq!(prepare(&offline, &greeter(None), "m"), Err(Failure::NetworkDisabled));
    let disabled = Config::resolve(None, None, None, true);
    let got = prepare(&disabled, &greeter(None), "m");
    assert_eq!(got, Err(Failure::NetworkDisabled));
    let failure = got.unwrap_err();
    assert_eq!(failure.kind(), FailureKind::Configuration);
    assert_eq!(
        failure.message(),
        "network disabled (OPENAI_OFFLINE=1 or feature=no-network)"
    );
}

#[test]
fn only_the_value_one_switches_offline() {
    let of = |setting: Option<&str>, no_network: bool| {
        Config::resolve(None, None, setting.map(|s| s.to_string()), no_network).is_offline()
    };
    assert!(of(Some("1"), false));
    assert!(!of(None, false));
    assert!(!of(Some(""), false));
    assert!(!of(Some("0"), false));
    assert!(!of(Some("true"), false));
    assert!(!of(Some("11"), false));
    assert!(!of(Some(" 1"), false));
    assert!(of(None, true));
    assert!(of(Some("0"), true));
    assert!(of(Some("1"), true));
}

#[test]
fn the_schema_asks_for_an_array_of_strings() {
    let expected: serde_json::Value = serde_json::from_str(
        r#"{
      "name":"impl_bodies",
      "schema":{
        "type":"object",
        "properties":{
          "bodies":{"type":"array","items":{"type":"string"}}
        },
        "required":["bodies"],
        "additionalProperties":false
      },
      "strict": true
    }"#,
    )
    .unwrap();
    assert_eq!(to_value(&schema()), expected);
}

#[test]
fn the_body_carries_model_messages_and_format() {
    let config = online(Some("k"), None);
    let request = prepare(&config, &greeter(Some("be terse")), "gpt-4").unwrap();
    let body = request.body();
    assert_eq!(body.get("model"), Some(&Json::Text("gpt-4".to_string())));
    let mut expected = serde_json::Map::new();
    expected.insert("model".to_string(), serde_json::Value::String("gpt-4".to_string()));
    let messages = [
        ("system", SYSTEM.to_string()),
        ("user", user_prompt(&greeter(Some("be terse")))),
        ("user", FORMAT.to_string()),
    ]
    .iter()
    .map(|(role, content)| {
        let mut m = serde_json::Map::new();
        m.insert("role".to_string(), serde_json::Value::String(role.to_string()));
        m.insert("content".to_string(), serde_json::Value::String(content.clone()));
        serde_json::Value::Object(m)
    })
    .collect();
    expected.insert("messages".to_string(), serde_json::Value::Array(messages));
    let mut format = serde_json::Map::new();
    format.insert("type".to_string(), serde_json::Value::String("json_object".to_string()));
    format.insert("schema".to_string(), to_value(&schema()));
    expected.insert("response_format".to_string(), serde_json::Value::Object(format));
    assert_eq!(to_value(&body), serde_json::Value::Object(expected));
}

#[test]
fn the_body_lists_its_members_in_order() {
    let request = prepare(&online(Some("k"), None), &greeter(None), "m").unwrap();
    match request.body() {
        Json::Object(members) => {
            let keys: Vec<&str> = members.iter().map(|(k, _)| k.as_str()).collect();
            assert_eq!(keys, vec!["model", "messages", "response_format"]);
        }
        other => panic!("not an object: {other:?}"),
    }
}

#[test]
fn arguments_are_read() {
    let got = extract_arguments("model = \"gpt-4\", prompt = \"Implement \\\"basic\\\" ops\"").unwrap();
    assert_eq!(
        got,
        vec![
            Argument { name: "model".to_string(), value: Some("gpt-4".to_string()) },
            Argument {
                name: "prompt".to_string(),
                value: Some("Implement \"basic\" ops".to_string())
            },
        ]
    );
    assert_eq!(extract_arguments(""), Ok(vec![]));
    assert_eq!(extract_arguments("model = \"m\","), Ok(vec![Argument {
        name: "model".to_string(),
        value: Some("m".to_string())
    }]));
    let got = extract_arguments("flag, list(a, b), n = 3, path::to = \"x\"").unwrap();
    assert_eq!(
        got,
        vec![
            Argument { name: "flag".to_string(), value: None },
            Argument { name: "list".to_string(), value: None },
            Argument { name: "n".to_string(), value: None },
            Argument { name: "path :: to".to_string(), value: Some("x".to_string()) },
        ]
    );
}

#[test]
fn malformed_arguments_are_refused() {
    for text in ["model =", "= \"x\"", "model = \"a\" prompt = \"b\"", "\"x\"", "model = \"a"] {
        let got = extract_arguments(text);
        assert_eq!(got, Err(Failure::MalformedArguments), "{text}");
    }
    assert_eq!(Failure::MalformedArguments.kind(), FailureKind::Parse);
    assert_eq!(Failure::MalformedArguments.message(), "the generation arguments are malformed");
}

#[test]
fn parameters_are_picked_from_the_arguments() {
    let arg = |name: &str, value: Option<&str>| Argument {
        name: name.to_string(),
        value: value.map(|v| v.to_string()),
    };
    let params = GenerationParams::from_arguments(&vec![
        arg("model", Some("a")),
        arg("other", Some("x")),
        arg("prompt", Some("p")),
        arg("model", Some("b")),
        arg("model", None),
        arg("Model", Some("c")),
    ]);
    assert_eq!(params.model, Some("b".to_string()));
    assert_eq!(params.hint, Some("p".to_string()));
    assert_eq!(params.model_name(), "b");
    let none = GenerationParams::from_arguments(&vec![arg("model", None), arg("x", Some("y"))]);
    assert_eq!(none, GenerationParams { model: None, hint: None });
    assert_eq!(none.model_name(), "gpt-4o-mini");
}
