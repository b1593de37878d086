use nixbom::error::QueryError;
use nixbom::json::{parse_json, Json};
use nixbom::nix::{Drv, Out};
use nixbom::query::{get_derivation, get_derivation_json, get_derivations, Query};

fn text(value: &str) -> String {
    value.to_string()
}

fn bytes(value: &str) -> Vec<u8> {
    value.as_bytes().to_vec()
}

const HELLO: &str = r#"{
  "/nix/store/abc-hello-2.10.drv": {
    "outputs": {
      "out": { "path": "/nix/store/xyz-hello-2.10" },
      "dev": { "path": "/nix/store/xyz-hello-2.10-dev", "hashAlgo": "sha256", "hash": "00ff" }
    },
    "inputSrcs": ["/nix/store/src-default-builder.sh"],
    "inputDrvs": {
      "/nix/store/dep-stdenv.drv": ["out"],
      "/nix/store/dep-bash.drv": ["out", "dev"]
    },
    "system": "x86_64-linux",
    "builder": "/nix/store/bash/bin/bash",
    "args": ["-e", "/nix/store/src-default-builder.sh"],
    "env": { "name": "hello-2.10", "out": "/nix/store/xyz-hello-2.10" },
    "platform": "x86_64-linux",
    "attempts": 3
  }
}"#;

fn hello() -> Drv {
    Drv {
        outputs: vec![
            (
                text("dev"),
                Out {
                    path: text("/nix/store/xyz-hello-2.10-dev"),
                    hash_algo: Some(text("sha256")),
                    hash: Some(text("00ff")),
                },
            ),
            (
                text("out"),
                Out { path: text("/nix/store/xyz-hello-2.10"), hash_algo: None, hash: None },
            ),
        ],
        input_srcs: vec![text("/nix/store/src-default-builder.sh")],
        input_drvs: vec![
            (text("/nix/store/dep-bash.drv"), vec![text("out"), text("dev")]),
            (text("/nix/store/dep-stdenv.drv"), vec![text("out")]),
        ],
        system: text("x86_64-linux"),
        builder: text("/nix/store/bash/bin/bash"),
        args: vec![text("-e"), text("/nix/store/src-default-builder.sh")],
        env: vec![
            (text("name"), text("hello-2.10")),
            (text("out"), text("/nix/store/xyz-hello-2.10")),
        ],
        extra: vec![
            (text("attempts"), Json::Number(text("3"))),
            (text("platform"), Json::String(text("x86_64-linux"))),
        ],
    }
}

#[test]
fn json_is_read_into_plain_values() {
    let document = bytes(r#"{"b": [1, -2, 2.5, true, null, "x"], "a": {}}"#);
    assert_eq!(
        parse_json(&document),
        Some(Json::Object(vec![
            (text("a"), Json::Object(vec![])),
            (
                text("b"),
                Json::Array(vec![
                    Json::Number(text("1")),
                    Json::Number(text("-2")),
                    Json::Number(text("2.5")),
                    Json::Bool(true),
                    Json::Null,
                    Json::String(text("x")),
                ]),
            ),
        ]))
    );
}

#[test]
fn what_is_not_json_is_not_read() {
    assert_eq!(parse_json(&bytes("{")), None);
    assert_eq!(parse_json(&bytes("")), None);
    assert_eq!(parse_json(&bytes("{} {}")), None);
    assert_eq!(parse_json(&vec![0xff, 0xfe]), None);
}

#[test]
fn output_of_a_query_is_read_as_json() {
    assert_eq!(
        get_derivation_json(bytes(r#" {"x": "y"} "#)),
        Ok(Json::Object(vec![(text("x"), Json::String(text("y")))]))
    );
}

#[test]
fn empty_output_is_no_answer() {
    assert_eq!(get_derivation_json(vec![]), Err(QueryError::Empty));
    assert_eq!(get_derivations(vec![]), Err(QueryError::Empty));
    assert_eq!(get_derivation(vec![]), Err(QueryError::Empty));
}

#[test]
fn output_that_is_not_json_is_no_answer() {
    assert_eq!(get_derivation_json(bytes("error: no such path")), Err(QueryError::Syntax));
    assert_eq!(get_derivations(bytes("{\"a\": ")), Err(QueryError::Syntax));
    assert_eq!(get_derivation(bytes("   ")), Err(QueryError::Syntax));
}

#[test]
fn derivations_are_read_with_their_references() {
    assert_eq!(
        get_derivations(bytes(HELLO)),
        Ok(vec![(text("/nix/store/abc-hello-2.10.drv"), hello())])
    );
}

#[test]
fn one_derivation_is_read_from_the_answer_for_one_reference() {
    assert_eq!(get_derivation(bytes(HELLO)), Ok(hello()));
}

#[test]
fn an_answer_without_a_derivation_is_malformed() {
    assert_eq!(get_derivations(bytes("{}")), Ok(vec![]));
    assert_eq!(get_derivation(bytes("{}")), Err(QueryError::Shape));
}

#[test]
fn an_answer_with_two_derivations_is_no_answer_for_one_reference() {
    let node = r#"{"outputs":{},"inputSrcs":[],"inputDrvs":{},"system":"s","builder":"b","args":[],"env":{}}"#;
    let two = format!(r#"{{"a.drv": {}, "b.drv": {}}}"#, node, node);
    assert_eq!(get_derivations(bytes(&two)).map(|drvs| drvs.len()), Ok(2));
    assert_eq!(get_derivation(bytes(&two)), Err(QueryError::Shape));
}

#[test]
fn json_of_another_shape_describes_no_derivations() {
    assert_eq!(get_derivations(bytes("[]")), Err(QueryError::Shape));
    assert_eq!(get_derivations(bytes("null")), Err(QueryError::Shape));
    assert_eq!(get_derivations(bytes(r#"{"a.drv": "text"}"#)), Err(QueryError::Shape));
}

#[test]
fn a_derivation_needs_each_of_its_members() {
    let members = [
        r#""outputs":{}"#,
        r#""inputSrcs":[]"#,
        r#""inputDrvs":{}"#,
        r#""system":"s""#,
        r#""builder":"b""#,
        r#""args":[]"#,
        r#""env":{}"#,
    ];
    let whole = format!(r#"{{"a.drv": {{{}}}}}"#, members.join(","));
    assert!(get_derivations(bytes(&whole)).is_ok());
    for missing in 0..members.len() {
        let rest: Vec<&str> = members
            .iter()
            .enumerate()
            .filter(|(place, _)| *place != missing)
            .map(|(_, member)| *member)
            .collect();
        let partial = format!(r#"{{"a.drv": {{{}}}}}"#, rest.join(","));
        assert_eq!(get_derivations(bytes(&partial)), Err(QueryError::Shape));
    }
}

#[test]
fn members_of_the_wrong_kind_are_malformed() {
    let with = |member: &str, value: &str| {
        let mut members = vec![
            ("outputs", "{}"),
            ("inputSrcs", "[]"),
            ("inputDrvs", "{}"),
            ("system", "\"s\""),
            ("builder", "\"b\""),
            ("args", "[]"),
            ("env", "{}"),
        ];
        for entry in members.iter_mut() {
            if entry.0 == member {
                entry.1 = value;
            }
        }
        let body: Vec<String> =
            members.iter().map(|(name, value)| format!("\"{}\":{}", name, value)).collect();
        bytes(&format!("{{\"a.drv\": {{{}}}}}", body.join(",")))
    };
    assert!(get_derivations(with("system", "\"s\"")).is_ok());
    assert_eq!(get_derivations(with("system", "1")), Err(QueryError::Shape));
    assert_eq!(get_derivations(with("args", "[1]")), Err(QueryError::Shape));
    assert_eq!(get_derivations(with("inputSrcs", "\"x\"")), Err(QueryError::Shape));
    assert_eq!(get_derivations(with("inputDrvs", "{\"b.drv\": \"out\"}")), Err(QueryError::Shape));
    assert_eq!(get_derivations(with("env", "{\"name\": 1}")), Err(QueryError::Shape));
    assert_eq!(get_derivations(with("outputs", "{\"out\": {}}")), Err(QueryError::Shape));
    assert_eq!(
        get_derivations(with("outputs", "{\"out\": {\"path\": \"p\", \"hash\": 1}}")),
        Err(QueryError::Shape)
    );
    assert!(get_derivations(with("outputs", "{\"out\": {\"path\": \"p\", \"hash\": null}}")).is_ok());
}

#[test]
fn the_root_is_asked_for_as_an_expression() {
    let query = Query::root(text("./default.nix"));
    assert_eq!(query, Query { reference: text("./default.nix"), as_expression: true });
    assert_eq!(query.arguments(), vec![text("show-derivation"), text("-f"), text("./default.nix")]);
}

#[test]
fn a_dependency_is_asked_for_by_its_reference() {
    let query = Query::dependency(text("/nix/store/abc-hello-2.10.drv"));
    assert!(!query.as_expression);
    assert_eq!(
        query.arguments(),
        vec![text("show-derivation"), text("/nix/store/abc-hello-2.10.drv")]
    );
}

#[test]
fn each_query_error_says_what_went_wrong() {
    assert_eq!(QueryError::Fetch.message(), "the query failed");
    assert_eq!(QueryError::Empty.message(), "the query gave no output");
    assert_eq!(QueryError::Syntax.message(), "the output of the query is not JSON");
    assert_eq!(
        QueryError::Shape.message(),
        "the output of the query does not describe derivations"
    );
}

#[test]
fn a_member_named_twice_keeps_its_last_value() {
    assert_eq!(
        parse_json(&bytes(r#"{"a": 1, "b": 0, "a": 2}"#)),
        Some(Json::Object(vec![
            (text("a"), Json::Number(text("2"))),
            (text("b"), Json::Number(text("0"))),
        ]))
    );
}

#[test]
fn numbers_are_kept_as_text() {
    assert_eq!(
        parse_json(&bytes("[0, 18446744073709551615, -9223372036854775808, 1.0, 1e2, 0.5]")),
        Some(Json::Array(vec![
            Json::Number(text("0")),
            Json::Number(text("18446744073709551615")),
            Json::Number(text("-9223372036854775808")),
            Json::Number(text("1.0")),
            Json::Number(text("100.0")),
            Json::Number(text("0.5")),
        ]))
    );
    assert_eq!(parse_json(&bytes("1e999")), None);
}

#[test]
fn strings_are_read_with_their_escapes_resolved() {
    assert_eq!(
        parse_json(&bytes(r#""a\"b\\cé\n""#)),
        Some(Json::String(text("a\"b\\c\u{e9}\n")))
    );
}

#[test]
fn documents_nested_too_deep_are_not_read() {
    let deep = format!("{}{}", "[".repeat(200), "]".repeat(200));
    assert_eq!(parse_json(&bytes(&deep)), None);
    let shallow = format!("{}{}", "[".repeat(100), "]".repeat(100));
    assert!(parse_json(&bytes(&shallow)).is_some());
}

#[test]
fn copies_of_documents_are_equal_to_them() {
    let document = parse_json(&bytes(r#"{"a": [1, {"b": null}], "c": "d"}"#)).unwrap();
    assert_eq!(document.clone(), document);
    assert_eq!(hello().clone(), hello());
}
