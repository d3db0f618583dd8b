use matrix_fuzz::compile::compile;
use matrix_fuzz::json::JsonValue;
use matrix_fuzz::model::{
    BodyRef, Info, MediaObject, ObjectSchema, OpenApiFile, OpenapiPath, OpenapiResponse,
    RefSchema, Request, RequestBody, Schema, SecurityRequirement, SecurityScheme, StringSchema,
};
use matrix_fuzz::policy::{classify_response, Verdict};
use matrix_fuzz::probe::{BodyShape, CompileError, Method, Probe};
use matrix_fuzz::runtime::{input_matches, plan_request, unclassified_params, PlanOutcome,
    ProbeInput};

fn empty_doc() -> OpenApiFile {
    OpenApiFile {
        swagger: "2.0".to_string(),
        info: Info { title: "Matrix Client-Server API".to_string(), version: "1.0".to_string() },
        host: "localhost:8008".to_string(),
        base_path: "/".to_string(),
        schemes: vec!["http".to_string()],
        security_definitions: None,
        paths: vec![],
        definitions: vec![],
        body_definitions: vec![],
    }
}

fn response(key: &str) -> (String, OpenapiResponse) {
    (
        key.to_string(),
        OpenapiResponse { description: "ok".to_string(), schema: None },
    )
}

fn operation(id: Option<&str>) -> Request {
    Request {
        summary: String::new(),
        description: None,
        operation_id: id.map(|s| s.to_string()),
        responses: vec![response("200")],
        parameters: None,
        security: None,
        request_body: None,
    }
}

fn path_item(get: Option<Request>, post: Option<Request>, put: Option<Request>) -> OpenapiPath {
    OpenapiPath { description: None, get, post, put }
}

fn string_schema() -> Schema {
    Schema::Str(StringSchema { schema_type: "string".to_string(), description: None })
}

fn object_body(props: Vec<(&str, Schema)>) -> BodyRef {
    BodyRef::Inline(RequestBody {
        content: vec![(
            "application/json".to_string(),
            MediaObject {
                schema: Some(Schema::Object(ObjectSchema {
                    properties: props.into_iter().map(|(k, v)| (k.to_string(), v)).collect(),
                    schema_type: "object".to_string(),
                    description: None,
                })),
            },
        )],
    })
}

fn probe_names(probes: &[Probe]) -> Vec<String> {
    probes.iter().map(|p| p.name.clone()).collect()
}

#[test]
fn probe_name_is_case_normalized() {
    let mut doc = empty_doc();
    doc.paths.push(("/a".to_string(), path_item(Some(operation(Some("createRoom"))), None, None)));
    let probes = compile(&doc).unwrap();
    assert_eq!(probes.len(), 1);
    assert_eq!(probes[0].name, "create_room");
}

#[test]
fn recompilation_is_deterministic() {
    let mut doc = empty_doc();
    doc.paths.push(("/a/{x}".to_string(), path_item(Some(operation(Some("getThing"))), None, None)));
    doc.paths.push((
        "/b".to_string(),
        path_item(None, Some(operation(Some("postOther"))), None),
    ));
    let first = compile(&doc).unwrap();
    let second = compile(&doc).unwrap();
    assert_eq!(probe_names(&first), probe_names(&second));
    assert_eq!(probe_names(&first), vec!["get_thing".to_string(), "post_other".to_string()]);
    let outcomes1: Vec<Vec<u16>> = first.iter().map(|p| p.allowed_codes.clone()).collect();
    let outcomes2: Vec<Vec<u16>> = second.iter().map(|p| p.allowed_codes.clone()).collect();
    assert_eq!(outcomes1, outcomes2);
}

#[test]
fn get_takes_precedence_over_post_and_put() {
    let mut doc = empty_doc();
    doc.paths.push((
        "/multi".to_string(),
        path_item(
            Some(operation(Some("readIt"))),
            Some(operation(Some("writeIt"))),
            Some(operation(Some("replaceIt"))),
        ),
    ));
    doc.paths.push((
        "/write".to_string(),
        path_item(None, Some(operation(Some("writeIt"))), Some(operation(Some("replaceIt")))),
    ));
    doc.paths.push((
        "/replace".to_string(),
        path_item(None, None, Some(operation(Some("replaceIt")))),
    ));
    let probes = compile(&doc).unwrap();
    assert_eq!(probes.len(), 3);
    assert_eq!(probes[0].method, Method::Get);
    assert_eq!(probes[0].name, "read_it");
    assert_eq!(probes[1].method, Method::Post);
    assert_eq!(probes[1].name, "write_it");
    assert_eq!(probes[2].method, Method::Put);
    assert_eq!(probes[2].name, "replace_it");
}

#[test]
fn missing_operation_id_is_fatal() {
    let mut doc = empty_doc();
    doc.paths.push(("/ok".to_string(), path_item(Some(operation(Some("fine"))), None, None)));
    doc.paths.push(("/bad".to_string(), path_item(Some(operation(None)), None, None)));
    match compile(&doc) {
        Err(CompileError::MissingOperationId { path }) => assert_eq!(path, "/bad"),
        other => panic!("expected missing-id error, got {:?}", other),
    }
}

#[test]
fn non_numeric_response_key_is_fatal() {
    let mut doc = empty_doc();
    let mut op = operation(Some("brokenOp"));
    op.responses = vec![response("200"), response("default")];
    doc.paths.push(("/bad".to_string(), path_item(Some(op), None, None)));
    match compile(&doc) {
        Err(CompileError::NonNumericStatus { path, key }) => {
            assert_eq!(path, "/bad");
            assert_eq!(key, "default");
        },
        other => panic!("expected status-key error, got {:?}", other),
    }
}

#[test]
fn dangling_body_reference_is_fatal() {
    let mut doc = empty_doc();
    let mut op = operation(Some("refOp"));
    op.request_body = Some(BodyRef::Reference("missingBody".to_string()));
    doc.paths.push(("/bad".to_string(), path_item(None, Some(op), None)));
    match compile(&doc) {
        Err(CompileError::DanglingRef { path, reference }) => {
            assert_eq!(path, "/bad");
            assert_eq!(reference, "missingBody");
        },
        other => panic!("expected dangling-ref error, got {:?}", other),
    }
}

#[test]
fn dangling_schema_reference_is_fatal() {
    let mut doc = empty_doc();
    let mut op = operation(Some("refOp"));
    op.request_body = Some(BodyRef::Inline(RequestBody {
        content: vec![(
            "application/json".to_string(),
            MediaObject {
                schema: Some(Schema::Ref(RefSchema { reference: "NoSuch".to_string() })),
            },
        )],
    }));
    doc.paths.push(("/bad".to_string(), path_item(None, Some(op), None)));
    match compile(&doc) {
        Err(CompileError::DanglingRef { path, reference }) => {
            assert_eq!(path, "/bad");
            assert_eq!(reference, "NoSuch");
        },
        other => panic!("expected dangling-ref error, got {:?}", other),
    }
}

#[test]
fn schema_reference_resolves_against_definitions() {
    let mut doc = empty_doc();
    doc.definitions.push((
        "NamedBody".to_string(),
        Schema::Object(ObjectSchema {
            properties: vec![("display.name".to_string(), string_schema())],
            schema_type: "object".to_string(),
            description: None,
        }),
    ));
    let mut op = operation(Some("refOp"));
    op.request_body = Some(BodyRef::Inline(RequestBody {
        content: vec![(
            "application/json".to_string(),
            MediaObject {
                schema: Some(Schema::Ref(RefSchema { reference: "NamedBody".to_string() })),
            },
        )],
    }));
    doc.paths.push(("/r".to_string(), path_item(None, Some(op), None)));
    let probes = compile(&doc).unwrap();
    match &probes[0].body_shape {
        BodyShape::Fields(names) => assert_eq!(names, &vec!["display_name".to_string()]),
        other => panic!("expected field list, got {:?}", other),
    }
}

#[test]
fn flattener_produces_one_field_per_property() {
    // A body schema with properties {name, topic} flattens to exactly
    // those two opaque-JSON fields, and an instance serializes to an
    // object holding exactly those two keys.
    let mut doc = empty_doc();
    let mut op = operation(Some("setInfo"));
    op.request_body = Some(object_body(vec![
        ("name", string_schema()),
        ("topic", string_schema()),
    ]));
    doc.paths.push(("/info".to_string(), path_item(None, Some(op), None)));
    let probes = compile(&doc).unwrap();
    let probe = &probes[0];
    match &probe.body_shape {
        BodyShape::Fields(names) => {
            assert_eq!(names, &vec!["name".to_string(), "topic".to_string()]);
        },
        other => panic!("expected field list, got {:?}", other),
    }
    let input = ProbeInput {
        body_value: None,
        body_fields: vec![
            JsonValue::Str("a room".to_string()),
            JsonValue::Int(7),
        ],
        path_values: vec![],
    };
    assert!(input_matches(probe, &input));
    let server = "http://localhost:8008".to_string();
    let token = "tok".to_string();
    let room = "!r:localhost".to_string();
    let user = "@u:localhost".to_string();
    match plan_request(probe, input, &server, &token, &room, &user) {
        PlanOutcome::Request(plan) => match plan.body {
            Some(JsonValue::Obj(pairs)) => {
                assert_eq!(pairs.len(), 2);
                assert_eq!(pairs[0].0, "name");
                assert!(matches!(&pairs[0].1, JsonValue::Str(s) if s == "a room"));
                assert_eq!(pairs[1].0, "topic");
                assert!(matches!(&pairs[1].1, JsonValue::Int(7)));
            },
            other => panic!("expected object body, got {:?}", other),
        },
        PlanOutcome::SkipPass => panic!("unexpected skip"),
    }
}

#[test]
fn empty_properties_collapse_to_opaque_json() {
    let mut doc = empty_doc();
    let mut op = operation(Some("anyBody"));
    op.request_body = Some(object_body(vec![]));
    doc.paths.push(("/x".to_string(), path_item(None, Some(op), None)));
    let probes = compile(&doc).unwrap();
    assert!(matches!(probes[0].body_shape, BodyShape::Opaque));
}

#[test]
fn missing_json_content_collapses_to_opaque_json() {
    let mut doc = empty_doc();
    let mut op = operation(Some("otherMedia"));
    op.request_body = Some(BodyRef::Inline(RequestBody {
        content: vec![("text/plain".to_string(), MediaObject { schema: None })],
    }));
    doc.paths.push(("/x".to_string(), path_item(None, Some(op), None)));
    let probes = compile(&doc).unwrap();
    assert!(matches!(probes[0].body_shape, BodyShape::Opaque));
}

#[test]
fn room_scoped_tokens_stay_out_of_the_fuzz_input() {
    // For /rooms/{roomId}/state/{eventType} the fuzz input holds exactly
    // one string, for eventType; the room identifier comes from the
    // session.
    let mut doc = empty_doc();
    doc.paths.push((
        "/rooms/{roomId}/state/{eventType}".to_string(),
        path_item(Some(operation(Some("getState"))), None, None),
    ));
    let probes = compile(&doc).unwrap();
    let probe = &probes[0];
    assert_eq!(unclassified_params(probe), vec!["eventType".to_string()]);
    let input = ProbeInput {
        body_value: None,
        body_fields: vec![],
        path_values: vec!["m.room.topic".to_string()],
    };
    assert!(input_matches(probe, &input));
    let server = "http://localhost:8008".to_string();
    let token = "tok".to_string();
    let room = "!fresh:localhost".to_string();
    let user = "@me:localhost".to_string();
    match plan_request(probe, input, &server, &token, &room, &user) {
        PlanOutcome::Request(plan) => {
            assert_eq!(
                plan.url,
                "http://localhost:8008/rooms/!fresh:localhost/state/m.room.topic"
            );
        },
        PlanOutcome::SkipPass => panic!("unexpected skip"),
    }
}

#[test]
fn end_to_end_create_room_probe() {
    // createRoom: POST, bearer auth, responses {200}, body {preset}.
    let mut doc = empty_doc();
    let mut op = operation(Some("createRoom"));
    op.security = Some(vec![SecurityRequirement {
        schemes: vec![SecurityScheme { name: "accessToken".to_string(), scopes: vec![] }],
    }]);
    op.request_body = Some(object_body(vec![("preset", string_schema())]));
    doc.paths.push((
        "/_matrix/client/v3/createRoom".to_string(),
        path_item(None, Some(op), None),
    ));
    let probes = compile(&doc).unwrap();
    assert_eq!(probes.len(), 1);
    let probe = &probes[0];
    assert_eq!(probe.name, "create_room");
    assert_eq!(probe.method, Method::Post);
    assert!(probe.requires_auth);
    assert_eq!(probe.allowed_codes, vec![200]);

    let input = ProbeInput {
        body_value: None,
        body_fields: vec![JsonValue::Str("private_chat".to_string())],
        path_values: vec![],
    };
    assert!(input_matches(probe, &input));
    let server = "http://localhost:8008".to_string();
    let token = "syt_secret".to_string();
    let room = "!r:localhost".to_string();
    let user = "@me:localhost".to_string();
    match plan_request(probe, input, &server, &token, &room, &user) {
        PlanOutcome::Request(plan) => {
            assert_eq!(plan.url, "http://localhost:8008/_matrix/client/v3/createRoom");
            assert_eq!(plan.method, Method::Post);
            assert_eq!(plan.auth_bearer, Some("syt_secret".to_string()));
            match plan.body {
                Some(JsonValue::Obj(pairs)) => {
                    assert_eq!(pairs.len(), 1);
                    assert_eq!(pairs[0].0, "preset");
                    assert!(matches!(&pairs[0].1, JsonValue::Str(s) if s == "private_chat"));
                },
                other => panic!("expected object body, got {:?}", other),
            }
        },
        PlanOutcome::SkipPass => panic!("unexpected skip"),
    }

    assert_eq!(classify_response(&probe.allowed_codes, 200, None), Verdict::Pass);
    let body = "Internal server error".to_string();
    assert_eq!(classify_response(&probe.allowed_codes, 500, Some(&body)), Verdict::Fail);
}

#[test]
fn operation_without_auth_scheme_sends_no_token() {
    let mut doc = empty_doc();
    let mut op = operation(Some("openOp"));
    op.security = Some(vec![SecurityRequirement {
        schemes: vec![SecurityScheme { name: "other".to_string(), scopes: vec![] }],
    }]);
    doc.paths.push(("/open".to_string(), path_item(Some(op), None, None)));
    let probes = compile(&doc).unwrap();
    let probe = &probes[0];
    assert!(!probe.requires_auth);
    let input = ProbeInput { body_value: None, body_fields: vec![], path_values: vec![] };
    let server = "http://localhost:8008".to_string();
    let token = "tok".to_string();
    let room = "!r".to_string();
    let user = "@u".to_string();
    match plan_request(probe, input, &server, &token, &room, &user) {
        PlanOutcome::Request(plan) => assert_eq!(plan.auth_bearer, None),
        PlanOutcome::SkipPass => panic!("unexpected skip"),
    }
}

#[test]
fn opaque_body_short_circuits_on_non_object() {
    let mut doc = empty_doc();
    let mut op = operation(Some("anyBody"));
    op.request_body = Some(object_body(vec![]));
    doc.paths.push(("/x".to_string(), path_item(None, Some(op), None)));
    let probes = compile(&doc).unwrap();
    let probe = &probes[0];
    let server = "http://localhost:8008".to_string();
    let token = "tok".to_string();
    let room = "!r".to_string();
    let user = "@u".to_string();

    let bad = ProbeInput {
        body_value: Some(JsonValue::Str("not an object".to_string())),
        body_fields: vec![],
        path_values: vec![],
    };
    assert!(input_matches(probe, &bad));
    assert!(matches!(
        plan_request(probe, bad, &server, &token, &room, &user),
        PlanOutcome::SkipPass
    ));

    let good = ProbeInput {
        body_value: Some(JsonValue::Obj(vec![(
            "k".to_string(),
            JsonValue::Bool(true),
        )])),
        body_fields: vec![],
        path_values: vec![],
    };
    assert!(input_matches(probe, &good));
    match plan_request(probe, good, &server, &token, &room, &user) {
        PlanOutcome::Request(plan) => {
            assert!(matches!(plan.body, Some(JsonValue::Obj(_))));
        },
        PlanOutcome::SkipPass => panic!("object body must be sent"),
    }
}

#[test]
fn input_shape_mismatches_are_rejected() {
    let mut doc = empty_doc();
    doc.paths.push((
        "/a/{x}".to_string(),
        path_item(Some(operation(Some("needsOne"))), None, None),
    ));
    let probes = compile(&doc).unwrap();
    let probe = &probes[0];
    let none = ProbeInput { body_value: None, body_fields: vec![], path_values: vec![] };
    assert!(!input_matches(probe, &none));
    let extra_body = ProbeInput {
        body_value: Some(JsonValue::Null),
        body_fields: vec![],
        path_values: vec!["v".to_string()],
    };
    assert!(!input_matches(probe, &extra_body));
    let right = ProbeInput {
        body_value: None,
        body_fields: vec![],
        path_values: vec!["v".to_string()],
    };
    assert!(input_matches(probe, &right));
}

#[test]
fn substituted_values_are_sanitized_in_the_url() {
    let mut doc = empty_doc();
    doc.paths.push((
        "/a/{x}".to_string(),
        path_item(Some(operation(Some("getX"))), None, None),
    ));
    let probes = compile(&doc).unwrap();
    let probe = &probes[0];
    let input = ProbeInput {
        body_value: None,
        body_fields: vec![],
        path_values: vec!["up/../\0down".to_string()],
    };
    let server = "http://s".to_string();
    let token = "t".to_string();
    let room = "!r".to_string();
    let user = "@u".to_string();
    match plan_request(probe, input, &server, &token, &room, &user) {
        PlanOutcome::Request(plan) => assert_eq!(plan.url, "http://s/a/up..down"),
        PlanOutcome::SkipPass => panic!("unexpected skip"),
    }
}
