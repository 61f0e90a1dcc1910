#![allow(dead_code)]
use validator::model::ApiSpec;
use validator::model::Components;
use validator::model::Failure;
use validator::model::IntegerType;
use validator::model::MediaType;
use validator::model::ObjectType;
use validator::model::Operation;
use validator::model::Parameter;
use validator::model::ParameterLocation;
use validator::model::ParameterRef;
use validator::model::PathItem;
use validator::model::RequestBody;
use validator::model::RequestBodyRef;
use validator::model::Responses;
use validator::model::Schema;
use validator::model::SchemaRef;
use validator::model::StatusCode;
use validator::model::StringFormat;
use validator::model::StringType;
use validator::request::Request;
use validator::request::Validator;

fn bool_ref() -> SchemaRef {
    SchemaRef::Item(Box::new(Schema::Boolean))
}

fn string_type_ref(format: Option<StringFormat>) -> SchemaRef {
    SchemaRef::Item(Box::new(Schema::String(StringType {
        min_length: None,
        max_length: None,
        pattern: None,
        enumeration: vec![],
        format,
    })))
}

fn string_ref() -> SchemaRef {
    string_type_ref(None)
}

fn integer_ref() -> SchemaRef {
    SchemaRef::Item(Box::new(Schema::Integer(IntegerType {
        minimum: None,
        maximum: None,
        exclusive_minimum: false,
        exclusive_maximum: false,
        multiple_of: None,
        enumeration: vec![],
    })))
}

fn object_ref(props: Vec<(&str, SchemaRef)>, required: Vec<&str>) -> SchemaRef {
    SchemaRef::Item(Box::new(Schema::Object(ObjectType {
        properties: props.into_iter().map(|(k, v)| (k.to_string(), v)).collect(),
        required: required.into_iter().map(|s| s.to_string()).collect(),
        additional_properties: None,
        min_properties: None,
        max_properties: None,
    })))
}

fn responses_200() -> Responses {
    Responses { codes: vec![StatusCode::Code(200)] }
}

fn operation_with(parameters: Vec<ParameterRef>, request_body: Option<RequestBodyRef>) -> Operation {
    Operation { parameters, request_body, responses: responses_200() }
}

fn post_item(op: Operation) -> PathItem {
    PathItem { get: None, put: None, post: Some(op), delete: None }
}

fn get_item(op: Operation) -> PathItem {
    PathItem { get: Some(op), put: None, post: None, delete: None }
}

fn api_one(path: &str, item: PathItem) -> Validator {
    Validator::new(ApiSpec { paths: vec![(path.to_string(), item)], components: None })
}

fn api_with(path: &str, item: PathItem, components: Components) -> Validator {
    Validator::new(ApiSpec { paths: vec![(path.to_string(), item)], components: Some(components) })
}

fn components_with_schemas(schemas: Vec<(&str, SchemaRef)>) -> Components {
    Components {
        schemas: schemas.into_iter().map(|(k, v)| (k.to_string(), v)).collect(),
        parameters: vec![],
        request_bodies: vec![],
    }
}

fn param(location: ParameterLocation, name: &str, required: bool, schema: SchemaRef) -> ParameterRef {
    ParameterRef::Item(Parameter { location, name: name.to_string(), required, schema })
}

fn media(schema: Option<SchemaRef>) -> MediaType {
    MediaType { schema }
}

fn body_with(required: bool, content: Vec<(&str, MediaType)>) -> Option<RequestBodyRef> {
    Some(RequestBodyRef::Item(RequestBody {
        required,
        content: content.into_iter().map(|(k, v)| (k.to_string(), v)).collect(),
    }))
}

fn request(url: &str, method: &str, body: &[u8], headers: &[(&str, &str)]) -> Request {
    Request {
        url: url.to_string(),
        operation: method.to_string(),
        body: body.to_vec(),
        headers: headers.iter().map(|(k, v)| (k.to_string(), v.to_string())).collect(),
    }
}

fn is_rejection<T>(r: Result<T, Failure>) -> bool {
    matches!(r, Err(Failure::Rejection))
}

fn is_defect<T>(r: Result<T, Failure>) -> bool {
    matches!(r, Err(Failure::Defect))
}

#[test]
fn body_reject_a_request_with_no_body_if_required() {
    let v = api_one("/required/body", post_item(operation_with(vec![], body_with(true, vec![]))));
    let r = request("http://test.com/required/body", "post", &[], &[]);
    assert!(is_rejection(v.validate_request(&r)));
}

#[test]
fn body_accept_a_request_with_no_body_if_not_required() {
    let v = api_one("/not/required/body", post_item(operation_with(vec![], body_with(false, vec![]))));
    let r = request("http://test.com/not/required/body", "post", &[], &[]);
    assert!(v.validate_request(&r).is_ok());
}

#[test]
fn body_accept_a_request_with_a_json_body_if_required() {
    let v = api_one(
        "/required/json/body",
        post_item(operation_with(vec![], body_with(true, vec![("application/json", media(None))]))),
    );
    let r = request(
        "http://test.com/required/json/body",
        "post",
        b"{}",
        &[("Content-Type", "application/json")],
    );
    assert!(v.validate_request(&r).is_ok());
}

#[test]
fn body_reject_a_request_with_invalid_json_body_if_required() {
    let v = api_one(
        "/required/json/body",
        post_item(operation_with(vec![], body_with(true, vec![("application/json", media(None))]))),
    );
    let r = request(
        "http://test.com/required/json/body",
        "post",
        b"babe",
        &[("Content-Type", "application/json")],
    );
    assert!(is_rejection(v.validate_request(&r)));
}

#[test]
fn body_accept_a_request_with_valid_utf8_body_if_required() {
    let v = api_one(
        "/required/utf8/body",
        post_item(operation_with(
            vec![],
            body_with(true, vec![("text/plain; charset=utf-8", media(None))]),
        )),
    );
    let r = request(
        "http://test.com/required/utf8/body",
        "post",
        b"ab",
        &[("Content-Type", "text/plain; charset=utf-8")],
    );
    assert!(v.validate_request(&r).is_ok());
}

#[test]
fn body_reject_a_request_with_invalid_utf8_body_if_required() {
    let v = api_one(
        "/required/utf8/body",
        post_item(operation_with(
            vec![],
            body_with(true, vec![("text/plain; charset=utf-8", media(None))]),
        )),
    );
    let r = request(
        "http://test.com/required/utf8/body",
        "post",
        &[0xc3, 0x28],
        &[("Content-Type", "text/plain; charset=utf-8")],
    );
    assert!(is_rejection(v.validate_request(&r)));
}

#[test]
fn body_reject_a_json_body_given_a_schema() {
    let v = api_one(
        "/rejects/invalid/json/against/schema",
        post_item(operation_with(
            vec![],
            body_with(
                true,
                vec![("application/json", media(Some(object_ref(vec![("key", string_ref())], vec!["key"]))))],
            ),
        )),
    );
    let r = request(
        "http://test.com/rejects/invalid/json/against/schema",
        "post",
        b"{\"not key\": \"value\"}",
        &[("Content-Type", "application/json")],
    );
    assert!(is_rejection(v.validate_request(&r)));
}

#[test]
fn body_accept_a_valid_json_body_given_a_schema() {
    let v = api_one(
        "/json/against/schema",
        post_item(operation_with(
            vec![],
            body_with(
                true,
                vec![(
                    "application/json",
                    media(Some(object_ref(
                        vec![
                            ("name", string_ref()),
                            ("count", integer_ref()),
                            ("date", string_type_ref(Some(StringFormat::Date))),
                        ],
                        vec!["name", "count", "date"],
                    ))),
                )],
            ),
        )),
    );
    let r = request(
        "http://test.com/json/against/schema",
        "post",
        b"{\"name\": \"laurence\", \"count\": 10, \"date\": \"2023-05-11\"}",
        &[("Content-Type", "application/json")],
    );
    assert!(v.validate_request(&r).is_ok());
}

#[test]
fn body_accept_a_valid_json_body_given_component_schema_reference() {
    let v = api_with(
        "/json/against/schema",
        post_item(operation_with(
            vec![],
            body_with(
                true,
                vec![(
                    "application/json",
                    media(Some(SchemaRef::Reference("#/components/schemas/Test".to_string()))),
                )],
            ),
        )),
        components_with_schemas(vec![("Test", bool_ref())]),
    );
    let r = request(
        "http://test.com/json/against/schema",
        "post",
        b"true",
        &[("Content-Type", "application/json")],
    );
    assert!(v.validate_request(&r).is_ok());
}

#[test]
fn body_accept_a_valid_json_body_given_component_schema_nested_reference() {
    let v = api_with(
        "/json/against/schema",
        post_item(operation_with(
            vec![],
            body_with(
                true,
                vec![(
                    "application/json",
                    media(Some(SchemaRef::Reference("#/components/schemas/Test".to_string()))),
                )],
            ),
        )),
        components_with_schemas(vec![
            ("Test", SchemaRef::Reference("#/components/schemas/Next".to_string())),
            ("Next", bool_ref()),
        ]),
    );
    let r = request(
        "http://test.com/json/against/schema",
        "post",
        b"true",
        &[("Content-Type", "application/json")],
    );
    assert!(v.validate_request(&r).is_ok());
}

#[test]
fn body_accept_a_valid_json_body_given_a_request_body_reference() {
    let components = Components {
        schemas: vec![],
        parameters: vec![],
        request_bodies: vec![(
            "Test".to_string(),
            RequestBodyRef::Item(RequestBody {
                required: true,
                content: vec![("application/json".to_string(), media(Some(bool_ref())))],
            }),
        )],
    };
    let item = post_item(Operation {
        parameters: vec![],
        request_body: Some(RequestBodyRef::Reference(
            "#/components/requestBodies/Test".to_string(),
        )),
        responses: responses_200(),
    });
    let v = api_with("/body/against/schema", item, components);
    let r = request(
        "http://test.com/body/against/schema",
        "post",
        b"true",
        &[("Content-Type", "application/json")],
    );
    assert!(v.validate_request(&r).is_ok());
}

#[test]
fn required_body_with_bytes_and_no_content_type_is_rejected() {
    let v = api_one("/required/body", post_item(operation_with(vec![], body_with(true, vec![]))));
    let r = request("http://test.com/required/body", "post", b"babe", &[]);
    assert!(is_rejection(v.validate_request(&r)));
}

#[test]
fn required_body_empty_under_every_declared_mode_is_rejected() {
    for content_type in ["application/json", "text/plain; charset=utf-8"] {
        let declared = vec![
            ("application/json", media(None)),
            ("text/plain; charset=utf-8", media(None)),
        ];
        let v = api_one(
            "/required/body",
            post_item(operation_with(vec![], body_with(true, declared))),
        );
        let r = request("http://test.com/required/body", "post", &[], &[("Content-Type", content_type)]);
        assert!(is_rejection(v.validate_request(&r)));
    }
}

#[test]
fn optional_empty_body_accepted_with_declared_plain_text_header() {
    let v = api_one(
        "/not/required/body",
        post_item(operation_with(
            vec![],
            body_with(false, vec![("text/plain; charset=utf-8", media(None))]),
        )),
    );
    let r = request(
        "http://test.com/not/required/body",
        "post",
        &[],
        &[("Content-Type", "text/plain; charset=utf-8")],
    );
    assert!(v.validate_request(&r).is_ok());
}
