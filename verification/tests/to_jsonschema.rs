use validator::json::Json;
use validator::jsonschema::JSONSchemaValidator;
use validator::model::AdditionalProperties;
use validator::model::ArrayType;
use validator::model::IntegerType;
use validator::model::NumberType;
use validator::model::ObjectType;
use validator::model::Schema;
use validator::model::SchemaRef;
use validator::model::StringFormat;
use validator::model::StringType;

fn obj(members: Vec<(&str, Json)>) -> Json {
    Json::Obj(members.into_iter().map(|(k, v)| (k.to_string(), v)).collect())
}

fn jstr(s: &str) -> Json {
    Json::Str(s.to_string())
}

fn plain_string_type() -> StringType {
    StringType { min_length: None, max_length: None, pattern: None, enumeration: vec![], format: None }
}

fn plain_number_type() -> NumberType {
    NumberType {
        minimum: None,
        maximum: None,
        exclusive_minimum: false,
        exclusive_maximum: false,
        multiple_of: None,
        enumeration: vec![],
    }
}

fn plain_integer_type() -> IntegerType {
    IntegerType {
        minimum: None,
        maximum: None,
        exclusive_minimum: false,
        exclusive_maximum: false,
        multiple_of: None,
        enumeration: vec![],
    }
}

fn plain_array_type() -> ArrayType {
    ArrayType { items: None, min_items: None, max_items: None, unique_items: false }
}

fn plain_object_type() -> ObjectType {
    ObjectType {
        properties: vec![],
        required: vec![],
        additional_properties: None,
        min_properties: None,
        max_properties: None,
    }
}

fn translated(schema: Schema) -> Json {
    schema.to_json_schema(&None).unwrap()
}

#[test]
fn to_jsonschema_basic() {
    assert_eq!(translated(Schema::Boolean), obj(vec![("type", jstr("boolean"))]));
    assert_eq!(
        translated(Schema::String(plain_string_type())),
        obj(vec![("type", jstr("string"))])
    );
    assert_eq!(
        translated(Schema::Number(plain_number_type())),
        obj(vec![("type", jstr("number"))])
    );
    assert_eq!(
        translated(Schema::Integer(plain_integer_type())),
        obj(vec![("type", jstr("integer"))])
    );
    assert_eq!(translated(Schema::Array(plain_array_type())), obj(vec![("type", jstr("array"))]));
    assert_eq!(
        translated(Schema::Object(plain_object_type())),
        obj(vec![("type", jstr("object"))])
    );
    assert_eq!(
        translated(Schema::OneOf(vec![SchemaRef::Item(Box::new(Schema::Boolean))])),
        obj(vec![("oneOf", Json::Arr(vec![obj(vec![("type", jstr("boolean"))])]))])
    );
    assert_eq!(
        translated(Schema::AllOf(vec![SchemaRef::Item(Box::new(Schema::Boolean))])),
        obj(vec![("allOf", Json::Arr(vec![obj(vec![("type", jstr("boolean"))])]))])
    );
    assert_eq!(
        translated(Schema::AnyOf(vec![SchemaRef::Item(Box::new(Schema::Boolean))])),
        obj(vec![("anyOf", Json::Arr(vec![obj(vec![("type", jstr("boolean"))])]))])
    );
    assert_eq!(
        translated(Schema::Not(Box::new(SchemaRef::Item(Box::new(Schema::Boolean))))),
        obj(vec![("not", obj(vec![("type", jstr("boolean"))]))])
    );
}

#[test]
fn min_length() {
    assert_eq!(
        translated(Schema::String(StringType { min_length: Some(5), ..plain_string_type() })),
        obj(vec![("type", jstr("string")), ("minLength", Json::UInt(5))])
    );
}

#[test]
fn min_and_max_length() {
    assert_eq!(
        translated(Schema::String(StringType {
            min_length: Some(5),
            max_length: Some(10),
            ..plain_string_type()
        })),
        obj(vec![
            ("type", jstr("string")),
            ("minLength", Json::UInt(5)),
            ("maxLength", Json::UInt(10)),
        ])
    );
}

#[test]
fn to_jsonschema_enumeration() {
    assert_eq!(
        translated(Schema::String(StringType {
            enumeration: vec!["one".to_string(), "two".to_string()],
            ..plain_string_type()
        })),
        obj(vec![("type", jstr("string")), ("enum", Json::Arr(vec![jstr("one"), jstr("two")]))])
    );
    assert_eq!(
        translated(Schema::Number(NumberType {
            enumeration: vec![1, 2],
            ..plain_number_type()
        })),
        obj(vec![("type", jstr("number")), ("enum", Json::Arr(vec![Json::Int(1), Json::Int(2)]))])
    );
    assert_eq!(
        translated(Schema::Integer(IntegerType {
            enumeration: vec![1, 2],
            ..plain_integer_type()
        })),
        obj(vec![
            ("type", jstr("integer")),
            ("enum", Json::Arr(vec![Json::Int(1), Json::Int(2)])),
        ])
    );
}

#[test]
fn pattern() {
    assert_eq!(
        translated(Schema::String(StringType {
            pattern: Some("^(\\([0-9]{3}\\))?[0-9]{3}-[0-9]{4}$".to_string()),
            ..plain_string_type()
        })),
        obj(vec![
            ("type", jstr("string")),
            ("pattern", jstr("^(\\([0-9]{3}\\))?[0-9]{3}-[0-9]{4}$")),
        ])
    );
}

#[test]
fn format_date_time() {
    assert_eq!(
        translated(Schema::String(StringType {
            format: Some(StringFormat::DateTime),
            ..plain_string_type()
        })),
        obj(vec![("type", jstr("string")), ("format", jstr("date-time"))])
    );
}

#[test]
fn format_date() {
    assert_eq!(
        translated(Schema::String(StringType {
            format: Some(StringFormat::Date),
            ..plain_string_type()
        })),
        obj(vec![("type", jstr("string")), ("format", jstr("date"))])
    );
}

#[test]
fn format_password() {
    assert_eq!(
        translated(Schema::String(StringType {
            format: Some(StringFormat::Password),
            ..plain_string_type()
        })),
        obj(vec![("type", jstr("string")), ("format", jstr("password"))])
    );
}

#[test]
fn format_byte() {
    assert_eq!(
        translated(Schema::String(StringType {
            format: Some(StringFormat::Byte),
            ..plain_string_type()
        })),
        obj(vec![("type", jstr("string")), ("format", jstr("byte"))])
    );
}

#[test]
fn format_binary() {
    assert_eq!(
        translated(Schema::String(StringType {
            format: Some(StringFormat::Binary),
            ..plain_string_type()
        })),
        obj(vec![("type", jstr("string")), ("format", jstr("binary"))])
    );
}

#[test]
fn to_jsonschema_minimum() {
    assert_eq!(
        translated(Schema::Number(NumberType { minimum: Some(2), ..plain_number_type() })),
        obj(vec![("type", jstr("number")), ("minimum", Json::Int(2))])
    );
    assert_eq!(
        translated(Schema::Integer(IntegerType { minimum: Some(2), ..plain_integer_type() })),
        obj(vec![("type", jstr("integer")), ("minimum", Json::Int(2))])
    );
}

#[test]
fn to_jsonschema_minimum_and_maximum() {
    assert_eq!(
        translated(Schema::Number(NumberType {
            minimum: Some(2),
            maximum: Some(6),
            ..plain_number_type()
        })),
        obj(vec![("type", jstr("number")), ("minimum", Json::Int(2)), ("maximum", Json::Int(6))])
    );
    assert_eq!(
        translated(Schema::Integer(IntegerType {
            minimum: Some(2),
            maximum: Some(5),
            ..plain_integer_type()
        })),
        obj(vec![
            ("type", jstr("integer")),
            ("minimum", Json::Int(2)),
            ("maximum", Json::Int(5)),
        ])
    );
}

#[test]
fn to_jsonschema_exclusive_minimum_and_maximum() {
    assert_eq!(
        translated(Schema::Number(NumberType {
            minimum: Some(2),
            maximum: Some(6),
            exclusive_minimum: true,
            exclusive_maximum: true,
            ..plain_number_type()
        })),
        obj(vec![
            ("type", jstr("number")),
            ("minimum", Json::Int(2)),
            ("maximum", Json::Int(6)),
            ("exclusiveMinimum", Json::Bool(true)),
            ("exclusiveMaximum", Json::Bool(true)),
        ])
    );
    assert_eq!(
        translated(Schema::Integer(IntegerType {
            minimum: Some(2),
            maximum: Some(5),
            exclusive_minimum: true,
            exclusive_maximum: true,
            ..plain_integer_type()
        })),
        obj(vec![
            ("type", jstr("integer")),
            ("minimum", Json::Int(2)),
            ("maximum", Json::Int(5)),
            ("exclusiveMinimum", Json::Bool(true)),
            ("exclusiveMaximum", Json::Bool(true)),
        ])
    );
}

#[test]
fn to_jsonschema_multiple_of() {
    assert_eq!(
        translated(Schema::Number(NumberType { multiple_of: Some(2), ..plain_number_type() })),
        obj(vec![("type", jstr("number")), ("multipleOf", Json::Int(2))])
    );
    assert_eq!(
        translated(Schema::Integer(IntegerType {
            multiple_of: Some(10),
            ..plain_integer_type()
        })),
        obj(vec![("type", jstr("integer")), ("multipleOf", Json::Int(10))])
    );
}

#[test]
fn min_items() {
    assert_eq!(
        translated(Schema::Array(ArrayType { min_items: Some(2), ..plain_array_type() })),
        obj(vec![("type", jstr("array")), ("minItems", Json::UInt(2))])
    );
}

#[test]
fn min_and_max_items() {
    assert_eq!(
        translated(Schema::Array(ArrayType {
            min_items: Some(2),
            max_items: Some(5),
            ..plain_array_type()
        })),
        obj(vec![
            ("type", jstr("array")),
            ("minItems", Json::UInt(2)),
            ("maxItems", Json::UInt(5)),
        ])
    );
}

#[test]
fn unique_items() {
    assert_eq!(
        translated(Schema::Array(ArrayType { unique_items: true, ..plain_array_type() })),
        obj(vec![("type", jstr("array")), ("uniqueItems", Json::Bool(true))])
    );
}

#[test]
fn number_items() {
    assert_eq!(
        translated(Schema::Array(ArrayType {
            items: Some(Box::new(SchemaRef::Item(Box::new(Schema::Number(plain_number_type()))))),
            ..plain_array_type()
        })),
        obj(vec![("type", jstr("array")), ("items", obj(vec![("type", jstr("number"))]))])
    );
}

#[test]
fn integer_items() {
    assert_eq!(
        translated(Schema::Array(ArrayType {
            items: Some(Box::new(SchemaRef::Item(Box::new(Schema::Integer(
                plain_integer_type()
            ))))),
            ..plain_array_type()
        })),
        obj(vec![("type", jstr("array")), ("items", obj(vec![("type", jstr("integer"))]))])
    );
}

#[test]
fn string_items() {
    assert_eq!(
        translated(Schema::Array(ArrayType {
            items: Some(Box::new(SchemaRef::Item(Box::new(Schema::String(plain_string_type()))))),
            ..plain_array_type()
        })),
        obj(vec![("type", jstr("array")), ("items", obj(vec![("type", jstr("string"))]))])
    );
}

#[test]
fn boolean_items() {
    assert_eq!(
        translated(Schema::Array(ArrayType {
            items: Some(Box::new(SchemaRef::Item(Box::new(Schema::Boolean)))),
            ..plain_array_type()
        })),
        obj(vec![("type", jstr("array")), ("items", obj(vec![("type", jstr("boolean"))]))])
    );
}

#[test]
fn array_items() {
    assert_eq!(
        translated(Schema::Array(ArrayType {
            items: Some(Box::new(SchemaRef::Item(Box::new(Schema::Array(plain_array_type()))))),
            ..plain_array_type()
        })),
        obj(vec![("type", jstr("array")), ("items", obj(vec![("type", jstr("array"))]))])
    );
}

#[test]
fn invalid_items() {
    assert_eq!(
        translated(Schema::Array(ArrayType {
            items: Some(Box::new(SchemaRef::Reference("not valid".to_string()))),
            ..plain_array_type()
        })),
        obj(vec![("type", jstr("array"))])
    );
}

#[test]
fn min_properties() {
    assert_eq!(
        translated(Schema::Object(ObjectType {
            min_properties: Some(2),
            ..plain_object_type()
        })),
        obj(vec![("type", jstr("object")), ("minProperties", Json::UInt(2))])
    );
}

#[test]
fn min_and_max_properties() {
    assert_eq!(
        translated(Schema::Object(ObjectType {
            min_properties: Some(2),
            max_properties: Some(5),
            ..plain_object_type()
        })),
        obj(vec![
            ("type", jstr("object")),
            ("minProperties", Json::UInt(2)),
            ("maxProperties", Json::UInt(5)),
        ])
    );
}

#[test]
fn number_properties() {
    assert_eq!(
        translated(Schema::Object(ObjectType {
            properties: vec![(
                "count".to_string(),
                SchemaRef::Item(Box::new(Schema::Number(plain_number_type()))),
            )],
            ..plain_object_type()
        })),
        obj(vec![
            ("type", jstr("object")),
            ("properties", obj(vec![("count", obj(vec![("type", jstr("number"))]))])),
        ])
    );
}

#[test]
fn multiple_properties() {
    assert_eq!(
        translated(Schema::Object(ObjectType {
            properties: vec![
                (
                    "string".to_string(),
                    SchemaRef::Item(Box::new(Schema::String(StringType {
                        min_length: Some(5),
                        max_length: Some(10),
                        ..plain_string_type()
                    }))),
                ),
                (
                    "integer".to_string(),
                    SchemaRef::Item(Box::new(Schema::Integer(IntegerType {
                        multiple_of: Some(10),
                        ..plain_integer_type()
                    }))),
                ),
                ("boolean".to_string(), SchemaRef::Item(Box::new(Schema::Boolean))),
            ],
            min_properties: Some(3),
            max_properties: Some(5),
            ..plain_object_type()
        })),
        obj(vec![
            ("type", jstr("object")),
            ("minProperties", Json::UInt(3)),
            ("maxProperties", Json::UInt(5)),
            (
                "properties",
                obj(vec![
                    (
                        "string",
                        obj(vec![
                            ("type", jstr("string")),
                            ("minLength", Json::UInt(5)),
                            ("maxLength", Json::UInt(10)),
                        ]),
                    ),
                    (
                        "integer",
                        obj(vec![("type", jstr("integer")), ("multipleOf", Json::Int(10))]),
                    ),
                    ("boolean", obj(vec![("type", jstr("boolean"))])),
                ]),
            ),
        ])
    );
}

#[test]
fn required_properties() {
    assert_eq!(
        translated(Schema::Object(ObjectType {
            properties: vec![(
                "count".to_string(),
                SchemaRef::Item(Box::new(Schema::Number(plain_number_type()))),
            )],
            required: vec!["count".to_string()],
            ..plain_object_type()
        })),
        obj(vec![
            ("type", jstr("object")),
            ("properties", obj(vec![("count", obj(vec![("type", jstr("number"))]))])),
            ("required", Json::Arr(vec![jstr("count")])),
        ])
    );
}

#[test]
fn multiple_required_properties() {
    assert_eq!(
        translated(Schema::Object(ObjectType {
            properties: vec![
                (
                    "count".to_string(),
                    SchemaRef::Item(Box::new(Schema::Number(plain_number_type()))),
                ),
                ("is_working".to_string(), SchemaRef::Item(Box::new(Schema::Boolean))),
            ],
            required: vec!["count".to_string(), "is_working".to_string()],
            ..plain_object_type()
        })),
        obj(vec![
            ("type", jstr("object")),
            (
                "properties",
                obj(vec![
                    ("count", obj(vec![("type", jstr("number"))])),
                    ("is_working", obj(vec![("type", jstr("boolean"))])),
                ]),
            ),
            ("required", Json::Arr(vec![jstr("count"), jstr("is_working")])),
        ])
    );
}

#[test]
fn additional_properties_false() {
    assert_eq!(
        translated(Schema::Object(ObjectType {
            properties: vec![("is_working".to_string(), SchemaRef::Item(Box::new(Schema::Boolean)))],
            required: vec!["is_working".to_string()],
            additional_properties: Some(AdditionalProperties::Any(false)),
            ..plain_object_type()
        })),
        obj(vec![
            ("type", jstr("object")),
            ("additionalProperties", Json::Bool(false)),
            ("properties", obj(vec![("is_working", obj(vec![("type", jstr("boolean"))]))])),
            ("required", Json::Arr(vec![jstr("is_working")])),
        ])
    );
}

#[test]
fn additional_properties_schema() {
    assert_eq!(
        translated(Schema::Object(ObjectType {
            properties: vec![("is_working".to_string(), SchemaRef::Item(Box::new(Schema::Boolean)))],
            required: vec!["is_working".to_string()],
            additional_properties: Some(AdditionalProperties::Schema(Box::new(SchemaRef::Item(
                Box::new(Schema::Number(plain_number_type()))
            )))),
            ..plain_object_type()
        })),
        obj(vec![
            ("type", jstr("object")),
            ("additionalProperties", obj(vec![("type", jstr("number"))])),
            ("properties", obj(vec![("is_working", obj(vec![("type", jstr("boolean"))]))])),
            ("required", Json::Arr(vec![jstr("is_working")])),
        ])
    );
}

#[test]
fn to_jsonschema_multiple() {
    let parts = || {
        vec![
            SchemaRef::Item(Box::new(Schema::Boolean)),
            SchemaRef::Item(Box::new(Schema::Integer(plain_integer_type()))),
        ]
    };
    let expected_items =
        || vec![obj(vec![("type", jstr("boolean"))]), obj(vec![("type", jstr("integer"))])];
    assert_eq!(
        translated(Schema::OneOf(parts())),
        obj(vec![("oneOf", Json::Arr(expected_items()))])
    );
    assert_eq!(
        translated(Schema::AllOf(parts())),
        obj(vec![("allOf", Json::Arr(expected_items()))])
    );
    assert_eq!(
        translated(Schema::AnyOf(parts())),
        obj(vec![("anyOf", Json::Arr(expected_items()))])
    );
}

#[test]
fn boolean() {
    let schema_json = translated(Schema::Boolean);
    assert_eq!(obj(vec![("type", jstr("boolean"))]), schema_json);
    assert_eq!(true, schema_json.validates("true").is_ok());
}

#[test]
fn string() {
    let schema_json = translated(Schema::String(StringType {
        min_length: Some(5),
        max_length: Some(10),
        ..plain_string_type()
    }));
    assert_eq!(
        obj(vec![
            ("type", jstr("string")),
            ("minLength", Json::UInt(5)),
            ("maxLength", Json::UInt(10)),
        ]),
        schema_json
    );
    assert_eq!(true, schema_json.validates("\"length\"").is_ok());
    assert_eq!(false, schema_json.validates("\"length_too_long\"").is_ok());
}

#[test]
fn required_properties_in_object() {
    let schema_json = translated(Schema::Object(ObjectType {
        properties: vec![(
            "count".to_string(),
            SchemaRef::Item(Box::new(Schema::Number(plain_number_type()))),
        )],
        required: vec!["count".to_string()],
        ..plain_object_type()
    }));
    assert_eq!(
        obj(vec![
            ("type", jstr("object")),
            ("properties", obj(vec![("count", obj(vec![("type", jstr("number"))]))])),
            ("required", Json::Arr(vec![jstr("count")])),
        ]),
        schema_json
    );
    assert_eq!(true, schema_json.validates("{\"count\": 10.1}").is_ok());
    assert_eq!(false, schema_json.validates("{\"not_count\": 10.1}").is_ok());
    assert_eq!(false, schema_json.validates("{\"count\": \"string\"}").is_ok());
}
