//! Unit tests for the converters, the url-encoding helper, the deep-object
//! flattening, the decimal renderer and the error descriptions.

use operator::apis::{urlencode, Error, ResponseContent};
use operator::cats_api::CreateCatError;
use operator::converters::{from_remote_entity, matches_spec, to_remote_entity, uuid_to_string};
use operator::json::{parse_deep_object, JsonValue};
use operator::models::CatDto;
use operator::render::{i64_to_string, u64_to_string};
use operator::types::CatSpec;
use operator::{field_manager, finalizer};

#[test]
fn urlencode_passes_safe_bytes_through() {
    assert_eq!(urlencode("abcXYZ019*-._"), "abcXYZ019*-._");
    assert_eq!(urlencode(""), "");
}

#[test]
fn urlencode_escapes_spaces_and_reserved_bytes() {
    assert_eq!(urlencode("hello world"), "hello+world");
    assert_eq!(urlencode("a&b=c"), "a%26b%3Dc");
    assert_eq!(urlencode("100%"), "100%25");
}

#[test]
fn parse_deep_object_flattens_nested_objects_and_arrays() {
    let value = JsonValue::Object(vec![
        (
            "a".to_string(),
            JsonValue::Object(vec![
                ("b".to_string(), JsonValue::String("x".to_string())),
                ("n".to_string(), JsonValue::Number(5)),
            ]),
        ),
        (
            "arr".to_string(),
            JsonValue::Array(vec![
                JsonValue::Object(vec![("z".to_string(), JsonValue::Bool(true))]),
                JsonValue::Object(vec![("z".to_string(), JsonValue::Null)]),
            ]),
        ),
        ("neg".to_string(), JsonValue::Number(-7)),
    ]);

    let params = parse_deep_object("p", &value);

    assert_eq!(
        params,
        vec![
            ("p[a][b]".to_string(), "x".to_string()),
            ("p[a][n]".to_string(), "5".to_string()),
            ("p[arr][0][z]".to_string(), "true".to_string()),
            ("p[arr][1][z]".to_string(), "null".to_string()),
            ("p[neg]".to_string(), "-7".to_string()),
        ]
    );
}

#[test]
fn parse_deep_object_of_empty_object_is_empty() {
    let params = parse_deep_object("q", &JsonValue::Object(vec![]));
    assert!(params.is_empty());
}

#[test]
fn decimal_rendering_covers_the_edges() {
    assert_eq!(u64_to_string(0), "0");
    assert_eq!(u64_to_string(10), "10");
    assert_eq!(u64_to_string(u64::MAX), "18446744073709551615");
    assert_eq!(i64_to_string(0), "0");
    assert_eq!(i64_to_string(-1), "-1");
    assert_eq!(i64_to_string(i64::MAX), "9223372036854775807");
    assert_eq!(i64_to_string(i64::MIN), "-9223372036854775808");
}

#[test]
fn error_descriptions_name_the_failing_layer() {
    let transport: Error<CreateCatError> = Error::Reqwest("connection refused".to_string());
    assert_eq!(transport.describe(), "error in reqwest: connection refused");

    let body: Error<CreateCatError> = Error::Serde("unexpected token".to_string());
    assert_eq!(body.describe(), "error in serde: unexpected token");

    let io: Error<CreateCatError> = Error::Io("pipe closed".to_string());
    assert_eq!(io.describe(), "error in IO: pipe closed");

    let response: Error<CreateCatError> = Error::ResponseError(ResponseContent {
        status: 404,
        content: "not found".to_string(),
        entity: None,
    });
    assert_eq!(response.describe(), "error in response: status code 404");
}

#[test]
fn converters_map_spec_and_identity() {
    let spec = CatSpec {
        name: "Whiskers".to_string(),
        breed: "Siamese".to_string(),
        age: 3,
    };
    let dto = to_remote_entity(&spec);
    assert_eq!(dto.uuid, None);
    assert_eq!(dto.name, "Whiskers");
    assert_eq!(dto.breed, "Siamese");
    assert_eq!(dto.age, 3);
    assert!(matches_spec(&dto, &spec));

    let remote = CatDto {
        uuid: Some("an-id".to_string()),
        ..dto
    };
    assert_eq!(from_remote_entity(&remote), Some("an-id".to_string()));
    assert_eq!(
        uuid_to_string(Some("an-id".to_string())),
        Some("an-id".to_string())
    );
    assert_eq!(uuid_to_string(None), None);

    let different = CatDto {
        uuid: None,
        name: "Whiskers".to_string(),
        breed: "Tabby".to_string(),
        age: 3,
    };
    assert!(!matches_spec(&different, &spec));
}

#[test]
fn operator_identity_tokens() {
    assert_eq!(finalizer(), "finalizers.example.com");
    assert_eq!(field_manager(), "operator");
}
