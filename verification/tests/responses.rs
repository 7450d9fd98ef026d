use zeptomail::interpret_email_response;
use zeptomail::interpret_upload_response;
use zeptomail::status_is_success;
use zeptomail::ZeptoMailError;

#[test]
fn success_status_with_valid_body_yields_envelope() {
    let body = "{\"data\":[{\"code\":\"OK\",\"message\":\"sent\"}],\"message\":\"ok\",\"request_id\":\"r1\"}";
    let r = interpret_email_response(201, body).unwrap();
    assert_eq!(r.request_id, "r1");
    assert_eq!(r.message, "ok");
    assert_eq!(r.data.len(), 1);
    assert_eq!(r.data[0].code, "OK");
    assert_eq!(r.data[0].message, "sent");
    assert_eq!(r.data[0].additional_info, None);
    assert_eq!(r.object, None);
}

#[test]
fn failure_status_with_valid_body_yields_api_error() {
    let body = "{\"code\":\"TM_3301\",\"message\":\"Invalid address\",\"details\":[{\"code\":\"IA\",\"message\":\"bad\",\"target\":\"sender\"}]}";
    let e = interpret_email_response(400, body).unwrap_err();
    match e {
        ZeptoMailError::ApiError(api) => {
            assert_eq!(api.code, "TM_3301");
            assert_eq!(api.message, "Invalid address");
            let details = api.details.unwrap();
            assert_eq!(details.len(), 1);
            assert_eq!(details[0].code, "IA");
            assert_eq!(details[0].message, "bad");
            assert_eq!(details[0].target.as_deref(), Some("sender"));
            assert_eq!(api.request_id, None);
        },
        other => panic!("expected an API error, got {:?}", other),
    }
}

#[test]
fn upload_success_yields_file_cache_key() {
    let body = "{\"file_cache_key\":\"k1\",\"message\":\"ok\",\"code\":\"OK\"}";
    let r = interpret_upload_response(200, body).unwrap();
    assert_eq!(r.file_cache_key, "k1");
    assert_eq!(r.message, "ok");
    assert_eq!(r.code, "OK");
}

#[test]
fn upload_failure_yields_api_error() {
    let body = "{\"code\":\"TM_4001\",\"message\":\"too large\"}";
    let e = interpret_upload_response(413, body).unwrap_err();
    match e {
        ZeptoMailError::ApiError(api) => {
            assert_eq!(api.code, "TM_4001");
            assert_eq!(api.details, None);
        },
        other => panic!("expected an API error, got {:?}", other),
    }
}

#[test]
fn failure_status_with_malformed_body_is_a_serialization_error() {
    let e = interpret_email_response(400, "backend fell over").unwrap_err();
    assert!(matches!(e, ZeptoMailError::SerializationError(_)));
    let e = interpret_email_response(500, "{\"code\":\"X\"").unwrap_err();
    assert!(matches!(e, ZeptoMailError::SerializationError(_)));
    let e = interpret_email_response(500, "{\"message\":\"no code member\"}").unwrap_err();
    assert!(matches!(e, ZeptoMailError::SerializationError(_)));
}

#[test]
fn success_status_with_malformed_body_is_a_serialization_error() {
    let e = interpret_email_response(200, "").unwrap_err();
    assert!(matches!(e, ZeptoMailError::SerializationError(_)));
    let e = interpret_email_response(200, "{\"message\":\"ok\",\"request_id\":\"r\"}").unwrap_err();
    assert!(matches!(e, ZeptoMailError::SerializationError(_)));
    let body = "{\"code\":\"TM_3301\",\"message\":\"an error body under a success status\"}";
    let e = interpret_email_response(200, body).unwrap_err();
    assert!(matches!(e, ZeptoMailError::SerializationError(_)));
}

#[test]
fn member_order_does_not_matter() {
    let body = "{\"request_id\":\"r9\",\"message\":\"ok\",\"data\":[]}";
    let r = interpret_email_response(200, body).unwrap();
    assert_eq!(r.request_id, "r9");
    assert_eq!(r.data.len(), 0);
}

#[test]
fn unknown_members_are_skipped() {
    let body = "{\"data\":[],\"message\":\"ok\",\"request_id\":\"r1\",\"extra\":{\"nested\":[1,2.5,-3e2,true,null,\"s\"],\"more\":{}},\"another\":[[]]}";
    let r = interpret_email_response(200, body).unwrap();
    assert_eq!(r.request_id, "r1");
}

#[test]
fn null_and_absent_optionals_read_as_absent() {
    let body = "{\"data\":[],\"message\":\"m\",\"request_id\":\"r\",\"object\":null}";
    let r = interpret_email_response(200, body).unwrap();
    assert_eq!(r.object, None);
    let body = "{\"data\":[],\"message\":\"m\",\"request_id\":\"r\",\"object\":\"email\"}";
    let r = interpret_email_response(200, body).unwrap();
    assert_eq!(r.object.as_deref(), Some("email"));
    let body = "{\"code\":\"C\",\"message\":\"m\",\"details\":null,\"request_id\":null}";
    let e = interpret_email_response(404, body).unwrap_err();
    match e {
        ZeptoMailError::ApiError(api) => {
            assert_eq!(api.details, None);
            assert_eq!(api.request_id, None);
        },
        other => panic!("expected an API error, got {:?}", other),
    }
}

#[test]
fn duplicate_members_are_rejected() {
    let body = "{\"data\":[],\"message\":\"a\",\"message\":\"b\",\"request_id\":\"r\"}";
    let e = interpret_email_response(200, body).unwrap_err();
    assert!(matches!(e, ZeptoMailError::SerializationError(_)));
}

#[test]
fn trailing_content_is_rejected() {
    let body = "{\"data\":[],\"message\":\"ok\",\"request_id\":\"r\"} tail";
    let e = interpret_email_response(200, body).unwrap_err();
    assert!(matches!(e, ZeptoMailError::SerializationError(_)));
}

#[test]
fn wrongly_typed_members_are_rejected() {
    let body = "{\"data\":[],\"message\":7,\"request_id\":\"r\"}";
    let e = interpret_email_response(200, body).unwrap_err();
    assert!(matches!(e, ZeptoMailError::SerializationError(_)));
    let body = "{\"data\":{},\"message\":\"m\",\"request_id\":\"r\"}";
    let e = interpret_email_response(200, body).unwrap_err();
    assert!(matches!(e, ZeptoMailError::SerializationError(_)));
}

#[test]
fn string_escapes_are_decoded() {
    let body = "{\"data\":[],\"message\":\"a\\nb\\t\\\"q\\\" \\u0041\\u00e9\",\"request_id\":\"r\"}";
    let r = interpret_email_response(200, body).unwrap();
    assert_eq!(r.message, "a\nb\t\"q\" Aé");
}

#[test]
fn lone_surrogate_escape_is_rejected() {
    let body = "{\"data\":[],\"message\":\"\\uD800\",\"request_id\":\"r\"}";
    let e = interpret_email_response(200, body).unwrap_err();
    assert!(matches!(e, ZeptoMailError::SerializationError(_)));
}

#[test]
fn additional_info_lists_are_read() {
    let body = "{\"data\":[{\"code\":\"OK\",\"additional_info\":[\"a\",\"b\"],\"message\":\"m1\"},{\"code\":\"OK2\",\"additional_info\":null,\"message\":\"m2\"}],\"message\":\"ok\",\"request_id\":\"r\"}";
    let r = interpret_email_response(200, body).unwrap();
    assert_eq!(r.data.len(), 2);
    assert_eq!(
        r.data[0].additional_info,
        Some(vec!["a".to_string(), "b".to_string()])
    );
    assert_eq!(r.data[1].additional_info, None);
}

#[test]
fn surrounding_whitespace_is_accepted() {
    let body = " \r\n\t{ \"data\" : [ ] , \"message\" : \"ok\" , \"request_id\" : \"r\" } \n ";
    let r = interpret_email_response(200, body).unwrap();
    assert_eq!(r.request_id, "r");
}

#[test]
fn status_classes_split_at_the_2xx_range() {
    assert!(!status_is_success(199));
    assert!(status_is_success(200));
    assert!(status_is_success(299));
    assert!(!status_is_success(300));
    assert!(!status_is_success(404));
    let ok_body = "{\"data\":[],\"message\":\"ok\",\"request_id\":\"r\"}";
    assert!(interpret_email_response(299, ok_body).is_ok());
    assert!(interpret_email_response(300, ok_body).is_err());
}

#[test]
fn error_descriptions_name_their_kind() {
    let api = ZeptoMailError::ApiError(zeptomail::ApiError {
        code: "C".to_string(),
        message: "went wrong".to_string(),
        details: None,
        request_id: None,
    });
    assert_eq!(api.describe(), "API Error: went wrong");
    let net = ZeptoMailError::NetworkError("connection refused".to_string());
    assert_eq!(net.describe(), "Network Error: connection refused");
    let ser = ZeptoMailError::SerializationError("bad body".to_string());
    assert_eq!(ser.describe(), "Serialization Error: bad body");
    let une = ZeptoMailError::UnexpectedResponse("odd".to_string());
    assert_eq!(une.describe(), "Unexpected Response: odd");
}
