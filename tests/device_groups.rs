use fcm_device_group::error::{
    ChangeGroupMembersError, CreateGroupError, FCMDeviceGroupClientCreationError,
    FCMDeviceGroupError, FCMDeviceGroupsBadRequest, FCMDeviceGroupsRequestError, GetKeyError,
};
use fcm_device_group::raw::{
    add_to_group_operation, create_group_operation, remove_from_group_operation,
};
use fcm_device_group::request::{
    default_headers, device_group_response, prepare_get_key, prepare_operation, request_headers,
    Method, FCM_DEVICE_GROUP_SCOPE, FIREBASE_NOTIFICATION_URL,
};
use fcm_device_group::{FCMDeviceGroup, Operation, OperationResponse};

fn ids(items: &[&str]) -> Vec<String> {
    items.iter().map(|s| s.to_string()).collect()
}

fn pairs(items: &[(&str, &str)]) -> Vec<(String, String)> {
    items.iter().map(|(a, b)| (a.to_string(), b.to_string())).collect()
}

fn bad_request(message: &str) -> FCMDeviceGroupsBadRequest {
    FCMDeviceGroupsBadRequest { error: message.to_string() }
}

#[test]
fn create_body_is_exact() {
    let op = create_group_operation("g".to_string(), ids(&["a", "b"]));
    assert_eq!(
        op.to_json(),
        r#"{"operation":"create","notification_key_name":"g","registration_ids":["a","b"]}"#
    );
}

#[test]
fn add_and_remove_bodies_are_exact() {
    let add = add_to_group_operation("g".to_string(), "k".to_string(), ids(&["a"]));
    assert_eq!(
        add.to_json(),
        r#"{"operation":"add","notification_key_name":"g","notification_key":"k","registration_ids":["a"]}"#
    );
    let remove = remove_from_group_operation("g".to_string(), "k".to_string(), ids(&["a", "b"]));
    assert_eq!(
        remove.to_json(),
        r#"{"operation":"remove","notification_key_name":"g","notification_key":"k","registration_ids":["a","b"]}"#
    );
}

#[test]
fn tags_are_lowercase_literals() {
    let create = Operation::Create { notification_key_name: "n".to_string(), registration_ids: ids(&["r"]) };
    let add = Operation::Add {
        notification_key_name: None,
        notification_key: "k".to_string(),
        registration_ids: ids(&["r"]),
    };
    let remove = Operation::Remove {
        notification_key_name: Some("n".to_string()),
        notification_key: "k".to_string(),
        registration_ids: ids(&["r"]),
    };
    assert!(create.to_json().contains(r#""operation":"create""#));
    assert!(add.to_json().contains(r#""operation":"add""#));
    assert!(remove.to_json().contains(r#""operation":"remove""#));
}

#[test]
fn absent_name_is_omitted() {
    let add = Operation::Add {
        notification_key_name: None,
        notification_key: "k".to_string(),
        registration_ids: ids(&["r"]),
    };
    let remove = Operation::Remove {
        notification_key_name: None,
        notification_key: "k".to_string(),
        registration_ids: ids(&["r"]),
    };
    assert_eq!(add.to_json(), r#"{"operation":"add","notification_key":"k","registration_ids":["r"]}"#);
    assert!(!add.to_json().contains("notification_key_name"));
    assert!(!remove.to_json().contains("notification_key_name"));
    assert!(!remove.to_json().contains("null"));
}

#[test]
fn strings_are_escaped() {
    let op = create_group_operation("a\"b\\c\nd\u{1}é".to_string(), Vec::new());
    assert_eq!(
        op.to_json(),
        "{\"operation\":\"create\",\"notification_key_name\":\"a\\\"b\\\\c\\nd\\u0001é\",\"registration_ids\":[]}"
    );
}

#[test]
fn encoding_reads_back_as_the_same_fields() {
    let ops = vec![
        Operation::Create { notification_key_name: "g\t\"x\"".to_string(), registration_ids: ids(&["a", "b\n"]) },
        Operation::Add {
            notification_key_name: Some("g".to_string()),
            notification_key: "k".to_string(),
            registration_ids: ids(&["a"]),
        },
        Operation::Remove {
            notification_key_name: None,
            notification_key: "k\u{1f}".to_string(),
            registration_ids: ids(&["a", "c"]),
        },
    ];
    for op in ops {
        let text = op.to_json();
        let value: serde_json::Value = serde_json::from_str(&text).unwrap();
        let object = value.as_object().unwrap();
        let strings = |key: &str| -> Vec<String> {
            object[key].as_array().unwrap().iter().map(|v| v.as_str().unwrap().to_string()).collect()
        };
        match op {
            Operation::Create { notification_key_name, registration_ids } => {
                assert_eq!(object.len(), 3);
                assert_eq!(object["operation"], "create");
                assert_eq!(object["notification_key_name"].as_str().unwrap(), notification_key_name);
                assert_eq!(strings("registration_ids"), registration_ids);
            }
            Operation::Add { notification_key_name, notification_key, registration_ids }
            | Operation::Remove { notification_key_name, notification_key, registration_ids } => {
                assert!(object["operation"] == "add" || object["operation"] == "remove");
                assert_eq!(
                    object.get("notification_key_name").map(|v| v.as_str().unwrap().to_string()),
                    notification_key_name
                );
                assert_eq!(object["notification_key"].as_str().unwrap(), notification_key);
                assert_eq!(strings("registration_ids"), registration_ids);
            }
        }
    }
}

#[test]
fn response_ignores_extra_members() {
    let r = FCMDeviceGroupsRequestError::<FCMDeviceGroupsBadRequest>::json_response(
        200,
        br#"{ "notification_key": "x", "ignored": 1 }"#,
    );
    match r {
        Ok(OperationResponse { notification_key }) => assert_eq!(notification_key, "x"),
        Err(e) => panic!("unexpected error {:?}", e),
    }
}

#[test]
fn success_body_without_key_is_http_error() {
    let r = FCMDeviceGroupsRequestError::<GetKeyError>::json_response(200, br#"{"other":"x"}"#);
    assert!(matches!(r, Err(FCMDeviceGroupsRequestError::HttpError(None))));
    let r = FCMDeviceGroupsRequestError::<GetKeyError>::json_response(201, b"not json");
    assert!(matches!(r, Err(FCMDeviceGroupsRequestError::HttpError(None))));
}

#[test]
fn message_table_classifies() {
    assert_eq!(
        CreateGroupError::from_error_str(bad_request("notification_key already exists")),
        Some(CreateGroupError::AlreadyExists)
    );
    assert_eq!(
        CreateGroupError::from_error_str(bad_request("no valid registration ids")),
        Some(CreateGroupError::NoValidRegistrationIds)
    );
    assert_eq!(
        ChangeGroupMembersError::from_error_str(bad_request("no valid registration ids")),
        Some(ChangeGroupMembersError::NoValidRegistrationIds)
    );
    assert_eq!(
        ChangeGroupMembersError::from_error_str(bad_request(
            "notification_key_name doesn't match the group name of the notification_key"
        )),
        Some(ChangeGroupMembersError::KeyNameAndKeyDontMatch)
    );
    assert_eq!(
        ChangeGroupMembersError::from_error_str(bad_request("notification_key not found")),
        Some(ChangeGroupMembersError::KeyNotFound)
    );
    assert_eq!(
        GetKeyError::from_error_str(bad_request("notification_key not found")),
        Some(GetKeyError::KeyNotFound)
    );
    assert_eq!(CreateGroupError::from_error_str(bad_request("notification_key not found")), None);
    assert_eq!(GetKeyError::from_error_str(bad_request("Notification_key not found")), None);
    let kept = FCMDeviceGroupsBadRequest::from_error_str(bad_request("anything")).unwrap();
    assert_eq!(kept.fmt(), "anything");
}

#[test]
fn bad_request_bodies_classify_per_operation() {
    let body = br#"{"error":"no valid registration ids"}"#;
    let r = FCMDeviceGroupsRequestError::<CreateGroupError>::json_response(400, body);
    assert!(matches!(
        r,
        Err(FCMDeviceGroupsRequestError::BadRequestError(CreateGroupError::NoValidRegistrationIds))
    ));
    let r = FCMDeviceGroupsRequestError::<ChangeGroupMembersError>::json_response(400, body);
    assert!(matches!(
        r,
        Err(FCMDeviceGroupsRequestError::BadRequestError(
            ChangeGroupMembersError::NoValidRegistrationIds
        ))
    ));
    let body = br#"{"error":"notification_key_name doesn't match the group name of the notification_key"}"#;
    let r = FCMDeviceGroupsRequestError::<ChangeGroupMembersError>::json_response(400, body);
    assert!(matches!(
        r,
        Err(FCMDeviceGroupsRequestError::BadRequestError(
            ChangeGroupMembersError::KeyNameAndKeyDontMatch
        ))
    ));
    let body = br#"{"error":"notification_key not found"}"#;
    let r = FCMDeviceGroupsRequestError::<ChangeGroupMembersError>::json_response(400, body);
    assert!(matches!(
        r,
        Err(FCMDeviceGroupsRequestError::BadRequestError(ChangeGroupMembersError::KeyNotFound))
    ));
    let r = FCMDeviceGroupsRequestError::<GetKeyError>::json_response(400, body);
    assert!(matches!(r, Err(FCMDeviceGroupsRequestError::BadRequestError(GetKeyError::KeyNotFound))));
    let r = FCMDeviceGroupsRequestError::<CreateGroupError>::json_response(400, body);
    assert!(matches!(r, Err(FCMDeviceGroupsRequestError::HttpError(Some(400)))));
    let r = FCMDeviceGroupsRequestError::<FCMDeviceGroupsBadRequest>::json_response(400, body);
    match r {
        Err(FCMDeviceGroupsRequestError::BadRequestError(b)) => {
            assert_eq!(b.error, "notification_key not found")
        }
        other => panic!("unexpected {:?}", other),
    }
}

#[test]
fn unexpected_message_is_http_error() {
    let r = FCMDeviceGroupsRequestError::<CreateGroupError>::json_response(
        400,
        br#"{"error":"unexpected"}"#,
    );
    assert!(matches!(r, Err(FCMDeviceGroupsRequestError::HttpError(Some(400)))));
    let r = FCMDeviceGroupsRequestError::<GetKeyError>::json_response(400, b"<html>");
    assert!(matches!(r, Err(FCMDeviceGroupsRequestError::HttpError(Some(400)))));
}

#[test]
fn other_status_is_http_error_without_reading_body() {
    let r = FCMDeviceGroupsRequestError::<GetKeyError>::json_response(
        500,
        br#"{"error":"notification_key not found"}"#,
    );
    assert!(matches!(r, Err(FCMDeviceGroupsRequestError::HttpError(Some(500)))));
    let r = FCMDeviceGroupsRequestError::<CreateGroupError>::json_response(404, b"");
    assert!(matches!(r, Err(FCMDeviceGroupsRequestError::HttpError(Some(404)))));
    let r = FCMDeviceGroupsRequestError::<CreateGroupError>::json_response(
        302,
        br#"{"notification_key":"K"}"#,
    );
    assert!(matches!(r, Err(FCMDeviceGroupsRequestError::HttpError(Some(302)))));
}

#[test]
fn client_headers() {
    assert_eq!(
        default_headers("1234").unwrap(),
        pairs(&[("project_id", "1234"), ("access_token_auth", "true")])
    );
    assert_eq!(
        default_headers("12\n34").unwrap_err(),
        FCMDeviceGroupClientCreationError::InvalidHeaderValue
    );
    assert_eq!(
        default_headers("a\u{7f}").unwrap_err(),
        FCMDeviceGroupClientCreationError::InvalidHeaderValue
    );
    assert!(default_headers("a\tb é").is_ok());
    assert_eq!(FIREBASE_NOTIFICATION_URL, "https://fcm.googleapis.com/fcm/notification");
    assert_eq!(FCM_DEVICE_GROUP_SCOPE, "https://www.googleapis.com/auth/firebase.messaging");
}

#[test]
fn bearer_token_header() {
    assert_eq!(
        request_headers(Some("tok".to_string())),
        pairs(&[("content-type", "application/json"), ("authorization", "Bearer tok")])
    );
    assert_eq!(request_headers(None), pairs(&[("content-type", "application/json")]));
}

#[test]
fn get_key_request_shape() {
    let req = prepare_get_key::<GetKeyError>("foo", Ok(Some("t".to_string()))).unwrap();
    assert_eq!(req.method, Method::Get);
    assert_eq!(req.query, pairs(&[("notification_key_name", "foo")]));
    assert!(req.body.is_none());
    assert!(req.headers.contains(&("authorization".to_string(), "Bearer t".to_string())));
}

#[test]
fn create_request_shape() {
    let op = create_group_operation("g".to_string(), ids(&["a", "b"]));
    let req = prepare_operation::<CreateGroupError>(&op, Ok(Some("t".to_string()))).unwrap();
    assert_eq!(req.method, Method::Post);
    assert!(req.query.is_empty());
    assert_eq!(
        req.body.unwrap(),
        r#"{"operation":"create","notification_key_name":"g","registration_ids":["a","b"]}"#
    );
    assert_eq!(
        req.headers,
        pairs(&[("content-type", "application/json"), ("authorization", "Bearer t")])
    );
}

#[test]
fn create_group_succeeds() {
    let op = create_group_operation("g".to_string(), ids(&["r"]));
    assert!(prepare_operation::<CreateGroupError>(&op, Ok(Some("t".to_string()))).is_ok());
    let group: FCMDeviceGroup =
        device_group_response::<CreateGroupError>("g".to_string(), 200, br#"{"notification_key":"K1"}"#)
            .unwrap();
    assert_eq!(group.notification_key_name, "g");
    assert_eq!(group.notification_key, "K1");
}

#[test]
fn create_group_already_exists() {
    let r = device_group_response::<CreateGroupError>(
        "g".to_string(),
        400,
        br#"{"error":"notification_key already exists"}"#,
    );
    assert!(matches!(
        r,
        Err(FCMDeviceGroupsRequestError::BadRequestError(CreateGroupError::AlreadyExists))
    ));
}

#[test]
fn get_key_not_found() {
    let req = prepare_get_key::<GetKeyError>("missing", Ok(None)).unwrap();
    assert_eq!(req.query, pairs(&[("notification_key_name", "missing")]));
    let r = device_group_response::<GetKeyError>(
        "missing".to_string(),
        400,
        br#"{"error":"notification_key not found"}"#,
    );
    assert!(matches!(r, Err(FCMDeviceGroupsRequestError::BadRequestError(GetKeyError::KeyNotFound))));
}

#[test]
fn no_token_sends_no_authorization() {
    let op = add_to_group_operation("g".to_string(), "K".to_string(), ids(&["r"]));
    let req = prepare_operation::<ChangeGroupMembersError>(&op, Ok(None)).unwrap();
    assert!(req.headers.iter().all(|(name, _)| name != "authorization"));
    let group = device_group_response::<ChangeGroupMembersError>(
        "g".to_string(),
        200,
        br#"{"notification_key":"K2"}"#,
    )
    .unwrap();
    assert_eq!(group.notification_key_name, "g");
    assert_eq!(group.notification_key, "K2");
}

#[test]
fn token_failure_sends_nothing() {
    let op = create_group_operation("g".to_string(), ids(&["r"]));
    let r = prepare_operation::<CreateGroupError>(&op, Err("boom".to_string()));
    match r {
        Err(FCMDeviceGroupsRequestError::GetTokenError(m)) => assert_eq!(m, "boom"),
        other => panic!("unexpected {:?}", other),
    }
    let r = prepare_get_key::<GetKeyError>("g", Err("down".to_string()));
    assert!(matches!(r, Err(FCMDeviceGroupsRequestError::GetTokenError(_))));
}

#[test]
fn server_error_is_http_error() {
    let r = device_group_response::<ChangeGroupMembersError>(
        "g".to_string(),
        500,
        br#"{"error":"notification_key not found"}"#,
    );
    assert!(matches!(r, Err(FCMDeviceGroupsRequestError::HttpError(Some(500)))));
}

#[test]
fn error_messages() {
    assert_eq!(CreateGroupError::AlreadyExists.fmt(), "notification_key already exists");
    assert_eq!(CreateGroupError::NoValidRegistrationIds.fmt(), "no valid registration ids");
    assert_eq!(
        ChangeGroupMembersError::KeyNameAndKeyDontMatch.fmt(),
        "notification_key_name doesn't match the group name of the notification_key"
    );
    assert_eq!(ChangeGroupMembersError::KeyNotFound.fmt(), "notification_key not found");
    assert_eq!(ChangeGroupMembersError::NoValidRegistrationIds.fmt(), "no valid registration ids");
    assert_eq!(GetKeyError::KeyNotFound.fmt(), "notification_key not found");
}

#[test]
fn group_operations_carry_the_name() {
    let remove = remove_from_group_operation("g".to_string(), "K".to_string(), ids(&["x"]));
    match remove {
        Operation::Remove { notification_key_name, notification_key, registration_ids } => {
            assert_eq!(notification_key_name.as_deref(), Some("g"));
            assert_eq!(notification_key, "K");
            assert_eq!(registration_ids, ids(&["x"]));
        }
        _ => panic!("expected a remove operation"),
    }
}
