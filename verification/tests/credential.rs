use deviceservice::credential::{get_credential_for_onvif_device, CredentialRecords};
use deviceservice::properties::PropertyMap;
use deviceservice::restapihttpserver::{
    handle_query_device_credential, onvif_credential_response, post_query_device_credential,
    resume_query_device_credential, CredentialQuery, QueryDeviceCredentialInput,
    QueryDeviceCredentialRequestBody, QueryDeviceCredentialResponseBody,
};

fn text(s: &str) -> String {
    String::from(s)
}

fn answered(query: CredentialQuery) -> QueryDeviceCredentialResponseBody {
    match query {
        CredentialQuery::Respond(body) => body,
        CredentialQuery::Resolve { .. } => panic!("the query waits for the records"),
    }
}

fn assert_failed(body: &QueryDeviceCredentialResponseBody) {
    assert_eq!(body.result, "fail");
    assert_eq!(body.credential_type, "");
    assert!(body.credentials.is_empty());
}

#[test]
fn debug_echo_knows_foo0() {
    let body = answered(handle_query_device_credential("debugEcho", "foo0"));
    assert_eq!(body.result, "success");
    assert_eq!(body.credential_type, "username-password");
    assert_eq!(body.credentials.len(), 2);
    assert_eq!(body.credentials.get("username"), Some(&text("debugEchoUser1")));
    assert_eq!(body.credentials.get("password"), Some(&text("debugEchoPassword1")));
}

#[test]
fn debug_echo_knows_no_other_device() {
    for device_id in ["foo1", "", "foo", "foo00", "Foo0"] {
        assert_failed(&answered(handle_query_device_credential("debugEcho", device_id)));
    }
}

#[test]
fn other_protocols_have_no_credentials() {
    for protocol_name in ["", "opcua", "Onvif", "debugecho", "udev"] {
        assert_failed(&answered(handle_query_device_credential(protocol_name, "foo0")));
    }
}

#[test]
fn onvif_asks_for_the_two_records() {
    match handle_query_device_credential("onvif", "uuid-12-ab") {
        CredentialQuery::Resolve { username_file, password_file } => {
            assert_eq!(username_file, "uuid_12_ab_username");
            assert_eq!(password_file, "uuid_12_ab_password");
        }
        CredentialQuery::Respond(body) => panic!("answered at once: {body:?}"),
    }
}

#[test]
fn onvif_without_a_directory_fails() {
    let records = CredentialRecords { directory_found: false, username: None, password: None };
    assert_eq!(get_credential_for_onvif_device(records.clone()), None);
    assert_failed(&resume_query_device_credential(records));

    // whatever else is handed in, no directory means no credential
    let records = CredentialRecords {
        directory_found: false,
        username: Some(text("admin")),
        password: Some(text("secret")),
    };
    assert_eq!(get_credential_for_onvif_device(records.clone()), None);
    assert_failed(&resume_query_device_credential(records));
}

#[test]
fn onvif_without_a_user_name_record_fails() {
    let records =
        CredentialRecords { directory_found: true, username: None, password: Some(text("secret")) };
    assert_eq!(get_credential_for_onvif_device(records.clone()), None);
    assert_failed(&resume_query_device_credential(records));
}

#[test]
fn onvif_with_an_empty_user_name_fails() {
    let records = CredentialRecords {
        directory_found: true,
        username: Some(String::new()),
        password: Some(text("secret")),
    };
    assert_eq!(get_credential_for_onvif_device(records.clone()), None);
    assert_failed(&resume_query_device_credential(records));
}

#[test]
fn onvif_with_user_name_and_password_succeeds() {
    let records = CredentialRecords {
        directory_found: true,
        username: Some(text("admin")),
        password: Some(text("secret")),
    };
    assert_eq!(
        get_credential_for_onvif_device(records.clone()),
        Some((text("admin"), Some(text("secret"))))
    );
    let body = resume_query_device_credential(records);
    assert_eq!(body.result, "success");
    assert_eq!(body.credential_type, "username-password");
    let mut pairs = body.credentials.into_pairs();
    pairs.sort();
    assert_eq!(pairs, vec![(text("password"), text("secret")), (text("username"), text("admin"))]);
}

#[test]
fn onvif_with_user_name_alone_succeeds() {
    let records =
        CredentialRecords { directory_found: true, username: Some(text("admin")), password: None };
    assert_eq!(get_credential_for_onvif_device(records.clone()), Some((text("admin"), None)));
    let body = resume_query_device_credential(records);
    assert_eq!(body.result, "success");
    assert_eq!(body.credential_type, "username-password");
    assert_eq!(body.credentials.into_pairs(), vec![(text("username"), text("admin"))]);
}

#[test]
fn onvif_keeps_an_empty_password() {
    let records = CredentialRecords {
        directory_found: true,
        username: Some(text("admin\n")),
        password: Some(String::new()),
    };
    let body = resume_query_device_credential(records);
    assert_eq!(body.result, "success");
    assert_eq!(body.credentials.get("username"), Some(&text("admin\n")));
    assert_eq!(body.credentials.get("password"), Some(&String::new()));
}

#[test]
fn response_for_a_resolved_credential() {
    assert_failed(&onvif_credential_response(None));
    let body = onvif_credential_response(Some((text("u"), None)));
    assert_eq!(body.result, "success");
    assert_eq!(body.credentials.len(), 1);
    let body = QueryDeviceCredentialResponseBody::success(text("u"), Some(text("p")));
    assert_eq!(body.credentials.len(), 2);
    assert_failed(&QueryDeviceCredentialResponseBody::fail());
}

#[test]
fn credential_request_body_is_dispatched() {
    let mut properties = PropertyMap::new();
    properties.insert(text("ignored"), text("yes"));
    let request = QueryDeviceCredentialRequestBody {
        protocol: text("debugEcho"),
        data: QueryDeviceCredentialInput { id: text("foo0"), properties },
    };
    let body = answered(post_query_device_credential(&request));
    assert_eq!(body.result, "success");
    assert_eq!(body.credentials.get("username"), Some(&text("debugEchoUser1")));
}

#[test]
fn default_credential_request_fails() {
    let request = QueryDeviceCredentialRequestBody::default();
    assert_eq!(request.protocol, "");
    assert_eq!(request.data.id, "");
    assert!(request.data.properties.is_empty());
    assert_failed(&answered(post_query_device_credential(&request)));
}
