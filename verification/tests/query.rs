use deviceservice::restapihttpserver::{
    get_accept_response, get_newcr_no_instance_response, get_newcr_with_instance_response,
    get_provision_good_response, get_reject_response, handle_device_query,
    postquerydevicewebservice, DeviceQuery, QueryDeviceResponseBody,
};
use deviceservice::store::{StoreError, StoreReply, StoreRequest};

fn answered(query: DeviceQuery) -> QueryDeviceResponseBody {
    match query {
        DeviceQuery::Respond(body) => body,
        DeviceQuery::Reconcile { .. } => panic!("the query waits for the store"),
    }
}

fn text(s: &str) -> String {
    String::from(s)
}

#[test]
fn provision_good_is_accepted_with_properties() {
    let body = answered(handle_device_query("debugEcho", "provision-good-1"));
    assert_eq!(body.result, "accept");
    assert_eq!(body.properties.len(), 2);
    assert_eq!(body.properties.get("COMBINED_ID"), Some(&text("debugEcho-provision-good-1")));
    assert_eq!(body.properties.get("EXTRA_INFO"), Some(&text("extra-info-provision-good-1")));
}

#[test]
fn provision_good_alone_is_a_prefix_of_itself() {
    let body = answered(handle_device_query("debugEcho", "provision-good"));
    assert_eq!(body.result, "accept");
    assert_eq!(body.properties.get("COMBINED_ID"), Some(&text("debugEcho-provision-good")));
    assert_eq!(body.properties.get("EXTRA_INFO"), Some(&text("extra-info-provision-good")));
}

#[test]
fn provision_bad_is_rejected() {
    let body = answered(handle_device_query("debugEcho", "provision-bad-x"));
    assert_eq!(body.result, "reject");
    assert!(body.properties.is_empty());
}

#[test]
fn anything_else_is_accepted_without_properties() {
    for device_id in ["anything-else", "", "provision-goo", "provision", "newcr", "Provision-good-1"] {
        let body = answered(handle_device_query("debugEcho", device_id));
        assert_eq!(body.result, "accept");
        assert!(body.properties.is_empty());
    }
}

#[test]
fn unknown_protocol_is_rejected() {
    for (protocol_name, device_id) in [
        ("unknownProto", "x"),
        ("unknownProto", "provision-good-1"),
        ("onvif", "provision-good-1"),
        ("debugecho", "provision-good-1"),
        ("", ""),
        ("", "anything-else"),
    ] {
        let body = answered(handle_device_query(protocol_name, device_id));
        assert_eq!(body.result, "reject");
        assert!(body.properties.is_empty());
    }
}

#[test]
fn fixed_answers() {
    assert_eq!(get_accept_response("debugEcho", "x").result, "accept");
    assert!(get_accept_response("debugEcho", "x").properties.is_empty());
    assert_eq!(get_reject_response("debugEcho", "x").result, "reject");
    assert!(get_reject_response("debugEcho", "x").properties.is_empty());
    assert_eq!(QueryDeviceResponseBody::accept().result, "accept");
    assert_eq!(QueryDeviceResponseBody::reject().result, "reject");
    let good = get_provision_good_response("p", "d");
    assert_eq!(good.result, "accept");
    let mut pairs = good.properties.into_pairs();
    pairs.sort();
    assert_eq!(
        pairs,
        vec![(text("COMBINED_ID"), text("p-d")), (text("EXTRA_INFO"), text("extra-info-d"))]
    );
}

#[test]
fn with_instance_device_waits_for_its_job() {
    match handle_device_query("debugEcho", "newcr-with-instance-Pump") {
        DeviceQuery::Reconcile { pending, request } => {
            assert!(pending.accept_on_success);
            match request {
                StoreRequest::FindCronTab { name, namespace } => {
                    assert_eq!(name, "newcr-with-instance-pump");
                    assert_eq!(namespace, "newcr-with-instance");
                }
                other => panic!("unexpected request {other:?}"),
            }
        }
        DeviceQuery::Respond(body) => panic!("answered at once: {body:?}"),
    }
}

#[test]
fn no_instance_device_waits_for_its_job() {
    match handle_device_query("debugEcho", "newcr-no-instance-Pump") {
        DeviceQuery::Reconcile { pending, request } => {
            assert!(!pending.accept_on_success);
            match request {
                StoreRequest::FindCronTab { name, namespace } => {
                    assert_eq!(name, "newcr-no-instance-pump");
                    assert_eq!(namespace, "newcr-no-instance");
                }
                other => panic!("unexpected request {other:?}"),
            }
        }
        DeviceQuery::Respond(body) => panic!("answered at once: {body:?}"),
    }
}

fn after_failed_lookup(query: DeviceQuery) -> (DeviceQuery, bool) {
    match query {
        DeviceQuery::Reconcile { pending, .. } => {
            let accept = pending.accept_on_success;
            (pending.resume(StoreReply::Failed(StoreError::Transport)), accept)
        }
        DeviceQuery::Respond(body) => panic!("answered at once: {body:?}"),
    }
}

#[test]
fn with_instance_device_is_rejected_when_the_store_fails() {
    let (step, _) = after_failed_lookup(get_newcr_with_instance_response("debugEcho", "newcr-with-instance-1"));
    match step {
        DeviceQuery::Reconcile { pending, request } => {
            match request {
                StoreRequest::CreateCronTab { job, name, namespace } => {
                    assert_eq!(job.cron_spec, "* * * */4");
                    assert_eq!(job.image, "newcr-with-instance_cron_image");
                    assert_eq!(job.capacity, 1);
                    assert_eq!(name, "newcr-with-instance-1");
                    assert_eq!(namespace, "newcr-with-instance");
                }
                other => panic!("unexpected request {other:?}"),
            }
            let failed = StoreReply::Failed(StoreError::Api { code: 500, message: text("boom") });
            assert_eq!(answered(pending.resume(failed)).result, "reject");
        }
        DeviceQuery::Respond(body) => panic!("answered before the create: {body:?}"),
    }
}

#[test]
fn with_instance_device_is_accepted_when_the_create_succeeds() {
    let (step, _) = after_failed_lookup(get_newcr_with_instance_response("debugEcho", "newcr-with-instance-1"));
    match step {
        DeviceQuery::Reconcile { pending, .. } => {
            assert_eq!(answered(pending.resume(StoreReply::Done)).result, "accept");
        }
        DeviceQuery::Respond(body) => panic!("answered before the create: {body:?}"),
    }
}

#[test]
fn no_instance_device_is_rejected_whatever_the_store_says() {
    for reply in [
        StoreReply::Done,
        StoreReply::Failed(StoreError::Transport),
        StoreReply::Failed(StoreError::NotFound),
    ] {
        let (step, _) = after_failed_lookup(get_newcr_no_instance_response("debugEcho", "newcr-no-instance-1"));
        match step {
            DeviceQuery::Reconcile { pending, request } => {
                match request {
                    StoreRequest::CreateCronTab { job, name, namespace } => {
                        assert_eq!(job.cron_spec, "* * */3");
                        assert_eq!(job.image, "newcr-no-instance_cron_image");
                        assert_eq!(job.capacity, 1);
                        assert_eq!(name, "newcr-no-instance-1");
                        assert_eq!(namespace, "newcr-no-instance");
                    }
                    other => panic!("unexpected request {other:?}"),
                }
                let body = answered(pending.resume(reply));
                assert_eq!(body.result, "reject");
                assert!(body.properties.is_empty());
            }
            DeviceQuery::Respond(body) => panic!("answered before the create: {body:?}"),
        }
    }
}

#[test]
fn query_body_is_read_as_json() {
    let body = answered(postquerydevicewebservice(
        "{\"id\": \"provision-good-1\", \"protocol\": \"debugEcho\"}",
    ));
    assert_eq!(body.result, "accept");
    assert_eq!(body.properties.get("COMBINED_ID"), Some(&text("debugEcho-provision-good-1")));

    let body = answered(postquerydevicewebservice(
        "{\"protocol\": \"debugEcho\", \"id\": \"provision-bad-x\", \"more\": [1, 2]}",
    ));
    assert_eq!(body.result, "reject");

    let body = answered(postquerydevicewebservice("{\"id\":\"x\",\"protocol\":\"unknownProto\"}"));
    assert_eq!(body.result, "reject");
}

#[test]
fn query_body_with_escapes_is_unescaped() {
    let body = answered(postquerydevicewebservice(
        "{\"id\": \"provision-good-\\u0041\\n\", \"protocol\": \"debug\\u0045cho\"}",
    ));
    assert_eq!(body.result, "accept");
    assert_eq!(body.properties.get("EXTRA_INFO"), Some(&text("extra-info-provision-good-A\n")));
}

#[test]
fn missing_query_fields_count_as_empty() {
    // without an identifier the test protocol accepts
    let body = answered(postquerydevicewebservice("{\"protocol\": \"debugEcho\"}"));
    assert_eq!(body.result, "accept");
    assert!(body.properties.is_empty());
    // without a protocol everything is rejected
    let body = answered(postquerydevicewebservice("{\"id\": \"provision-good-1\"}"));
    assert_eq!(body.result, "reject");
    let body = answered(postquerydevicewebservice("{}"));
    assert_eq!(body.result, "reject");
}

#[test]
fn query_fields_that_are_no_strings_count_as_empty() {
    let body = answered(postquerydevicewebservice("{\"protocol\": \"debugEcho\", \"id\": 17}"));
    assert_eq!(body.result, "accept");
    assert!(body.properties.is_empty());
    let body = answered(postquerydevicewebservice(
        "{\"protocol\": \"debugEcho\", \"id\": [\"provision-bad\"]}",
    ));
    assert_eq!(body.result, "accept");
    let body = answered(postquerydevicewebservice(
        "{\"protocol\": null, \"id\": \"provision-good-1\"}",
    ));
    assert_eq!(body.result, "reject");
}

#[test]
fn query_body_that_is_no_json_object_counts_as_empty() {
    for text in [
        "",
        "not json",
        "{\"protocol\": \"debugEcho\", \"id\": \"provision-good-1\"",
        "{\"protocol\": \"debugEcho\", \"id\": \"provision-good-1\"} trailing",
        "[\"debugEcho\", \"provision-good-1\"]",
        "\"debugEcho\"",
        "null",
    ] {
        let body = answered(postquerydevicewebservice(text));
        assert_eq!(body.result, "reject");
        assert!(body.properties.is_empty());
    }
}
