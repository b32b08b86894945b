use sapi::{DecodeError, Response, SapiError, SAPI};
use serde_json::Value;

fn answered(status: u16, body: &str) -> Result<Response, String> {
    Ok(Response { status, body: body.as_bytes().to_vec() })
}

#[test]
fn test_services() {
    let client = SAPI::new("http://10.77.77.136", 60);

    let s_uuid = String::from("e68592d3-5677-44ec-a5e8-cfd3652dd5be");
    let name = String::from("cheddar");
    let create = client.create_service(&name, &s_uuid.to_string());
    let reply = answered(
        200,
        r#"{"uuid":"c0ffee","name":"cheddar","application_uuid":"e68592d3-5677-44ec-a5e8-cfd3652dd5be"}"#,
    );
    match create.complete(reply) {
        Ok(resp) => {
            assert_eq!(resp.is_success(), true);
        }
        Err(_e) => assert!(false),
    }

    let list = client.list_services();
    let reply = answered(
        200,
        r#"[{"uuid":"c0ffee","name":"cheddar","application_uuid":"e68592d3-5677-44ec-a5e8-cfd3652dd5be"}]"#,
    );
    match list.complete(reply) {
        Ok(list) => {
            assert_ne!(list.len(), 0);
        }
        Err(e) => {
            println!("Error: {:?}", e);
            assert!(false)
        }
    }

    let zone_uuid = String::from("f8bf03e3-5636-4cc4-a939-bbca6b4547f0");

    let config = client.get_zone_config(&zone_uuid);
    let reply = answered(
        200,
        r#"{"manifests":[],"metadata":{"SERVICE_NAME":"2.moray.orbit.example.com"}}"#,
    );
    match config.complete(reply) {
        Ok(resp) => {
            assert_eq!(resp.metadata["SERVICE_NAME"], "2.moray.orbit.example.com");
        }
        Err(e) => panic!("error: {:?}", e),
    }
}

#[test]
fn list_services_with_empty_array() {
    let call = SAPI::new("http://sapi", 10).list_services();
    let services = call.complete(answered(200, "[]")).unwrap();
    assert_eq!(services.len(), 0);
}

#[test]
fn get_service_by_name_returns_every_match() {
    let call = SAPI::new("http://sapi", 10).get_service_by_name("x");
    let body = r#"[{"uuid":"1","name":"x","application_uuid":"a"},
                   {"uuid":"2","name":"x","application_uuid":"b"},
                   {"uuid":"3","name":"x","application_uuid":"a"},
                   {"uuid":"4","name":"x","application_uuid":"c"}]"#;
    let services = call.complete(answered(200, body)).unwrap();
    assert_eq!(services.len(), 4);
    assert_eq!(services[0].uuid, "1");
    assert_eq!(services[3].uuid, "4");
    assert_eq!(services[3].application_uuid, "c");
}

#[test]
fn transport_error_comes_back_as_it_is() {
    let sapi = SAPI::new("http://sapi", 10);
    let cause = String::from("connection refused");

    match sapi.get_instance("i").complete(Err::<Response, String>(cause.clone())) {
        Err(SapiError::Transport(e)) => assert_eq!(e, cause),
        other => panic!("expected a transport error, got {:?}", other),
    }
    match sapi.list_instances().complete(Err::<Response, String>(cause.clone())) {
        Err(SapiError::Transport(e)) => assert_eq!(e, cause),
        other => panic!("expected a transport error, got {:?}", other),
    }
    match sapi.delete_service("s").complete(Err::<Response, (u8, bool)>((3, true))) {
        Err(SapiError::Transport(e)) => assert_eq!(e, (3, true)),
        other => panic!("expected a transport error, got {:?}", other),
    }
}

#[test]
fn create_service_success_is_the_status_alone() {
    let sapi = SAPI::new("http://sapi", 10);
    for (status, body) in [(200, "{}"), (201, "created"), (204, ""), (299, "\u{0}")] {
        let resp = sapi.create_service("cheddar", "app").complete(answered(status, body)).unwrap();
        assert!(resp.is_success());
        assert_eq!(resp.status, status);
        assert_eq!(resp.body, body.as_bytes());
    }
    for status in [0, 100, 199, 300, 301, 404, 409, 500, 503, u16::MAX] {
        let resp = sapi.create_service("cheddar", "app").complete(answered(status, "{}")).unwrap();
        assert!(!resp.is_success());
        assert_eq!(resp.status, status);
    }
}

#[test]
fn writes_hand_the_response_on_unchanged() {
    let sapi = SAPI::new("http://sapi", 10);
    let response = Response { status: 409, body: b"{\"code\":\"Conflict\"}".to_vec() };
    let same = sapi
        .update_service("s", Value::Null)
        .complete(Ok::<Response, String>(response.clone()))
        .unwrap();
    assert_eq!(same, response);
    let same = sapi.delete_service("s").complete(Ok::<Response, String>(response.clone())).unwrap();
    assert_eq!(same, response);
}

#[test]
fn reads_do_not_look_at_the_status() {
    let sapi = SAPI::new("http://sapi", 10);
    let body = r#"{"uuid":"i1","service_uuid":"s1"}"#;
    for status in [200, 204, 302, 404, 500] {
        let instance = sapi.get_instance("i1").complete(answered(status, body)).unwrap();
        assert_eq!(instance.uuid, "i1");
        assert_eq!(instance.service_uuid, "s1");
    }
}

#[test]
fn error_body_of_a_failed_read_is_a_decode_error() {
    let sapi = SAPI::new("http://sapi", 10);
    let not_found = r#"{"code":"ResourceNotFound","message":"no such service"}"#;
    assert!(matches!(
        sapi.get_service("nope").complete(answered(404, not_found)),
        Err(SapiError::Decode(DecodeError::Mismatch))
    ));
    assert!(matches!(
        sapi.list_services().complete(answered(404, not_found)),
        Err(SapiError::Decode(DecodeError::Mismatch))
    ));
    assert!(matches!(
        sapi.get_application("nope").complete(answered(502, "<html>Bad Gateway</html>")),
        Err(SapiError::Decode(DecodeError::Malformed(_)))
    ));
    assert!(matches!(
        sapi.get_zone_config("z").complete(answered(200, "")),
        Err(SapiError::Decode(DecodeError::Malformed(_)))
    ));
}

#[test]
fn each_read_decodes_its_own_record() {
    let sapi = SAPI::new("http://sapi", 10);

    let app = sapi
        .get_application("a1")
        .complete(answered(200, r#"{"uuid":"a1","name":"sdc","owner_uuid":"o1"}"#))
        .unwrap();
    assert_eq!((app.uuid.as_str(), app.name.as_str(), app.owner_uuid.as_str()), ("a1", "sdc", "o1"));

    let apps = sapi
        .list_applications()
        .complete(answered(200, r#"[{"uuid":"a1","name":"sdc","owner_uuid":"o1"}]"#))
        .unwrap();
    assert_eq!(apps.len(), 1);
    let apps = sapi
        .get_application_by_name("sdc")
        .complete(answered(200, r#"[{"uuid":"a1","name":"sdc","owner_uuid":"o1"},{"uuid":"a2","name":"sdc","owner_uuid":"o2"}]"#))
        .unwrap();
    assert_eq!(apps.len(), 2);
    assert_eq!(apps[1].owner_uuid, "o2");

    let service = sapi
        .get_service("s1")
        .complete(answered(200, r#"{"uuid":"s1","name":"moray","application_uuid":"a1","master":true}"#))
        .unwrap();
    assert!(service.master);

    let instances = sapi
        .list_service_instances("s1")
        .complete(answered(200, r#"[{"uuid":"i1","service_uuid":"s1"},{"uuid":"i2","service_uuid":"s1"}]"#))
        .unwrap();
    assert_eq!(instances.len(), 2);
    assert_eq!(instances[1].uuid, "i2");
    let instances = sapi.list_instances().complete(answered(200, "[]")).unwrap();
    assert!(instances.is_empty());
}

#[test]
fn response_json_reads_the_body_on_demand() {
    let response = Response { status: 201, body: br#"{"uuid":"new","n":[1,2]}"#.to_vec() };
    let value = response.json().unwrap();
    assert_eq!(value["uuid"], "new");
    assert_eq!(value["n"][1], 2);
    assert_eq!(response.json().unwrap(), value);

    let empty = Response { status: 204, body: Vec::new() };
    assert!(empty.is_success());
    assert!(matches!(empty.json(), Err(DecodeError::Malformed(_))));
}
