use hub_session::{parse_connection_string, startup_check, ConfigError, FatalError};

#[test]
fn parses_three_fields() {
    let f = parse_connection_string("HostName=h.example.com;DeviceId=dev1;SharedAccessKey=base64key==")
        .unwrap();
    assert_eq!(f.host_name, "h.example.com");
    assert_eq!(f.device_id, "dev1");
    assert_eq!(f.shared_access_key, "base64key==");
}

#[test]
fn keys_match_in_any_case_and_order() {
    let f = parse_connection_string("sharedaccesskey=abc;DEVICEID=d;hostname=x.net").unwrap();
    assert_eq!(f.host_name, "x.net");
    assert_eq!(f.device_id, "d");
    assert_eq!(f.shared_access_key, "abc");
}

#[test]
fn missing_field_is_config_error() {
    assert_eq!(
        parse_connection_string("HostName=h;SharedAccessKey=k").err(),
        Some(ConfigError::MalformedConnectionString)
    );
    assert_eq!(parse_connection_string("").err(), Some(ConfigError::MalformedConnectionString));
}

#[test]
fn missing_trust_anchor_exits_with_four() {
    let cs = "HostName=h.example.com;DeviceId=dev1;SharedAccessKey=base64key==";
    let e = startup_check(cs, false).err().unwrap();
    assert_eq!(e, ConfigError::MissingTrustAnchor);
    assert_eq!(FatalError::Config(e).exit_code(), 4);
    let f = startup_check(cs, true).unwrap();
    assert_eq!(f.device_id, "dev1");
    assert_eq!(startup_check("DeviceId=d", false).err(), Some(ConfigError::MalformedConnectionString));
}
