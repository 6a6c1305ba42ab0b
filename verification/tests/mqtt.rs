use hearth_shared::mqtt::{reading_json, MqttSettings, Node, QoS, Topics, READING_QOS};

#[test]
fn topics_follow_the_contract() {
    let t = Topics::new("hearth", "esp32s3-01");
    assert_eq!(t.metric("rssi"), "hearth/esp32s3-01/rssi");
    assert_eq!(t.metric("heap"), "hearth/esp32s3-01/heap");
    assert_eq!(t.status(), "hearth/esp32s3-01/status");
    assert_eq!(t.metric("status"), t.status());
}

#[test]
fn settings_from_parts() {
    let s = MqttSettings::from_parts("192.168.68.139", "1883", "", "", "esp32s3-01");
    assert_eq!(s.url, "mqtt://192.168.68.139:1883");
    assert_eq!(s.client_id, "hearth-esp32s3-01");
    assert_eq!(s.username, "");
    assert_eq!(s.password, "");
    let s = MqttSettings::from_parts("broker", "8883", "user", "secret", "n2");
    assert_eq!(s.url, "mqtt://broker:8883");
    assert_eq!(s.client_id, "hearth-n2");
    assert_eq!(s.username, "user");
    assert_eq!(s.password, "secret");
}

#[test]
fn reading_json_with_unit() {
    assert_eq!(
        reading_json("esp32s3-01", 12345, "-54", "dBm"),
        r#"{"device":"esp32s3-01","uptime_ms":12345,"value":-54,"unit":"dBm"}"#
    );
}

#[test]
fn reading_json_omits_empty_unit() {
    assert_eq!(
        reading_json("esp32s3-01", 0, "7", ""),
        r#"{"device":"esp32s3-01","uptime_ms":0,"value":7}"#
    );
}

#[test]
fn reading_json_large_uptime() {
    assert_eq!(
        reading_json("d", u64::MAX, "1.5", "C"),
        r#"{"device":"d","uptime_ms":18446744073709551615,"value":1.5,"unit":"C"}"#
    );
    assert_eq!(
        reading_json("d", 1000, "0", "B"),
        r#"{"device":"d","uptime_ms":1000,"value":0,"unit":"B"}"#
    );
}

#[test]
fn node_messages() {
    let node = Node::new("hearth", "esp32s3-01");
    let online = node.status_online_message();
    assert_eq!(online.topic, "hearth/esp32s3-01/status");
    assert_eq!(online.payload, "online");
    assert!(online.retain);
    assert_eq!(online.qos, QoS::AtLeastOnce);

    let reading = node.metric_message("heap", "123456", "B", 5000);
    assert_eq!(reading.topic, "hearth/esp32s3-01/heap");
    assert_eq!(reading.payload, r#"{"device":"esp32s3-01","uptime_ms":5000,"value":123456,"unit":"B"}"#);
    assert!(!reading.retain);
    assert_eq!(reading.qos, READING_QOS);
    assert_eq!(READING_QOS, QoS::AtLeastOnce);
}

#[test]
fn client_config_has_last_will_and_optional_credentials() {
    let node = Node::new("hearth", "esp32s3-01");
    let anon = MqttSettings::from_parts("h", "1883", "", "", "esp32s3-01");
    let cfg = node.client_config(&anon);
    assert_eq!(cfg.client_id, "hearth-esp32s3-01");
    assert_eq!(cfg.username, None);
    assert_eq!(cfg.password, None);
    assert_eq!(cfg.last_will.topic, "hearth/esp32s3-01/status");
    assert_eq!(cfg.last_will.payload, "offline");
    assert!(cfg.last_will.retain);
    assert_eq!(cfg.last_will.qos, QoS::AtLeastOnce);
    assert_eq!(cfg.last_will.topic, node.status_online_message().topic);

    let auth = MqttSettings::from_parts("h", "1883", "u", "p", "esp32s3-01");
    let cfg = node.client_config(&auth);
    assert_eq!(cfg.username, Some("u".to_string()));
    assert_eq!(cfg.password, Some("p".to_string()));
}
