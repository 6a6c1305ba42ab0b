//! The MQTT wire contract: topics, reading payloads and the messages a node
//! publishes, including its last will.
//!
//! Contract in brief:
//!   - topics:  `hearth/<node-id>/<metric>`  and  `hearth/<node-id>/status`
//!   - payload: small self-describing JSON, e.g.
//!              `{"device":"esp32s3-01","uptime_ms":1234,"value":-54,"unit":"dBm"}`
//!   - status:  retained; `online` on connect, last will `offline` on disconnect
//!   - QoS:     1 (at-least-once) for readings, so consumers don't miss samples
use vstd::prelude::*;

use crate::text::{decimal, decimal_value, lemma_decimal_value, push_decimal};

verus! {

/// MQTT delivery guarantee.
#[derive(Debug, Clone, Copy, PartialEq, Eq, Structural)]
pub enum QoS {
    AtMostOnce,
    AtLeastOnce,
    ExactlyOnce,
}

/// Default QoS for readings. At-least-once: a briefly-disconnected consumer
/// still receives the sample (at the cost of possible duplicates).
pub const READING_QOS: QoS = QoS::AtLeastOnce;

/// Broker connection settings, as injected from the environment.
/// `url` is assembled from host and port.
pub struct MqttSettings {
    pub url: String,
    pub client_id: String,
    pub username: String,
    pub password: String,
}

impl MqttSettings {
    /// Build settings from discrete parts. The client id is derived from the
    /// node id so it is unique per board.
    pub fn from_parts(host: &str, port: &str, username: &str, password: &str, node_id: &str) -> (res: Self)
        ensures
            res.url@ == "mqtt://"@ + host@ + ":"@ + port@,
            res.client_id@ == "hearth-"@ + node_id@,
            res.username@ == username@,
            res.password@ == password@,
    {
        let mut url = String::from_str("mqtt://");
        url.append(host);
        url.append(":");
        url.append(port);
        let mut client_id = String::from_str("hearth-");
        client_id.append(node_id);
        MqttSettings {
            url,
            client_id,
            username: String::from_str(username),
            password: String::from_str(password),
        }
    }
}

/// The topic root of a node: `<system>/<node_id>`.
pub open spec fn topic_base(system: Seq<char>, node_id: Seq<char>) -> Seq<char> {
    system + "/"@ + node_id
}

/// The topic of a metric under a topic root: `<base>/<metric>`.
pub open spec fn metric_topic(base: Seq<char>, metric: Seq<char>) -> Seq<char> {
    base + "/"@ + metric
}

/// The retained availability topic under a topic root: `<base>/status`.
pub open spec fn status_topic(base: Seq<char>) -> Seq<char> {
    base + "/status"@
}

/// The per-node topic set, rooted at the system name (the MQTT topic root).
pub struct Topics {
    base: String,
}

impl View for Topics {
    type V = Seq<char>;

    /// The topic root `<system>/<node_id>`.
    closed spec fn view(&self) -> Seq<char> {
        self.base@
    }
}

impl Topics {
    /// `system` is the topic root ("hearth"); `node_id` is the stable board id.
    pub fn new(system: &str, node_id: &str) -> (res: Self)
        ensures
            res@ == topic_base(system@, node_id@),
    {
        let mut base = String::from_str(system);
        base.append("/");
        base.append(node_id);
        Topics { base }
    }

    /// Topic for a named metric: `metric("rssi") -> "hearth/esp32s3-01/rssi"`.
    pub fn metric(&self, metric: &str) -> (res: String)
        ensures
            res@ == metric_topic(self@, metric@),
    {
        let mut t = self.base.clone();
        t.append("/");
        t.append(metric);
        t
    }

    /// The retained availability topic: "hearth/esp32s3-01/status".
    pub fn status(&self) -> (res: String)
        ensures
            res@ == status_topic(self@),
    {
        let mut t = self.base.clone();
        t.append("/status");
        t
    }
}

/// The JSON text of one reading: device, uptime, value and, where `unit` is
/// not empty, unit, in that order, with `value` inserted as it is given.
pub open spec fn reading_json_text(device: Seq<char>, uptime_ms: u64, value: Seq<char>, unit: Seq<char>) -> Seq<char> {
    let head = "{\"device\":\""@ + device + "\",\"uptime_ms\":"@ + decimal(uptime_ms as nat)
        + ",\"value\":"@ + value;
    if unit.len() == 0 {
        head + "}"@
    } else {
        head + ",\"unit\":\""@ + unit + "\"}"@
    }
}

/// A small, self-describing reading payload as JSON. `value` is the text of
/// the reading (an integer or a float as it displays); an empty `unit` is
/// omitted.
pub fn reading_json(device: &str, uptime_ms: u64, value: &str, unit: &str) -> (res: String)
    ensures
        res@ == reading_json_text(device@, uptime_ms, value@, unit@),
{
    let mut s = String::from_str("{\"device\":\"");
    s.append(device);
    s.append("\",\"uptime_ms\":");
    push_decimal(&mut s, uptime_ms);
    s.append(",\"value\":");
    s.append(value);
    if unit.is_empty() {
        s.append("}");
    } else {
        s.append(",\"unit\":\"");
        s.append(unit);
        s.append("\"}");
    }
    s
}

/// What a publication stands for: topic, QoS, retain flag and payload text.
pub struct Message {
    pub topic: Seq<char>,
    pub qos: QoS,
    pub retain: bool,
    pub payload: Seq<char>,
}

/// One MQTT publication, ready to hand to the client.
pub struct Publication {
    pub topic: String,
    pub qos: QoS,
    pub retain: bool,
    pub payload: String,
}

impl View for Publication {
    type V = Message;

    open spec fn view(&self) -> Message {
        Message { topic: self.topic@, qos: self.qos, retain: self.retain, payload: self.payload@ }
    }
}

/// The options a node connects with: client id, the optional credentials
/// (absent where empty) and the last will on the status topic.
pub struct ClientConfig {
    pub client_id: String,
    pub username: Option<String>,
    pub password: Option<String>,
    pub last_will: Publication,
}

/// `None` for an empty credential, else the credential itself.
pub open spec fn optional_credential(s: Seq<char>) -> Option<Seq<char>> {
    if s.len() == 0 {
        None
    } else {
        Some(s)
    }
}

/// The view of an optional credential.
pub open spec fn credential_view(c: Option<String>) -> Option<Seq<char>> {
    match c {
        Some(s) => Some(s@),
        None => None,
    }
}

fn credential(s: &String) -> (res: Option<String>)
    ensures
        credential_view(res) == optional_credential(s@),
{
    if s.as_str().is_empty() {
        None
    } else {
        Some(s.clone())
    }
}

/// A node's identity on the broker: its device id and its topic set.
pub struct Node {
    device: String,
    topics: Topics,
}

impl Node {
    /// The device id that readings echo.
    pub closed spec fn device_id(self) -> Seq<char> {
        self.device@
    }

    /// The topic root `<system>/<node_id>`.
    pub closed spec fn base(self) -> Seq<char> {
        self.topics@
    }

    /// The last will: a retained `offline` on the status topic, at least once.
    pub open spec fn spec_last_will(self) -> Message {
        Message {
            topic: status_topic(self.base()),
            qos: QoS::AtLeastOnce,
            retain: true,
            payload: "offline"@,
        }
    }

    /// The retained `online` on the status topic, at least once.
    pub open spec fn spec_status_online(self) -> Message {
        Message {
            topic: status_topic(self.base()),
            qos: QoS::AtLeastOnce,
            retain: true,
            payload: "online"@,
        }
    }

    /// One reading of `metric`, not retained, at [`READING_QOS`].
    pub open spec fn spec_metric(self, metric: Seq<char>, value: Seq<char>, unit: Seq<char>, uptime_ms: u64) -> Message {
        Message {
            topic: metric_topic(self.base(), metric),
            qos: READING_QOS,
            retain: false,
            payload: reading_json_text(self.device_id(), uptime_ms, value, unit),
        }
    }

    /// The identity of node `node_id` under the topic root `system`.
    pub fn new(system: &str, node_id: &str) -> (res: Self)
        ensures
            res.device_id() == node_id@,
            res.base() == topic_base(system@, node_id@),
    {
        Node { device: String::from_str(node_id), topics: Topics::new(system, node_id) }
    }

    /// The options to connect with: the client id and the non-empty
    /// credentials of `settings`, and a last will of `offline` on
    /// `<system>/<node_id>/status`.
    pub fn client_config(&self, settings: &MqttSettings) -> (res: ClientConfig)
        ensures
            res.client_id@ == settings.client_id@,
            credential_view(res.username) == optional_credential(settings.username@),
            credential_view(res.password) == optional_credential(settings.password@),
            res.username is None <==> settings.username@.len() == 0,
            res.password is None <==> settings.password@.len() == 0,
            res.username matches Some(u) ==> u@ == settings.username@,
            res.password matches Some(p) ==> p@ == settings.password@,
            res.last_will@ == self.spec_last_will(),
    {
        let topic = self.topics.status();
        ClientConfig {
            client_id: settings.client_id.clone(),
            username: credential(&settings.username),
            password: credential(&settings.password),
            last_will: Publication {
                topic,
                qos: QoS::AtLeastOnce,
                retain: true,
                payload: String::from_str("offline"),
            },
        }
    }

    /// The retained `online` to publish to the status topic once connected.
    pub fn status_online_message(&self) -> (res: Publication)
        ensures
            res@ == self.spec_status_online(),
    {
        Publication {
            topic: self.topics.status(),
            qos: QoS::AtLeastOnce,
            retain: true,
            payload: String::from_str("online"),
        }
    }

    /// One metric reading as JSON for `<system>/<node>/<metric>`.
    pub fn metric_message(&self, metric: &str, value: &str, unit: &str, uptime_ms: u64) -> (res: Publication)
        ensures
            res@ == self.spec_metric(metric@, value@, unit@, uptime_ms),
    {
        Publication {
            topic: self.topics.metric(metric),
            qos: READING_QOS,
            retain: false,
            payload: reading_json(self.device.as_str(), uptime_ms, value, unit),
        }
    }
}

/// The status topic is the topic of the metric named `status`.
pub proof fn lemma_status_topic_is_metric_status(base: Seq<char>)
    ensures
        status_topic(base) == metric_topic(base, "status"@),
{
    reveal_strlit("/status");
    reveal_strlit("/");
    reveal_strlit("status");
    assert(base + "/"@ + "status"@ =~= base + "/status"@);
}

/// A reading lands on the status topic exactly when its metric is named
/// `status`: every other metric has a topic of its own.
pub proof fn lemma_metric_topic_is_status_iff(base: Seq<char>, metric: Seq<char>)
    ensures
        metric_topic(base, metric) == status_topic(base) <==> metric == "status"@,
{
    lemma_status_topic_is_metric_status(base);
    let prefix = base + "/"@;
    if metric_topic(base, metric) == metric_topic(base, "status"@) {
        let t = prefix + metric;
        assert(metric =~= t.subrange(prefix.len() as int, t.len() as int));
        let u = prefix + "status"@;
        assert("status"@ =~= u.subrange(prefix.len() as int, u.len() as int));
    }
}

/// Distinct metrics of one node have distinct topics.
pub proof fn lemma_metric_topics_distinct(base: Seq<char>, m1: Seq<char>, m2: Seq<char>)
    requires
        m1 != m2,
    ensures
        metric_topic(base, m1) != metric_topic(base, m2),
{
    let prefix = base + "/"@;
    if metric_topic(base, m1) == metric_topic(base, m2) {
        let t1 = prefix + m1;
        let t2 = prefix + m2;
        assert(m1 =~= t1.subrange(prefix.len() as int, t1.len() as int));
        assert(m2 =~= t2.subrange(prefix.len() as int, t2.len() as int));
    }
}

/// The last will and the `online` announcement go to the same status topic,
/// both retained and at least once, so the retained status always ends as
/// the later of the two; they differ in their payload.
pub proof fn lemma_will_and_online_share_status(node: Node)
    ensures
        node.spec_last_will().topic == node.spec_status_online().topic,
        node.spec_last_will().retain && node.spec_status_online().retain,
        node.spec_last_will().qos == QoS::AtLeastOnce,
        node.spec_status_online().qos == QoS::AtLeastOnce,
        node.spec_last_will().payload != node.spec_status_online().payload,
{
    reveal_strlit("offline");
    reveal_strlit("online");
    assert(node.spec_last_will().payload.len() != node.spec_status_online().payload.len());
}

/// A node's readings are published under its own topic root, carry its
/// device id, and are not retained.
pub proof fn lemma_reading_belongs_to_node(system: Seq<char>, node_id: Seq<char>, node: Node,
    metric: Seq<char>, value: Seq<char>, unit: Seq<char>, uptime_ms: u64)
    requires
        node.device_id() == node_id,
        node.base() == topic_base(system, node_id),
    ensures
        node.spec_metric(metric, value, unit, uptime_ms).topic
            == system + "/"@ + node_id + "/"@ + metric,
        node.spec_metric(metric, value, unit, uptime_ms).payload
            == reading_json_text(node_id, uptime_ms, value, unit),
        !node.spec_metric(metric, value, unit, uptime_ms).retain,
        node.spec_metric(metric, value, unit, uptime_ms).qos == READING_QOS,
{
}

/// An empty credential is left out; any other is kept whole.
pub proof fn lemma_credential_kept_whole(s: Seq<char>)
    ensures
        s.len() == 0 ==> optional_credential(s) is None,
        s.len() > 0 ==> optional_credential(s) == Some(s),
        optional_credential(s) matches Some(c) ==> c == s,
{
}

/// A reading without a unit: device, the decimal uptime and the value, in
/// that order, and nothing else.
pub proof fn lemma_reading_without_unit(device: Seq<char>, uptime_ms: u64, value: Seq<char>)
    ensures
        reading_json_text(device, uptime_ms, value, Seq::<char>::empty())
            == "{\"device\":\""@ + device + "\",\"uptime_ms\":"@ + decimal(uptime_ms as nat)
            + ",\"value\":"@ + value + "}"@,
{
}

/// A reading with a unit is the reading without one, with the unit member
/// added before the closing brace: every other member is the same.
pub proof fn lemma_reading_unit_member(device: Seq<char>, uptime_ms: u64, value: Seq<char>, unit: Seq<char>)
    requires
        unit.len() > 0,
    ensures
        reading_json_text(device, uptime_ms, value, unit)
            == reading_json_text(device, uptime_ms, value, Seq::<char>::empty()).drop_last()
            + ",\"unit\":\""@ + unit + "\"}"@,
{
    reveal_strlit("}");
    let head = "{\"device\":\""@ + device + "\",\"uptime_ms\":"@ + decimal(uptime_ms as nat)
        + ",\"value\":"@ + value;
    assert((head + "}"@).drop_last() =~= head);
}

/// The uptime member of every reading, with or without a unit, is the
/// decimal rendering of the uptime itself, read back as that number.
pub proof fn lemma_reading_uptime(device: Seq<char>, uptime_ms: u64, value: Seq<char>, unit: Seq<char>)
    ensures
        reading_json_text(device, uptime_ms, value, unit)
            == "{\"device\":\""@ + device + "\",\"uptime_ms\":"@ + decimal(uptime_ms as nat)
            + ",\"value\":"@ + value + (if unit.len() == 0 { "}"@ } else { ",\"unit\":\""@ + unit + "\"}"@ }),
        decimal_value(decimal(uptime_ms as nat)) == uptime_ms,
{
    lemma_decimal_value(uptime_ms as nat);
}

} // verus!
