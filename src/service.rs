//! The messaging service as the API sees it: its reported status, and which
//! broker-dependent actions it allows.
use vstd::prelude::*;
use vstd::string::*;
use crate::config::Config;
use crate::error::ApiError;
use crate::text::{decimal, opt_string, push_decimal_u64};

verus! {

/// The messaging status reported to API callers.
#[derive(Debug)]
pub struct MqttStatus {
    /// `disabled`, `connected` or `disconnected`.
    pub status: String,
    /// `host:port` of the broker; absent when messaging is disabled.
    pub broker: Option<String>,
    /// The topic prefix; absent when messaging is disabled.
    pub topic_prefix: Option<String>,
}

/// The status word for the given settings and connection flag.
pub open spec fn status_word(disabled: bool, connected: bool) -> Seq<char> {
    if disabled {
        "disabled"@
    } else if connected {
        "connected"@
    } else {
        "disconnected"@
    }
}

/// The broker address as reported.
pub open spec fn broker_address(host: Seq<char>, port: u16) -> Seq<char> {
    host + ":"@ + decimal(port as int)
}

/// The broker address as reported: absent when messaging is disabled.
pub open spec fn reported_broker(disabled: bool, host: Seq<char>, port: u16) -> Option<Seq<char>> {
    if disabled { None } else { Some(broker_address(host, port)) }
}

/// The topic prefix as reported: absent when messaging is disabled.
pub open spec fn reported_prefix(disabled: bool, prefix: Seq<char>) -> Option<Seq<char>> {
    if disabled { None } else { Some(prefix) }
}

impl MqttStatus {
    /// The status of a messaging service with the given settings.
    pub fn describe(disabled: bool, connected: bool, host: &str, port: u16, prefix: &str) -> (r: MqttStatus)
        ensures
            r.status@ == status_word(disabled, connected),
            opt_string(r.broker) == reported_broker(disabled, host@, port),
            opt_string(r.topic_prefix) == reported_prefix(disabled, prefix@),
    {
        if disabled {
            return MqttStatus { status: String::from_str("disabled"), broker: None, topic_prefix: None };
        }
        let status = if connected { String::from_str("connected") } else { String::from_str("disconnected") };
        let mut broker = String::from_str(host);
        broker.append(":");
        push_decimal_u64(&mut broker, port as u64);
        assert(broker@ =~= broker_address(host@, port));
        MqttStatus { status, broker: Some(broker), topic_prefix: Some(String::from_str(prefix)) }
    }
}

/// Whether an on-demand repair may run: messaging enabled, connected, and a
/// client at hand. The refusals name what is missing.
pub fn repair_gate(disabled: bool, connected: bool, has_client: bool) -> (r: Result<(), ApiError>)
    ensures
        disabled ==> (r matches Err(ApiError::Conflict(m)) && m@ == "MQTT is disabled"@),
        !disabled && !connected ==> (r matches Err(ApiError::ServiceUnavailable(m)) && m@ == "MQTT is not connected"@),
        !disabled && connected && !has_client ==> (r matches Err(ApiError::ServiceUnavailable(m)) && m@ == "MQTT client unavailable"@),
        !disabled && connected && has_client ==> r is Ok,
{
    if disabled {
        return Err(ApiError::Conflict(String::from_str("MQTT is disabled")));
    }
    if !connected {
        return Err(ApiError::ServiceUnavailable(String::from_str("MQTT is not connected")));
    }
    if !has_client {
        return Err(ApiError::ServiceUnavailable(String::from_str("MQTT client unavailable")));
    }
    Ok(())
}

/// Whether a data restore is followed by a repair: only when the repair
/// gate would let it run.
pub fn repairs_after_restore(disabled: bool, connected: bool, has_client: bool) -> (r: bool)
    ensures
        r == (!disabled && connected && has_client),
{
    !disabled && connected && has_client
}

/// What the long-lived broker connection reports.
pub enum LinkEvent {
    /// The broker acknowledged the connection.
    ConnAck,
    /// The connection failed.
    Error,
    /// Anything else.
    Other,
}

/// The connection flag after an event of the long-lived connection: set by
/// an acknowledgement, cleared by an error, else unchanged.
pub fn flag_after(current: bool, event: LinkEvent) -> (r: bool)
    ensures
        r == match event {
            LinkEvent::ConnAck => true,
            LinkEvent::Error => false,
            LinkEvent::Other => current,
        },
{
    match event {
        LinkEvent::ConnAck => true,
        LinkEvent::Error => false,
        LinkEvent::Other => current,
    }
}

/// Whether settings ask for a broker client.
pub open spec fn client_wanted(config: Config) -> bool {
    !config.mqtt_disabled
}

/// Whether the background loop is started, given whether there is a client.
pub open spec fn checker_started(has_client: bool) -> bool {
    has_client
}

/// Whether the settings ask for a broker client at all.
pub fn wants_client(config: &Config) -> (r: bool)
    ensures
        r == client_wanted(*config),
{
    !config.mqtt_disabled
}

/// Whether the background loop is started: only when there is a client.
pub fn starts_checker(has_client: bool) -> (r: bool)
    ensures
        r == checker_started(has_client),
{
    has_client
}

/// With messaging disabled there is no client, hence no background loop,
/// and the status reads `disabled` with neither broker nor prefix.
pub proof fn lemma_disabled_messaging_is_absent(config: Config, connected: bool)
    requires
        config.mqtt_disabled,
    ensures
        !client_wanted(config),
        !checker_started(client_wanted(config)),
        status_word(config.mqtt_disabled, connected) == "disabled"@,
        reported_broker(config.mqtt_disabled, config.mqtt_host@, config.mqtt_port) is None,
        reported_prefix(config.mqtt_disabled, config.mqtt_topic_prefix@) is None,
{
}

} // verus!
