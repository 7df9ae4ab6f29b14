//! Runtime settings, read from named values that may be absent; an absent
//! or unreadable value falls back to its default.
use vstd::prelude::*;
use vstd::string::*;
use crate::text::{chars_of, opt_chars, parse_u16, str_eq, u16_literal};

verus! {

/// Runtime settings of the service.
#[derive(Debug, Clone)]
pub struct Config {
    pub port: u16,
    pub db_path: String,
    pub mqtt_host: String,
    pub mqtt_port: u16,
    pub mqtt_topic_prefix: String,
    pub log_level: String,
    pub mqtt_disabled: bool,
}

/// What parsing a text as a `bool` yields: only `true` and `false` read.
pub open spec fn bool_literal(s: Seq<char>) -> Option<bool> {
    if s == "true"@ {
        Some(true)
    } else if s == "false"@ {
        Some(false)
    } else {
        None
    }
}

/// A port setting: the value when it reads as a `u16`, else the default.
pub open spec fn port_setting(value: Option<Seq<char>>, default: u16) -> u16 {
    match value {
        Some(v) => match u16_literal(v) {
            Some(p) => p,
            None => default,
        },
        None => default,
    }
}

/// A flag setting: the value when it reads as a `bool`, else the default.
pub open spec fn flag_setting(value: Option<Seq<char>>, default: bool) -> bool {
    match value {
        Some(v) => match bool_literal(v) {
            Some(b) => b,
            None => default,
        },
        None => default,
    }
}

/// A text setting: the value when present, else the default.
pub open spec fn text_setting(value: Option<Seq<char>>, default: Seq<char>) -> Seq<char> {
    match value {
        Some(v) => v,
        None => default,
    }
}

/// Reads a port setting.
pub fn port_or(value: Option<&str>, default: u16) -> (r: u16)
    ensures
        r == port_setting(opt_chars(value), default),
{
    match value {
        Some(v) => {
            let cs = chars_of(v);
            match parse_u16(cs.as_slice()) {
                Some(p) => p,
                None => default,
            }
        },
        None => default,
    }
}

/// Reads a flag setting.
pub fn flag_or(value: Option<&str>, default: bool) -> (r: bool)
    ensures
        r == flag_setting(opt_chars(value), default),
{
    match value {
        Some(v) => {
            if str_eq(v, "true") {
                true
            } else if str_eq(v, "false") {
                false
            } else {
                default
            }
        },
        None => default,
    }
}

/// Reads a text setting.
pub fn text_or(value: Option<&str>, default: &str) -> (r: String)
    ensures
        r@ == text_setting(opt_chars(value), default@),
{
    match value {
        Some(v) => String::from_str(v),
        None => String::from_str(default),
    }
}

impl Config {
    /// Settings from the values of `FLOWL_PORT`, `FLOWL_DB_PATH`,
    /// `FLOWL_MQTT_HOST`, `FLOWL_MQTT_PORT`, `FLOWL_MQTT_TOPIC_PREFIX`,
    /// `FLOWL_LOG_LEVEL` and `FLOWL_MQTT_DISABLED`, each absent when unset.
    pub fn from_values(
        port: Option<&str>,
        db_path: Option<&str>,
        mqtt_host: Option<&str>,
        mqtt_port: Option<&str>,
        mqtt_topic_prefix: Option<&str>,
        log_level: Option<&str>,
        mqtt_disabled: Option<&str>,
    ) -> (r: Config)
        ensures
            r.port == port_setting(opt_chars(port), 4100),
            r.db_path@ == text_setting(opt_chars(db_path), "/data/flowl.db"@),
            r.mqtt_host@ == text_setting(opt_chars(mqtt_host), "localhost"@),
            r.mqtt_port == port_setting(opt_chars(mqtt_port), 1883),
            r.mqtt_topic_prefix@ == text_setting(opt_chars(mqtt_topic_prefix), "flowl"@),
            r.log_level@ == text_setting(opt_chars(log_level), "info"@),
            r.mqtt_disabled == flag_setting(opt_chars(mqtt_disabled), false),
    {
        Config {
            port: port_or(port, 4100),
            db_path: text_or(db_path, "/data/flowl.db"),
            mqtt_host: text_or(mqtt_host, "localhost"),
            mqtt_port: port_or(mqtt_port, 1883),
            mqtt_topic_prefix: text_or(mqtt_topic_prefix, "flowl"),
            log_level: text_or(log_level, "info"),
            mqtt_disabled: flag_or(mqtt_disabled, false),
        }
    }
}

} // verus!
