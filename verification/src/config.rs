//! Service configuration, resolved from the values of its environment variables.

use vstd::prelude::*;
use crate::text::{decimal_text, decimal_value, digit_char, is_decimal_digit, parse_u16, parsed_u16};

verus! {

/// Default HTTP port of the API server.
pub const DEFAULT_SERVER_PORT: u16 = 8080;

/// Default port of the Prometheus metrics endpoint.
pub const DEFAULT_METRICS_PORT: u16 = 9090;

/// Default port of the MQTT broker.
pub const DEFAULT_MQTT_PORT: u16 = 1883;

/// The raw values of the environment variables the service reads, `None`
/// where a variable is unset or not valid Unicode.
#[derive(Debug, Clone)]
pub struct EnvValues {
    pub server_port: Option<String>,
    pub metrics_port: Option<String>,
    pub clickhouse_url: Option<String>,
    pub clickhouse_user: Option<String>,
    pub clickhouse_password: Option<String>,
    pub clickhouse_database: Option<String>,
    pub mqtt_host: Option<String>,
    pub mqtt_port: Option<String>,
    pub mqtt_client_id: Option<String>,
    pub mqtt_topic: Option<String>,
    pub mqtt_username: Option<String>,
    pub mqtt_password: Option<String>,
}

/// The service configuration.
#[derive(Debug, Clone)]
pub struct Config {
    pub server_port: u16,
    pub metrics_port: u16,
    pub clickhouse_url: String,
    pub clickhouse_user: String,
    pub clickhouse_password: String,
    pub clickhouse_database: String,
    pub mqtt_host: String,
    pub mqtt_port: u16,
    pub mqtt_client_id: String,
    pub mqtt_topic: String,
    pub mqtt_username: Option<String>,
    pub mqtt_password: Option<String>,
}

/// A port taken from a variable: its value when it parses as a port number,
/// the default otherwise.
pub open spec fn port_setting(value: Option<String>, default: u16) -> u16 {
    match value {
        Some(s) => match parsed_u16(s@) {
            Some(port) => port,
            None => default,
        },
        None => default,
    }
}

/// A text taken from a variable: its value when set, the default otherwise.
pub open spec fn text_setting(value: Option<String>, default: Seq<char>) -> Seq<char> {
    match value {
        Some(s) => s@,
        None => default,
    }
}

/// A port variable's value is used exactly when it parses as a port number,
/// whatever that number is; an unset variable or one that does not parse
/// gives the default.
pub proof fn lemma_port_follows_parse(value: Option<String>, default: u16)
    ensures
        value.is_none() ==> port_setting(value, default) == default,
        forall|s: String, port: u16| value == Some(s) && parsed_u16(s@) == Some(port)
            ==> port_setting(value, default) == port,
        forall|s: String| value == Some(s) && parsed_u16(s@).is_none()
            ==> port_setting(value, default) == default,
{
}

/// The decimal writing of a number is all digits, starts with a digit, and
/// reads back as that number.
pub proof fn lemma_decimal_text_reads_back(n: nat)
    ensures
        decimal_text(n).len() > 0,
        forall|i: int| 0 <= i < decimal_text(n).len() ==> is_decimal_digit(#[trigger] decimal_text(n)[i]),
        decimal_value(decimal_text(n)) == n,
    decreases n,
{
    let t = decimal_text(n);
    if n < 10 {
        assert(t.drop_last() =~= Seq::<char>::empty());
        assert(digit_char(n as int) as int == '0' as int + n);
        assert(t.last() == digit_char(n as int));
        assert(decimal_value(t) == decimal_value(t.drop_last()) * 10 + n);
    } else {
        lemma_decimal_text_reads_back(n / 10);
        let prefix = decimal_text(n / 10);
        let d = (n % 10) as int;
        assert(t == prefix.push(digit_char(d)));
        assert(t.drop_last() =~= prefix);
        assert(digit_char(d) as int == '0' as int + d);
        assert(t.last() == digit_char(d));
        assert(decimal_value(t) == decimal_value(prefix) * 10 + d);
        assert((n / 10) * 10 + n % 10 == n);
        assert forall|i: int| 0 <= i < t.len() implies is_decimal_digit(#[trigger] t[i]) by {
            if i < prefix.len() {
                assert(t[i] == prefix[i]);
            }
        }
    }
}

/// Every port number, written in decimal, parses back to itself: a port the
/// configuration prints is a port it reads.
pub proof fn lemma_port_text_round_trip(port: u16)
    ensures
        parsed_u16(decimal_text(port as nat)) == Some(port),
{
    lemma_decimal_text_reads_back(port as nat);
    let t = decimal_text(port as nat);
    assert(is_decimal_digit(t[0]));
}

fn port_or(value: &Option<String>, default: u16) -> (port: u16)
    ensures
        port == port_setting(*value, default),
{
    match value {
        Some(s) => match parse_u16(s.as_str()) {
            Some(port) => port,
            None => default,
        },
        None => default,
    }
}

fn text_or(value: &Option<String>, default: &str) -> (text: String)
    ensures
        text@ == text_setting(*value, default@),
{
    match value {
        Some(s) => s.clone(),
        None => default.to_string(),
    }
}

impl Config {
    /// The configuration given the values of the service's environment
    /// variables: ports that are unset or do not parse fall back to their
    /// defaults, unset texts to theirs, and the optional MQTT credentials are
    /// taken as they are.
    pub fn from_env_values(values: &EnvValues) -> (config: Config)
        ensures
            config.server_port == port_setting(values.server_port, DEFAULT_SERVER_PORT),
            config.metrics_port == port_setting(values.metrics_port, DEFAULT_METRICS_PORT),
            config.clickhouse_url@ == text_setting(values.clickhouse_url, "http://localhost:8123"@),
            config.clickhouse_user@ == text_setting(values.clickhouse_user, "default"@),
            config.clickhouse_password@ == text_setting(values.clickhouse_password, ""@),
            config.clickhouse_database@ == text_setting(values.clickhouse_database, "bell_casting"@),
            config.mqtt_host@ == text_setting(values.mqtt_host, "localhost"@),
            config.mqtt_port == port_setting(values.mqtt_port, DEFAULT_MQTT_PORT),
            config.mqtt_client_id@ == text_setting(values.mqtt_client_id, "bell_casting_backend"@),
            config.mqtt_topic@ == text_setting(values.mqtt_topic, "bell_casting/alerts"@),
            config.mqtt_username == values.mqtt_username,
            config.mqtt_password == values.mqtt_password,
    {
        Config {
            server_port: port_or(&values.server_port, DEFAULT_SERVER_PORT),
            metrics_port: port_or(&values.metrics_port, DEFAULT_METRICS_PORT),
            clickhouse_url: text_or(&values.clickhouse_url, "http://localhost:8123"),
            clickhouse_user: text_or(&values.clickhouse_user, "default"),
            clickhouse_password: text_or(&values.clickhouse_password, ""),
            clickhouse_database: text_or(&values.clickhouse_database, "bell_casting"),
            mqtt_host: text_or(&values.mqtt_host, "localhost"),
            mqtt_port: port_or(&values.mqtt_port, DEFAULT_MQTT_PORT),
            mqtt_client_id: text_or(&values.mqtt_client_id, "bell_casting_backend"),
            mqtt_topic: text_or(&values.mqtt_topic, "bell_casting/alerts"),
            mqtt_username: values.mqtt_username.clone(),
            mqtt_password: values.mqtt_password.clone(),
        }
    }
}

impl Config {
    /// The MQTT credentials to log in with: both the user name and the
    /// password when both are configured, none otherwise.
    pub fn mqtt_credentials(&self) -> (credentials: Option<(String, String)>)
        ensures
            match (self.mqtt_username, self.mqtt_password) {
                (Some(user), Some(password)) => credentials == Some((user, password)),
                _ => credentials.is_none(),
            },
    {
        match (&self.mqtt_username, &self.mqtt_password) {
            (Some(user), Some(password)) => Some((user.clone(), password.clone())),
            _ => None,
        }
    }
}

} // verus!
