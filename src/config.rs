use vstd::prelude::*;
use crate::error::ConfigError;

verus! {

/// The text captured by group 1 of the leftmost match of a regular
/// expression in a text (empty where the group took no part in the match),
/// or none where the expression does not compile or nothing matches.
pub uninterp spec fn regex_group_one(pattern: Seq<char>, text: Seq<char>) -> Option<Seq<char>>;

/// Relies on regex::Regex::new and Regex::captures: compiles `pattern` and
/// returns group 1 of its leftmost match in `text`.
#[verifier::external_body]
fn first_group(pattern: &str, text: &str) -> (r: Option<String>)
    ensures
        match r {
            Some(s) => regex_group_one(pattern@, text@) == Some(s@),
            None => regex_group_one(pattern@, text@) is None,
        },
{
    match regex::Regex::new(pattern) {
        Ok(re) => match re.captures(text) {
            Some(caps) => match caps.get(1) {
                Some(m) => Some(m.as_str().to_string()),
                None => Some(String::new()),
            },
            None => None,
        },
        Err(_) => None,
    }
}

/// The host-name field: its key matched in any case, its value up to the
/// next `;`.
pub open spec fn host_name_pattern() -> Seq<char> {
    "(?i)HostName=([^;]*)"@
}

pub open spec fn device_id_pattern() -> Seq<char> {
    "(?i)DeviceId=([^;]*)"@
}

pub open spec fn shared_access_key_pattern() -> Seq<char> {
    "(?i)SharedAccessKey=([^;]*)"@
}

/// The three fields of a device connection string.
#[derive(Clone, Debug)]
pub struct ConnectionFields {
    pub host_name: String,
    pub device_id: String,
    pub shared_access_key: String,
}

/// What a connection string parses into: the three fields where each key
/// occurs, else none.
pub open spec fn parsed_fields(text: Seq<char>) -> Option<(Seq<char>, Seq<char>, Seq<char>)> {
    match (
        regex_group_one(host_name_pattern(), text),
        regex_group_one(device_id_pattern(), text),
        regex_group_one(shared_access_key_pattern(), text),
    ) {
        (Some(h), Some(d), Some(k)) => Some((h, d, k)),
        _ => None,
    }
}

pub open spec fn fields_match(
    r: Result<ConnectionFields, ConfigError>,
    text: Seq<char>,
) -> bool {
    match parsed_fields(text) {
        Some((h, d, k)) => r is Ok && r->Ok_0.host_name@ == h && r->Ok_0.device_id@ == d
            && r->Ok_0.shared_access_key@ == k,
        None => r == Err::<ConnectionFields, ConfigError>(ConfigError::MalformedConnectionString),
    }
}

/// Splits a connection string of `;`-separated `HostName=`, `DeviceId=` and
/// `SharedAccessKey=` fields (keys in any case) into its three values.
pub fn parse_connection_string(text: &str) -> (r: Result<ConnectionFields, ConfigError>)
    ensures
        fields_match(r, text@),
{
    let host = first_group("(?i)HostName=([^;]*)", text);
    let device = first_group("(?i)DeviceId=([^;]*)", text);
    let key = first_group("(?i)SharedAccessKey=([^;]*)", text);
    match (host, device, key) {
        (Some(host_name), Some(device_id), Some(shared_access_key)) => Ok(
            ConnectionFields { host_name, device_id, shared_access_key },
        ),
        _ => Err(ConfigError::MalformedConnectionString),
    }
}

/// The startup checks, in order: the connection string must parse, then
/// the trust-anchor file must exist. Both come before any network attempt.
pub fn startup_check(text: &str, trust_anchor_exists: bool) -> (r: Result<
    ConnectionFields,
    ConfigError,
>)
    ensures
        parsed_fields(text@) is None ==> r == Err::<ConnectionFields, ConfigError>(
            ConfigError::MalformedConnectionString,
        ),
        parsed_fields(text@) is Some && !trust_anchor_exists ==> r == Err::<
            ConnectionFields,
            ConfigError,
        >(ConfigError::MissingTrustAnchor),
        parsed_fields(text@) is Some && trust_anchor_exists ==> fields_match(r, text@),
{
    match parse_connection_string(text) {
        Ok(fields) => {
            if trust_anchor_exists {
                Ok(fields)
            } else {
                Err(ConfigError::MissingTrustAnchor)
            }
        },
        Err(e) => Err(e),
    }
}

} // verus!
