//! The server's settings: built-in defaults, or the values of a configuration
//! file.
use vstd::prelude::*;

verus! {

/// The host the server listens on.
pub fn listen_host() -> (s: &'static str)
    ensures
        s@ == "0.0.0.0"@,
{
    "0.0.0.0"
}

/// The port the server listens on.
pub const LISTEN_PORT: u16 = 2222;

/// The contents of a configuration file.
#[derive(Debug, PartialEq, Eq)]
pub struct ConfigFile {
    pub inactivity_timeout: u64,
    pub auth_rejection_time: u64,
    pub auth_rejection_time_initial: u64,
    pub keepalive_interval: u64,
    pub keepalive_max: usize,
    pub keys_path: Vec<String>,
}

/// The settings the SSH server runs with; times are in seconds.
#[derive(Debug, PartialEq, Eq)]
pub struct ServerSettings {
    pub inactivity_timeout_secs: u64,
    pub auth_rejection_time_secs: u64,
    pub auth_rejection_time_initial_secs: u64,
    pub keepalive_interval_secs: u64,
    pub keepalive_max: usize,
    /// The OpenSSH private key files to load, in order.
    pub key_paths: Vec<String>,
}

/// The built-in defaults: an hour of inactivity, three seconds after a rejected
/// authentication (none after the first), a keepalive every thirty seconds,
/// three unanswered keepalives, and the key `$HOME/.ssh/id_ed25519`.
pub open spec fn default_settings_hold(s: ServerSettings) -> bool {
    &&& s.inactivity_timeout_secs == 3600
    &&& s.auth_rejection_time_secs == 3
    &&& s.auth_rejection_time_initial_secs == 0
    &&& s.keepalive_interval_secs == 30
    &&& s.keepalive_max == 3
    &&& s.key_paths.deep_view() == seq!["$HOME/.ssh/id_ed25519"@]
}

/// The file's values, taken over one for one.
pub open spec fn settings_from_file(s: ServerSettings, c: ConfigFile) -> bool {
    &&& s.inactivity_timeout_secs == c.inactivity_timeout
    &&& s.auth_rejection_time_secs == c.auth_rejection_time
    &&& s.auth_rejection_time_initial_secs == c.auth_rejection_time_initial
    &&& s.keepalive_interval_secs == c.keepalive_interval
    &&& s.keepalive_max == c.keepalive_max
    &&& s.key_paths.deep_view() == c.keys_path.deep_view()
}

/// The settings for an optional configuration file.
pub fn server_settings(config: Option<ConfigFile>) -> (s: ServerSettings)
    ensures
        match config {
            None => default_settings_hold(s),
            Some(c) => settings_from_file(s, c),
        },
{
    match config {
        None => {
            let mut key_paths: Vec<String> = Vec::new();
            key_paths.push("$HOME/.ssh/id_ed25519".to_owned());
            assert(key_paths.deep_view() =~= seq!["$HOME/.ssh/id_ed25519"@]);
            ServerSettings {
                inactivity_timeout_secs: 3600,
                auth_rejection_time_secs: 3,
                auth_rejection_time_initial_secs: 0,
                keepalive_interval_secs: 30,
                keepalive_max: 3,
                key_paths,
            }
        },
        Some(c) => ServerSettings {
            inactivity_timeout_secs: c.inactivity_timeout,
            auth_rejection_time_secs: c.auth_rejection_time,
            auth_rejection_time_initial_secs: c.auth_rejection_time_initial,
            keepalive_interval_secs: c.keepalive_interval,
            keepalive_max: c.keepalive_max,
            key_paths: c.keys_path,
        },
    }
}

/// Without a file: an hour of inactivity, 3 s after a rejection and none after
/// the first, keepalives every 30 s, at most 3 unanswered, and the one key
/// `$HOME/.ssh/id_ed25519`.
pub proof fn lemma_defaults(s: ServerSettings)
    requires
        default_settings_hold(s),
    ensures
        s.inactivity_timeout_secs == 3600,
        s.auth_rejection_time_secs == 3,
        s.auth_rejection_time_initial_secs == 0,
        s.keepalive_interval_secs == 30,
        s.keepalive_max == 3,
        s.key_paths@.len() == 1,
        s.key_paths@[0]@ == "$HOME/.ssh/id_ed25519"@,
{
    assert(s.key_paths.deep_view().len() == s.key_paths@.len());
    assert(s.key_paths.deep_view()[0] == s.key_paths@[0]@);
}

/// With a file: every value and every key path, in order, is the file's.
pub proof fn lemma_file_values(s: ServerSettings, c: ConfigFile)
    requires
        settings_from_file(s, c),
    ensures
        s.inactivity_timeout_secs == c.inactivity_timeout,
        s.auth_rejection_time_secs == c.auth_rejection_time,
        s.auth_rejection_time_initial_secs == c.auth_rejection_time_initial,
        s.keepalive_interval_secs == c.keepalive_interval,
        s.keepalive_max == c.keepalive_max,
        s.key_paths@.len() == c.keys_path@.len(),
        forall|i: int| 0 <= i < s.key_paths@.len() ==> s.key_paths@[i]@ == #[trigger] c.keys_path@[i]@,
{
    assert(s.key_paths.deep_view().len() == s.key_paths@.len());
    assert(c.keys_path.deep_view().len() == c.keys_path@.len());
    assert forall|i: int| 0 <= i < s.key_paths@.len() implies s.key_paths@[i]@ == #[trigger] c.keys_path@[i]@ by {
        assert(s.key_paths.deep_view()[i] == c.keys_path.deep_view()[i]);
    }
}

} // verus!
