use git_ssh_server::settings::{listen_host, server_settings, ConfigFile, ServerSettings, LISTEN_PORT};

#[test]
fn defaults_without_a_configuration_file() {
    assert_eq!(
        server_settings(None),
        ServerSettings {
            inactivity_timeout_secs: 3600,
            auth_rejection_time_secs: 3,
            auth_rejection_time_initial_secs: 0,
            keepalive_interval_secs: 30,
            keepalive_max: 3,
            key_paths: vec!["$HOME/.ssh/id_ed25519".to_string()],
        }
    );
}

#[test]
fn configuration_file_values_are_taken_over() {
    let c = ConfigFile {
        inactivity_timeout: 10,
        auth_rejection_time: 1,
        auth_rejection_time_initial: 2,
        keepalive_interval: 5,
        keepalive_max: 7,
        keys_path: vec!["/etc/ssh/a".to_string(), "/etc/ssh/b".to_string()],
    };
    assert_eq!(
        server_settings(Some(c)),
        ServerSettings {
            inactivity_timeout_secs: 10,
            auth_rejection_time_secs: 1,
            auth_rejection_time_initial_secs: 2,
            keepalive_interval_secs: 5,
            keepalive_max: 7,
            key_paths: vec!["/etc/ssh/a".to_string(), "/etc/ssh/b".to_string()],
        }
    );
}

#[test]
fn listens_on_all_interfaces_port_2222() {
    assert_eq!(listen_host(), "0.0.0.0");
    assert_eq!(LISTEN_PORT, 2222);
}
