use git_ssh_server::log::{client_connected_line, session_error_line};

#[test]
fn client_connected_line_text() {
    assert_eq!(
        client_connected_line("2024-01-01 10:00:00 +00:00", "10.0.0.1:5555"),
        "2024-01-01 10:00:00 +00:00: [info] Client Connected from 10.0.0.1:5555\n"
    );
}

#[test]
fn session_error_line_text() {
    assert_eq!(
        session_error_line("T", "Request denied"),
        "T: [error] Session Error Request denied\n"
    );
}
