use pypr_client::errors::{
    error_exit_code, ClientError, ConnectionError, EnvironmentError, UsageError,
};
use pypr_client::request::prepare_request;

#[test]
fn prepared_request_holds_message_and_path() {
    let args = vec![b"toggle".to_vec(), b"term".to_vec()];
    let rd = Some(b"/run/user/1000".to_vec());
    let sig = Some(b"abc123".to_vec());
    let req = prepare_request(&args, &rd, &sig).unwrap();
    assert_eq!(req.message, b"toggle term\n".to_vec());
    assert_eq!(
        req.socket_path,
        b"/run/user/1000/hypr/abc123/.pyprland.sock".to_vec()
    );
}

#[test]
fn missing_command_is_reported_before_the_environment() {
    // Even with an unusable environment, an empty invocation is a usage error.
    let args: Vec<Vec<u8>> = Vec::new();
    let r = prepare_request(&args, &None, &None);
    assert!(matches!(
        r,
        Err(ClientError::Usage(UsageError::NoCommand))
    ));
}

#[test]
fn unset_environment_prevents_any_connection() {
    let args = vec![b"reload".to_vec()];
    let r = prepare_request(&args, &None, &Some(b"abc123".to_vec()));
    assert!(matches!(
        r,
        Err(ClientError::Environment(EnvironmentError::MissingVariable))
    ));
}

#[test]
fn oversized_message_never_reaches_resolution() {
    let args = vec![vec![b'a'; 2000]];
    let rd = Some(b"/run/user/1000".to_vec());
    let sig = Some(b"abc123".to_vec());
    let r = prepare_request(&args, &rd, &sig);
    assert!(matches!(
        r,
        Err(ClientError::Usage(UsageError::MessageTooLong))
    ));
}

#[test]
fn usage_errors_exit_1() {
    assert_eq!(
        error_exit_code(&ClientError::Usage(UsageError::NoCommand)),
        1
    );
    assert_eq!(
        error_exit_code(&ClientError::Usage(UsageError::MessageTooLong)),
        1
    );
}

#[test]
fn environment_errors_exit_2() {
    assert_eq!(
        error_exit_code(&ClientError::Environment(
            EnvironmentError::MissingVariable
        )),
        2
    );
    assert_eq!(
        error_exit_code(&ClientError::Environment(EnvironmentError::PathTooLong)),
        2
    );
}

#[test]
fn connection_errors_exit_3() {
    assert_eq!(
        error_exit_code(&ClientError::Connection(ConnectionError::ConnectFailed)),
        3
    );
    assert_eq!(
        error_exit_code(&ClientError::Connection(ConnectionError::SendFailed)),
        3
    );
    assert_eq!(
        error_exit_code(&ClientError::Connection(ConnectionError::ShutdownFailed)),
        3
    );
    assert_eq!(
        error_exit_code(&ClientError::Connection(ConnectionError::ReadFailed)),
        3
    );
}
