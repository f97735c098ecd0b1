use fleet_manager::config::Host;
use fleet_manager::connector::{
    choose_auth, AuthMethod, ConnectError, ConnectRequest, Connector,
};
use fleet_manager::reply::Reply;

fn host(key_path: Option<&str>) -> Host {
    Host {
        name: "web1".to_string(),
        address: "10.0.0.1".to_string(),
        port: 2222,
        user: "deploy".to_string(),
        password: "secret".to_string(),
        key_path: key_path.map(|p| p.to_string()),
    }
}

fn connector_after(replies: Vec<Reply>) -> Connector {
    let mut connector = Connector::new(&host(None));
    for reply in replies {
        connector.handle(reply);
    }
    connector
}

#[test]
fn host_without_key_path_logs_in_with_password() {
    assert!(!host(None).uses_key());
    assert_eq!(
        choose_auth(&host(None)),
        AuthMethod::Password { user: "deploy".to_string(), password: "secret".to_string() }
    );
}

#[test]
fn host_with_empty_key_path_logs_in_with_password() {
    assert!(!host(Some("")).uses_key());
    assert_eq!(
        choose_auth(&host(Some(""))),
        AuthMethod::Password { user: "deploy".to_string(), password: "secret".to_string() }
    );
}

#[test]
fn host_with_key_path_logs_in_with_key() {
    assert!(host(Some("/home/deploy/.ssh/id_ed25519")).uses_key());
    assert_eq!(
        choose_auth(&host(Some("/home/deploy/.ssh/id_ed25519"))),
        AuthMethod::KeyFile {
            user: "deploy".to_string(),
            key_path: "/home/deploy/.ssh/id_ed25519".to_string(),
        }
    );
}

#[test]
fn key_login_does_not_depend_on_the_password() {
    let mut one = host(Some("/keys/a"));
    let mut other = host(Some("/keys/a"));
    one.password = "one".to_string();
    other.password = "other".to_string();
    assert_eq!(choose_auth(&one), choose_auth(&other));
}

#[test]
fn connector_asks_for_the_four_steps_in_order() {
    let mut connector = Connector::new(&host(Some("/keys/a")));
    assert_eq!(
        connector.request(),
        Some(ConnectRequest::OpenSocket { address: "10.0.0.1".to_string(), port: 2222 })
    );
    assert!(!connector.is_settled());
    connector.handle(Reply::Done);
    assert_eq!(connector.request(), Some(ConnectRequest::Handshake));
    connector.handle(Reply::Done);
    assert_eq!(
        connector.request(),
        Some(ConnectRequest::Authenticate(AuthMethod::KeyFile {
            user: "deploy".to_string(),
            key_path: "/keys/a".to_string(),
        }))
    );
    connector.handle(Reply::Done);
    assert_eq!(connector.request(), Some(ConnectRequest::ConfirmAuthenticated));
    assert_eq!(connector.result(), None);
    connector.handle(Reply::Authenticated(true));
    assert_eq!(connector.request(), None);
    assert!(connector.is_settled());
    assert!(connector.is_established());
    assert_eq!(connector.result(), Some(Ok(())));
}

#[test]
fn unreachable_host_is_a_connection_error() {
    let connector = connector_after(vec![Reply::Failed("network unreachable".to_string())]);
    assert_eq!(
        connector.result(),
        Some(Err(ConnectError::Connection("network unreachable".to_string())))
    );
    assert_eq!(connector.request(), None);
    assert!(!connector.is_established());
}

#[test]
fn failed_handshake_is_a_connection_error() {
    let connector =
        connector_after(vec![Reply::Done, Reply::Failed("banner exchange failed".to_string())]);
    assert_eq!(
        connector.result(),
        Some(Err(ConnectError::Connection("banner exchange failed".to_string())))
    );
}

#[test]
fn rejected_credentials_are_an_authentication_error() {
    let connector =
        connector_after(vec![Reply::Done, Reply::Done, Reply::Failed("denied".to_string())]);
    assert_eq!(
        connector.result(),
        Some(Err(ConnectError::Authentication("denied".to_string())))
    );
}

#[test]
fn unauthenticated_session_is_never_handed_out() {
    let connector =
        connector_after(vec![Reply::Done, Reply::Done, Reply::Done, Reply::Authenticated(false)]);
    assert_eq!(
        connector.result(),
        Some(Err(ConnectError::Authentication("session is not authenticated".to_string())))
    );
    assert!(!connector.is_established());
}

#[test]
fn login_must_be_confirmed_by_the_session() {
    let connector = connector_after(vec![Reply::Done, Reply::Done, Reply::Done, Reply::Done]);
    assert_eq!(
        connector.result(),
        Some(Err(ConnectError::Authentication("unexpected reply".to_string())))
    );
}

#[test]
fn reply_that_answers_no_step_fails_the_step() {
    let connector = connector_after(vec![Reply::Authenticated(true)]);
    assert_eq!(
        connector.result(),
        Some(Err(ConnectError::Connection("unexpected reply".to_string())))
    );
    let connector = connector_after(vec![Reply::Done, Reply::Output("hello".to_string())]);
    assert_eq!(
        connector.result(),
        Some(Err(ConnectError::Connection("unexpected reply".to_string())))
    );
    let connector = connector_after(vec![Reply::Done, Reply::Done, Reply::ExitStatus(0)]);
    assert_eq!(
        connector.result(),
        Some(Err(ConnectError::Authentication("unexpected reply".to_string())))
    );
}

#[test]
fn settled_connector_stays_as_it_is() {
    let mut connector = connector_after(vec![Reply::Failed("down".to_string())]);
    connector.handle(Reply::Done);
    connector.handle(Reply::Authenticated(true));
    assert_eq!(connector.result(), Some(Err(ConnectError::Connection("down".to_string()))));
    let mut connector =
        connector_after(vec![Reply::Done, Reply::Done, Reply::Done, Reply::Authenticated(true)]);
    connector.handle(Reply::Failed("late".to_string()));
    assert_eq!(connector.result(), Some(Ok(())));
}

#[test]
fn reply_gives_its_reason() {
    assert_eq!(Reply::Failed("why".to_string()).into_reason(), "why");
    assert_eq!(Reply::Authenticated(false).into_reason(), "session is not authenticated");
    assert_eq!(Reply::Authenticated(true).into_reason(), "unexpected reply");
    assert_eq!(Reply::Done.into_reason(), "unexpected reply");
    assert_eq!(Reply::Output("x".to_string()).into_reason(), "unexpected reply");
    assert_eq!(Reply::ExitStatus(3).into_reason(), "unexpected reply");
}

#[test]
fn cloned_host_equals_the_original() {
    let original = host(Some("/keys/a"));
    assert_eq!(original.clone(), original);
    let original = host(None);
    assert_eq!(original.clone(), original);
}
