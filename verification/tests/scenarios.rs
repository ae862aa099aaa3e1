use auth_core::auth::session::Session;
use auth_core::data::account::create::CreateAccount;
use auth_core::data::account::Account;
use auth_core::database::id::Id;
use auth_core::database::memory::SessionTable;
use auth_core::error::ApplicationError;
use auth_core::routes::auth::login;
use auth_core::routes::auth::totp::toggle;
use auth_core::routes::auth::totp::TotpToggleRequest;
use auth_core::routes::auth::LoginRequest;
use totp_rs::{Algorithm, TOTP};

fn sign_up(username: &str, password: &str) -> Account {
    let record = CreateAccount { username: username.to_owned(), password: password.to_owned() }
        .create()
        .unwrap();
    Account {
        id: Id::new(("account", username)),
        username: record.username,
        uuid: None,
        password: record.password,
        secret: record.secret,
        nonce: record.nonce,
        totp: false,
        locked: false,
        created_at: Default::default(),
    }
}

fn wait_for_room_in_step(totp: &TOTP) {
    while totp.ttl().unwrap() < 4 {
        std::hint::spin_loop();
    }
}

#[test]
fn a_session_runs_out_and_is_gone() {
    let mut sessions = SessionTable::new();
    let alice = sign_up("alice", "secretpw");

    let request = LoginRequest { username: "alice".to_owned(), password: "secretpw".to_owned(), token: None };
    let (session, commands) = login(Some(alice), &request).unwrap();
    for command in &commands {
        sessions.perform(command).unwrap();
    }
    assert_eq!(session.exp, session.iat + 3600);
    assert_eq!(sessions.len(), 1);

    let key = Session::from_id(session.id.to_string().as_str()).unwrap();
    let (checked, cleanup) = Session::is_session_valid_at(sessions.select(&key), session.iat + 3599);
    assert_eq!(checked.unwrap().id, session.id);
    assert!(cleanup.is_none());

    let (checked, cleanup) = Session::is_session_valid_at(sessions.select(&key), session.exp + 1);
    assert!(matches!(checked, Err(ApplicationError::Unauthorized)));
    sessions.perform(&cleanup.unwrap()).unwrap();
    assert!(sessions.select(&key).is_none());
    assert_eq!(sessions.len(), 0);
}

#[test]
fn one_time_passwords_switched_on_guard_the_next_login() {
    let mut sessions = SessionTable::new();
    let mut alice = sign_up("alice", "secretpw");
    alice.regenerate_secret("secretpw").unwrap();
    let secret = alice.read_secret("secretpw").unwrap();
    let totp = TOTP::new(Algorithm::SHA256, 6, 0, 30, secret.as_bytes().to_vec(), None, "".to_owned()).unwrap();

    wait_for_room_in_step(&totp);
    let switch = TotpToggleRequest { password: "secretpw".to_owned(), token: totp.generate_current().unwrap() };
    toggle(&mut alice, &switch).unwrap();
    assert!(alice.totp);

    let without = LoginRequest { username: "alice".to_owned(), password: "secretpw".to_owned(), token: None };
    assert!(matches!(login(Some(alice.clone()), &without), Err(ApplicationError::Forbidden(m)) if m == "TOTP is required"));

    wait_for_room_in_step(&totp);
    let with = LoginRequest {
        username: "alice".to_owned(),
        password: "secretpw".to_owned(),
        token: Some(totp.generate_current().unwrap()),
    };
    let (session, commands) = login(Some(alice), &with).unwrap();
    for command in &commands {
        sessions.perform(command).unwrap();
    }
    assert_eq!(sessions.select(&session.id).unwrap().refresh_token, session.refresh_token);
}
