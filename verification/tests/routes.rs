use auth_core::auth::derive_key;
use auth_core::auth::encrypt;
use auth_core::auth::hash_key;
use auth_core::auth::session::Session;
use auth_core::auth::session::SessionCommand;
use auth_core::auth::session::SessionType;
use auth_core::auth::authz::PermissionCheck;
use auth_core::auth::Salt;
use auth_core::data::account::Account;
use auth_core::data::account::AccountCommand;
use auth_core::database::id::Id;
use auth_core::error::ApplicationError;
use auth_core::routes::account::get_permissions;
use auth_core::routes::account::schematic::delete;
use auth_core::routes::account::schematic::download;
use auth_core::routes::account::schematic::upload;
use auth_core::routes::account::schematic::Schematic;
use auth_core::routes::account::update_account_username;
use auth_core::routes::account::ChangeUsernameRequest;
use auth_core::routes::auth::login;
use auth_core::routes::auth::refresh;
use auth_core::routes::auth::totp::get_qr;
use auth_core::routes::auth::totp::toggle;
use auth_core::routes::auth::totp::QrCodeRequest;
use auth_core::routes::auth::totp::TotpToggleRequest;
use auth_core::routes::auth::LoginRequest;
use auth_core::routes::auth::RefreshRequest;
use auth_core::routes::news::update_news;
use auth_core::routes::CreationResponse;
use auth_core::routes::DeletionResponse;
use totp_rs::{Algorithm, TOTP};

const FIXED_SECRET: &str = "0123456789abcdef0123456789abcdef01234567";

fn plain_account(key: &str) -> Account {
    Account {
        id: Id::new(("account", key)),
        username: key.to_owned(),
        uuid: None,
        password: "".to_owned(),
        secret: "".to_owned(),
        nonce: "".to_owned(),
        totp: false,
        locked: false,
        created_at: Default::default(),
    }
}

fn account_with_password(key: &str, password: &str) -> Account {
    let salt = Salt::generate();
    let derived = derive_key(password, &salt).unwrap();
    let mut account = plain_account(key);
    account.password = hash_key(&derived);
    account.nonce = salt.to_string();
    account.secret = encrypt(&derived, FIXED_SECRET);
    account
}

fn generator() -> TOTP {
    TOTP::new(Algorithm::SHA256, 6, 0, 30, FIXED_SECRET.as_bytes().to_vec(), None, "".to_owned()).unwrap()
}

fn wait_for_room_in_step(totp: &TOTP) {
    while totp.ttl().unwrap() < 4 {
        std::hint::spin_loop();
    }
}

#[test]
fn login_without_account_is_unauthorized() {
    let request = LoginRequest { username: "nobody".to_owned(), password: "password".to_owned(), token: None };
    assert!(matches!(login(None, &request), Err(ApplicationError::Unauthorized)));
}

#[test]
fn login_starts_a_session_for_the_account() {
    let alice = account_with_password("alice", "secretpw");
    let request = LoginRequest { username: "alice".to_owned(), password: "secretpw".to_owned(), token: None };
    let (session, commands) = login(Some(alice.clone()), &request).unwrap();
    assert!(matches!(&session.target, SessionType::Human(id) if *id == Id::new(("account", "alice"))));
    assert_eq!(session.exp, session.iat + 3600);
    assert_eq!(commands.len(), 2);
    assert!(matches!(&commands[0], SessionCommand::DeleteTarget(t) if t == "account:alice"));
    assert!(matches!(&commands[1], SessionCommand::Create(id, _) if *id == session.id));

    let wrong = LoginRequest { username: "alice".to_owned(), password: "secretpW".to_owned(), token: None };
    assert!(matches!(login(Some(alice), &wrong), Err(ApplicationError::Unauthorized)));
}

#[test]
fn login_asks_for_the_token_where_the_account_does() {
    let mut alice = account_with_password("alice", "secretpw");
    alice.totp = true;
    let without = LoginRequest { username: "alice".to_owned(), password: "secretpw".to_owned(), token: None };
    match login(Some(alice.clone()), &without) {
        Err(ApplicationError::Forbidden(message)) => assert_eq!(message, "TOTP is required"),
        other => panic!("unexpected: {:?}", other.map(|_| ())),
    }
    let stale = LoginRequest {
        username: "alice".to_owned(),
        password: "secretpw".to_owned(),
        token: Some(generator().generate(1_000)),
    };
    assert!(matches!(login(Some(alice), &stale), Err(ApplicationError::Unauthorized)));
}

#[test]
fn refresh_without_session_is_unauthorized() {
    let request = RefreshRequest { session_id: "session:k".to_owned(), refresh_token: "t".to_owned() };
    let (refreshed, command) = refresh(None, &request);
    assert!(matches!(refreshed, Err(ApplicationError::Unauthorized)));
    assert!(command.is_none());
}

#[test]
fn refresh_rotates_or_ends_the_session() {
    let target = SessionType::Human(Id::new(("account", "alice")));
    let (session, _) = Session::init_with(target, 1_000, "k1", "t1".to_owned());
    let right = RefreshRequest { session_id: "session:k1".to_owned(), refresh_token: "t1".to_owned() };
    let (refreshed, command) = refresh(Some(session.clone()), &right);
    let refreshed = refreshed.unwrap();
    assert_eq!(refreshed.id, session.id);
    assert_ne!(refreshed.refresh_token, "t1");
    assert_eq!(refreshed.exp, refreshed.iat + 3600);
    assert!(refreshed.iat > 1_000);
    assert!(matches!(command, Some(SessionCommand::Update(s)) if s.refresh_token == refreshed.refresh_token));

    let wrong = RefreshRequest { session_id: "session:k1".to_owned(), refresh_token: "t2".to_owned() };
    let (refreshed, command) = refresh(Some(session.clone()), &wrong);
    assert!(matches!(refreshed, Err(ApplicationError::Unauthorized)));
    assert!(matches!(command, Some(SessionCommand::Delete(id)) if id == session.id));
}

#[test]
fn logout_ends_the_session_that_was_found() {
    let target = SessionType::Human(Id::new(("account", "alice")));
    let (session, _) = Session::init_with(target, 1_000, "k1", "t1".to_owned());
    assert!(matches!(Account::logout(Some(session)), Ok(SessionCommand::Delete(id)) if id == Id::new(("session", "k1"))));
    assert!(matches!(Account::logout(None), Err(ApplicationError::Unauthorized)));
}

#[test]
fn toggle_needs_password_and_token() {
    let mut alice = account_with_password("alice", "secretpw");
    let totp = generator();

    let wrong_password = TotpToggleRequest { password: "other".to_owned(), token: totp.generate_current().unwrap() };
    assert!(matches!(toggle(&mut alice, &wrong_password), Err(ApplicationError::Unauthorized)));
    assert!(!alice.totp);

    let stale = TotpToggleRequest { password: "secretpw".to_owned(), token: totp.generate(1_000) };
    assert!(matches!(toggle(&mut alice, &stale), Err(ApplicationError::Unauthorized)));
    assert!(!alice.totp);

    alice.totp = true;
    assert!(matches!(toggle(&mut alice, &stale), Err(ApplicationError::Unauthorized)));
    assert!(alice.totp);
}

#[test]
fn toggle_switches_on_and_off() {
    let mut alice = account_with_password("alice", "secretpw");
    let totp = generator();

    wait_for_room_in_step(&totp);
    let right = TotpToggleRequest { password: "secretpw".to_owned(), token: totp.generate_current().unwrap() };
    match toggle(&mut alice, &right) {
        Ok(AccountCommand::Save(saved)) => {
            assert!(saved.totp);
            assert_eq!(saved.id, alice.id);
            assert_eq!(saved.secret, alice.secret);
        }
        other => panic!("unexpected: {:?}", other),
    }
    assert!(alice.totp);

    wait_for_room_in_step(&totp);
    let again = TotpToggleRequest { password: "secretpw".to_owned(), token: totp.generate_current().unwrap() };
    assert!(matches!(toggle(&mut alice, &again), Ok(AccountCommand::Save(saved)) if !saved.totp));
    assert!(!alice.totp);
}

#[test]
fn get_qr_draws_a_picture_for_the_right_password() {
    let alice = account_with_password("alice", "secretpw");
    let picture = get_qr(&alice, &QrCodeRequest { password: "secretpw".to_owned() }).unwrap();
    // the Base64 of the eight bytes that every PNG starts with
    assert!(picture.data.starts_with("iVBORw0KGgo"));
    let again = get_qr(&alice, &QrCodeRequest { password: "secretpw".to_owned() }).unwrap();
    assert_eq!(picture.data, again.data);
    assert!(matches!(
        get_qr(&alice, &QrCodeRequest { password: "other".to_owned() }),
        Err(ApplicationError::Unauthorized)
    ));
}

#[test]
fn get_qr_refuses_a_name_with_a_colon() {
    let mut alice = account_with_password("alice", "secretpw");
    alice.username = "a:b".to_owned();
    assert!(matches!(
        get_qr(&alice, &QrCodeRequest { password: "secretpw".to_owned() }),
        Err(ApplicationError::Unauthorized)
    ));
}

#[test]
fn an_account_sees_its_own_permissions_unasked() {
    let alice = plain_account("alice");
    assert!(matches!(get_permissions(&alice, "account:alice"), PermissionCheck::Granted));
    assert!(matches!(
        get_permissions(&alice, "account:bob"),
        PermissionCheck::Lookup { account, permission }
            if account == Id::new(("account", "alice"))
                && permission == Id::new(("permission", "account.permission.get"))
    ));
    assert!(matches!(get_permissions(&alice, "alice"), PermissionCheck::Lookup { .. }));
}

#[test]
fn an_account_renames_only_itself() {
    let mut alice = plain_account("alice");
    let own = Id::new(("account", "alice"));
    let command = update_account_username(&mut alice, &own, ChangeUsernameRequest { username: "other".to_owned() });
    assert_eq!(alice.username, "other");
    assert!(matches!(command, Ok(AccountCommand::SetUsername { account, username })
        if account == own && username == "other"));

    let foreign = Id::new(("account", "bob"));
    let refused = update_account_username(&mut alice, &foreign, ChangeUsernameRequest { username: "x".to_owned() });
    assert!(matches!(refused, Err(ApplicationError::BadRequest(m)) if m == "not implemented yet"));
    assert_eq!(alice.username, "other");
}

#[test]
fn schematics_belong_to_linked_players() {
    let mut alice = plain_account("alice");
    assert!(matches!(upload(&alice, "house", b"foobar"), Err(ApplicationError::Unauthorized)));
    alice.uuid = Some("player-1".to_owned());
    let stored = upload(&alice, "house", b"foobar").unwrap();
    assert_eq!(stored.owner, "player-1");
    assert_eq!(stored.name, "house");
    assert_eq!(stored.data, "Zm9vYmFy");
    assert_eq!(upload(&alice, "", b"fo").unwrap().data, "Zm8=");
    assert_eq!(upload(&alice, "", b"").unwrap().data, "");

    assert_eq!(download(Some(&stored), &alice).unwrap(), b"foobar".to_vec());
    let mut bob = plain_account("bob");
    assert!(matches!(download(Some(&stored), &bob), Err(ApplicationError::Unauthorized)));
    bob.uuid = Some("player-2".to_owned());
    assert!(matches!(download(Some(&stored), &bob), Err(ApplicationError::Unauthorized)));
    assert!(matches!(download(None, &alice), Err(ApplicationError::BadRequest(m)) if m == "schematic not found"));

    let broken = Schematic { owner: "player-1".to_owned(), data: "****".to_owned(), name: "x".to_owned() };
    assert!(matches!(download(Some(&broken), &alice), Err(ApplicationError::InternalServerError)));

    assert!(delete(Some("player-1"), &alice).is_ok());
    assert!(matches!(delete(Some("player-1"), &bob), Err(ApplicationError::Unauthorized)));
    assert!(matches!(delete(None, &alice), Err(ApplicationError::Unauthorized)));
    assert!(matches!(delete(Some("player-1"), &plain_account("carol")), Err(ApplicationError::Unauthorized)));
}

#[test]
fn news_are_shown_only_with_a_picture() {
    assert!(matches!(
        update_news(&None, true),
        Err(ApplicationError::BadRequest(m)) if m == "extension has to be set in order to shown news"
    ));
    assert!(update_news(&None, false).is_ok());
    assert!(update_news(&Some("png".to_owned()), true).is_ok());
    assert!(update_news(&Some("png".to_owned()), false).is_ok());
}

#[test]
fn responses_wrap_their_flag() {
    assert_eq!(DeletionResponse::from(true), DeletionResponse { deleted: true });
    assert_eq!(DeletionResponse::from(false), DeletionResponse { deleted: false });
    assert_eq!(CreationResponse::from(true), CreationResponse { created: true });
    assert_eq!(CreationResponse::from(false), CreationResponse { created: false });
}
