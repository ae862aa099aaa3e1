use auth_core::data::account::create::CreateAccount;
use auth_core::data::account::protected::ProtectedAccount;
use auth_core::data::account::Account;
use auth_core::data::account::AccountCommand;
use auth_core::data::account::Timestamp;
use auth_core::database::id::Id;
use auth_core::error::ApplicationError;

fn account(key: &str) -> Account {
    Account {
        id: Id::new(("account", key)),
        username: key.to_owned(),
        uuid: None,
        password: "hash".to_owned(),
        secret: "secret".to_owned(),
        nonce: "salt".to_owned(),
        totp: false,
        locked: false,
        created_at: Timestamp { secs: 1_700_000_000, nanos: 5 },
    }
}

#[test]
fn create_makes_a_record_that_its_password_logs_in_to() {
    let request = CreateAccount { username: "username".to_owned(), password: "password".to_owned() };
    let record = request.create().unwrap();
    assert_eq!(record.username, "username");
    assert_eq!(record.nonce.len(), 22);
    assert!(record.password.starts_with("$argon2id$"));
    assert_ne!(record.password, "password");
    assert_eq!(record.secret.len(), 40);
    assert!(record.secret.chars().all(|c| c.is_ascii_digit() || ('a'..='f').contains(&c)));

    let stored = Account {
        id: Id::new(("account", "1")),
        username: record.username,
        uuid: None,
        password: record.password,
        secret: record.secret,
        nonce: record.nonce,
        totp: false,
        locked: false,
        created_at: Default::default(),
    };
    assert!(stored.login("password", None).is_ok());
    assert!(matches!(stored.login("passwore", None), Err(ApplicationError::Unauthorized)));
    assert!(matches!(stored.login("", None), Err(ApplicationError::Unauthorized)));
}

#[test]
fn create_draws_salt_and_secret_anew() {
    let first = CreateAccount { username: "a".to_owned(), password: "p".to_owned() }.create().unwrap();
    let second = CreateAccount { username: "a".to_owned(), password: "p".to_owned() }.create().unwrap();
    assert_ne!(first.nonce, second.nonce);
    assert_ne!(first.password, second.password);
    assert_ne!(first.secret, second.secret);
}

#[test]
fn create_takes_the_empty_password() {
    let record = CreateAccount { username: "".to_owned(), password: "".to_owned() }.create().unwrap();
    assert_eq!(record.username, "");
}

#[test]
fn the_default_timestamp_is_the_epoch() {
    assert_eq!(Timestamp::default(), Timestamp { secs: 0, nanos: 0 });
}

#[test]
fn protected_account_leaves_the_credentials_out() {
    let mut alice = account("alice");
    alice.uuid = Some("player".to_owned());
    alice.totp = true;
    let shown = ProtectedAccount::from(alice);
    assert_eq!(shown.id, Id::new(("account", "alice")));
    assert_eq!(shown.username, "alice");
    assert_eq!(shown.uuid, Some("player".to_owned()));
    assert!(shown.totp);
    assert!(!shown.locked);
    assert_eq!(shown.created_at, Timestamp { secs: 1_700_000_000, nanos: 5 });
}

#[test]
fn link_sets_the_uuid_here_and_in_storage() {
    let mut alice = account("alice");
    let command = alice.link("player-1");
    assert_eq!(alice.uuid, Some("player-1".to_owned()));
    assert_eq!(alice.username, "alice");
    match command {
        AccountCommand::SetUuid { account, uuid } => {
            assert_eq!(account, Id::new(("account", "alice")));
            assert_eq!(uuid, "player-1");
        }
        other => panic!("unexpected: {:?}", other),
    }
    alice.link("player-2");
    assert_eq!(alice.uuid, Some("player-2".to_owned()));
}

#[test]
fn from_id_names_records_of_the_account_table_only() {
    assert_eq!(Account::from_id("account:alice").unwrap(), Id::new(("account", "alice")));
    assert!(matches!(Account::from_id("session:alice"), Err(ApplicationError::BadRequest(m)) if m == "invalid id"));
    assert!(matches!(Account::from_id("alice"), Err(ApplicationError::BadRequest(_))));
}

#[test]
fn getters_read_and_setters_write_one_field() {
    let mut alice = account("alice");
    assert_eq!(*alice.id(), Id::new(("account", "alice")));
    assert_eq!(alice.username(), "alice");
    assert_eq!(*alice.uuid(), None);
    assert_eq!(alice.password(), "hash");
    assert_eq!(alice.secret(), "secret");
    assert_eq!(alice.nonce(), "salt");
    assert!(!*alice.totp());
    assert!(!*alice.locked());
    assert_eq!(*alice.created_at(), Timestamp { secs: 1_700_000_000, nanos: 5 });

    alice.set_totp(true).set_locked(true).set_username("bob".to_owned());
    alice.set_uuid(Some("player".to_owned()));
    alice.set_password("h2".to_owned());
    alice.set_secret("s2".to_owned());
    alice.set_nonce("n2".to_owned());
    alice.set_id(Id::new(("account", "bob")));
    alice.set_created_at(Timestamp { secs: 1, nanos: 2 });
    assert!(alice.totp);
    assert!(alice.locked);
    assert_eq!(alice.username, "bob");
    assert_eq!(alice.uuid, Some("player".to_owned()));
    assert_eq!(alice.password, "h2");
    assert_eq!(alice.secret, "s2");
    assert_eq!(alice.nonce, "n2");
    assert_eq!(alice.id, Id::new(("account", "bob")));
    assert_eq!(alice.created_at, Timestamp { secs: 1, nanos: 2 });
}

#[test]
fn fetch_session_gives_the_text_of_the_accounts_target() {
    assert_eq!(account("alice").fetch_session(), "account:alice");
}
