use auth_core::auth::session::Session;
use auth_core::auth::session::SessionCommand;
use auth_core::auth::session::SessionType;
use auth_core::auth::session::ALPHABET;
use auth_core::auth::session::REFRESH_LENGTH;
use auth_core::auth::session::SESSION_LENGTH;
use auth_core::database::id::Id;
use auth_core::database::memory::SessionTable;
use auth_core::error::ApplicationError;

fn human(key: &str) -> SessionType {
    SessionType::Human(Id::new(("account", key)))
}

fn machine(key: &str) -> SessionType {
    SessionType::Machine(Id::new(("client", key)))
}

fn carry_out(table: &mut SessionTable, commands: &[SessionCommand]) {
    for command in commands {
        table.perform(command).unwrap();
    }
}

fn start(table: &mut SessionTable, target: SessionType, now: i64, key: &str, token: &str) -> Session {
    let (session, commands) = Session::init_with(target, now, key, token.to_owned());
    carry_out(table, &commands);
    session
}

#[test]
fn session_lengths_are_an_hour_and_an_hour_and_a_half() {
    assert_eq!(SESSION_LENGTH, 3600);
    assert_eq!(REFRESH_LENGTH, 5400);
    assert_eq!(ALPHABET.len(), 62);
}

#[test]
fn init_with_issues_the_session_as_given() {
    let (session, commands) = Session::init_with(human("alice"), 1_000, "k1", "token".to_owned());
    assert_eq!(session.id, Id::new(("session", "k1")));
    assert!(matches!(session.target(), SessionType::Human(id) if *id == Id::new(("account", "alice"))));
    assert_eq!(*session.iat(), 1_000);
    assert_eq!(*session.exp(), 4_600);
    assert_eq!(session.refresh_token, "token");
    assert_eq!(session.refresh_exp, 6_400);

    assert_eq!(commands.len(), 2);
    match &commands[0] {
        SessionCommand::DeleteTarget(target) => assert_eq!(target, "account:alice"),
        other => panic!("unexpected: {:?}", other),
    }
    match &commands[1] {
        SessionCommand::Create(id, content) => {
            assert_eq!(*id, Id::new(("session", "k1")));
            assert!(matches!(&content.target, SessionType::Human(id) if *id == Id::new(("account", "alice"))));
            assert_eq!(content.iat, 1_000);
            assert_eq!(content.exp, 4_600);
            assert_eq!(content.refresh_token, "token");
            assert_eq!(content.refresh_exp, 6_400);
        }
        other => panic!("unexpected: {:?}", other),
    }
}

#[test]
fn init_with_takes_times_before_the_epoch_and_late_ones() {
    let (early, _) = Session::init_with(machine("m"), -10_000, "k", "t".to_owned());
    assert_eq!(early.exp, -6_400);
    assert_eq!(early.refresh_exp, -4_600);
    let last = i64::MAX - 5_400;
    let (late, _) = Session::init_with(machine("m"), last, "k", "t".to_owned());
    assert_eq!(late.exp, i64::MAX - 1_800);
    assert_eq!(late.refresh_exp, i64::MAX);
}

#[test]
fn init_draws_key_token_and_time() {
    let before = chrono::Utc::now().timestamp();
    let (session, commands) = Session::init(human("alice"));
    let after = chrono::Utc::now().timestamp();

    assert!(before <= session.iat && session.iat <= after);
    assert_eq!(session.exp, session.iat + 3600);
    assert_eq!(session.refresh_exp, session.iat + 5400);
    assert_eq!(session.id.table, "session");
    assert_eq!(session.id.id.chars().count(), 32);
    assert!(session.id.id.chars().all(|c| ALPHABET.contains(&c)));
    assert_eq!(session.refresh_token.chars().count(), 64);
    assert!(session
        .refresh_token
        .chars()
        .all(|c| c.is_ascii_alphanumeric() || c == '_' || c == '-'));
    assert!(matches!(&session.target, SessionType::Human(id) if *id == Id::new(("account", "alice"))));
    assert_eq!(commands.len(), 2);
    assert!(matches!(&commands[0], SessionCommand::DeleteTarget(t) if t == "account:alice"));
    assert!(matches!(&commands[1], SessionCommand::Create(id, content)
        if *id == session.id && content.refresh_token == session.refresh_token && content.iat == session.iat));

    let (other, _) = Session::init(human("alice"));
    assert_ne!(other.id, session.id);
    assert_ne!(other.refresh_token, session.refresh_token);
}

#[test]
fn two_starts_for_one_target_leave_one_session() {
    let mut table = SessionTable::new();
    let first = start(&mut table, human("alice"), 1_000, "k1", "t1");
    assert_eq!(table.len(), 1);
    let second = start(&mut table, human("alice"), 1_010, "k2", "t2");
    assert_eq!(table.len(), 1);
    assert!(table.select(&first.id).is_none());
    let stored = table.select(&second.id).unwrap();
    assert_eq!(stored.refresh_token, "t2");
    assert_eq!(stored.iat, 1_010);
    assert_eq!(table.fetch("account:alice").unwrap().id, second.id);
}

#[test]
fn a_start_spares_the_sessions_of_other_targets() {
    let mut table = SessionTable::new();
    let bob = start(&mut table, human("bob"), 1_000, "kb", "tb");
    let robot = start(&mut table, machine("alice"), 1_000, "kr", "tr");
    let _first = start(&mut table, human("alice"), 1_000, "k1", "t1");
    let second = start(&mut table, human("alice"), 1_001, "k2", "t2");
    assert_eq!(table.len(), 3);
    assert!(table.select(&bob.id).is_some());
    assert!(table.select(&robot.id).is_some());
    assert!(table.select(&second.id).is_some());
    assert!(table.fetch("account:carol").is_none());
}

#[test]
fn targets_are_matched_by_their_written_identifier() {
    let mut table = SessionTable::new();
    let as_machine = SessionType::Machine(Id::new(("account", "alice")));
    let first = start(&mut table, as_machine, 1_000, "k1", "t1");
    let second = start(&mut table, human("alice"), 1_001, "k2", "t2");
    assert_eq!(table.len(), 1);
    assert!(table.select(&first.id).is_none());
    assert!(table.select(&second.id).is_some());
}

#[test]
fn a_taken_key_is_refused_and_changes_nothing() {
    let mut table = SessionTable::new();
    let first = start(&mut table, human("alice"), 1_000, "k1", "t1");
    let (_, commands) = Session::init_with(human("bob"), 2_000, "k1", "t2".to_owned());
    table.perform(&commands[0]).unwrap();
    assert!(matches!(table.perform(&commands[1]), Err(ApplicationError::SurrealdbError(_))));
    assert_eq!(table.len(), 1);
    assert_eq!(table.select(&first.id).unwrap().refresh_token, "t1");
}

#[test]
fn a_session_lasts_until_its_last_second() {
    let (session, _) = Session::init_with(human("alice"), 1_000, "k1", "t1".to_owned());
    let (valid, cleanup) = session.is_valid_at(4_599);
    assert!(valid.is_ok());
    assert!(cleanup.is_none());
    let (valid, cleanup) = session.is_valid_at(1_000);
    assert!(valid.is_ok());
    assert!(cleanup.is_none());
    let (valid, cleanup) = session.is_valid_at(4_600);
    assert!(matches!(valid, Err(ApplicationError::Unauthorized)));
    assert!(matches!(cleanup, Some(SessionCommand::Delete(id)) if id == session.id));
    let (valid, cleanup) = session.is_valid_at(i64::MAX);
    assert!(matches!(valid, Err(ApplicationError::Unauthorized)));
    assert!(cleanup.is_some());
}

#[test]
fn is_valid_reads_the_clock() {
    let (fresh, _) = Session::init(human("alice"));
    let (valid, cleanup) = fresh.is_valid();
    assert!(valid.is_ok());
    assert!(cleanup.is_none());
    let (old, _) = Session::init_with(human("alice"), 1_000, "k1", "t1".to_owned());
    let (valid, cleanup) = old.is_valid();
    assert!(matches!(valid, Err(ApplicationError::Unauthorized)));
    assert!(matches!(cleanup, Some(SessionCommand::Delete(id)) if id == old.id));
}

#[test]
fn an_expired_session_is_removed_on_the_check() {
    let mut table = SessionTable::new();
    let session = start(&mut table, human("alice"), 1_000, "k1", "t1");
    let other = start(&mut table, human("bob"), 1_000, "k2", "t2");

    let (checked, cleanup) = Session::is_session_valid_at(table.select(&session.id), 4_599);
    assert_eq!(checked.unwrap().id, session.id);
    assert!(cleanup.is_none());

    let (checked, cleanup) = Session::is_session_valid_at(table.select(&session.id), 4_600);
    assert!(matches!(checked, Err(ApplicationError::Unauthorized)));
    table.perform(&cleanup.unwrap()).unwrap();
    assert!(table.select(&session.id).is_none());
    assert!(table.select(&other.id).is_some());

    let (checked, cleanup) = Session::is_session_valid_at(table.select(&session.id), 4_600);
    assert!(matches!(checked, Err(ApplicationError::Unauthorized)));
    assert!(cleanup.is_none());
}

#[test]
fn is_session_valid_reads_the_clock() {
    let (fresh, _) = Session::init(machine("m"));
    let key = fresh.id.clone();
    let (checked, cleanup) = Session::is_session_valid(Some(fresh));
    assert_eq!(checked.unwrap().id, key);
    assert!(cleanup.is_none());
    let (old, _) = Session::init_with(machine("m"), 0, "k", "t".to_owned());
    let (checked, cleanup) = Session::is_session_valid(Some(old));
    assert!(matches!(checked, Err(ApplicationError::Unauthorized)));
    assert!(matches!(cleanup, Some(SessionCommand::Delete(id)) if id == Id::new(("session", "k"))));
    let (checked, cleanup) = Session::is_session_valid(None);
    assert!(matches!(checked, Err(ApplicationError::Unauthorized)));
    assert!(cleanup.is_none());
}

#[test]
fn refresh_with_the_right_token_rotates_and_keeps_the_session() {
    let mut table = SessionTable::new();
    let mut session = start(&mut table, human("alice"), 1_000, "k1", "t1");
    let (refreshed, command) = session.refresh_with("t1", 2_000, "t2".to_owned());
    assert!(refreshed.is_ok());
    assert_eq!(session.iat, 2_000);
    assert_eq!(session.exp, 5_600);
    assert_eq!(session.refresh_token, "t2");
    assert_eq!(session.refresh_exp, 7_400);
    assert_eq!(session.id, Id::new(("session", "k1")));
    assert!(matches!(&command, SessionCommand::Update(s) if s.id == session.id && s.refresh_token == "t2"));
    table.perform(&command).unwrap();
    assert_eq!(table.len(), 1);
    let stored = table.select(&session.id).unwrap();
    assert_eq!(stored.exp, 5_600);
    assert_eq!(stored.refresh_token, "t2");
    let (checked, _) = Session::is_session_valid_at(Some(stored), 5_000);
    assert!(checked.is_ok());

    // the token that was presented is spent
    let (again, command) = session.refresh_with("t1", 2_100, "t3".to_owned());
    assert!(matches!(again, Err(ApplicationError::Unauthorized)));
    assert!(matches!(command, SessionCommand::Delete(_)));
}

#[test]
fn refresh_with_a_wrong_token_ends_the_session() {
    let mut table = SessionTable::new();
    let mut session = start(&mut table, human("alice"), 1_000, "k1", "t1");
    let (refreshed, command) = session.refresh_with("T1", 2_000, "t2".to_owned());
    assert!(matches!(refreshed, Err(ApplicationError::Unauthorized)));
    assert_eq!(session.iat, 1_000);
    assert_eq!(session.exp, 4_600);
    assert_eq!(session.refresh_token, "t1");
    assert!(matches!(&command, SessionCommand::Delete(id) if *id == session.id));
    table.perform(&command).unwrap();
    assert!(table.select(&session.id).is_none());
    let (checked, _) = Session::is_session_valid_at(table.select(&session.id), 2_000);
    assert!(matches!(checked, Err(ApplicationError::Unauthorized)));
}

#[test]
fn refresh_does_not_look_at_the_time() {
    let (mut session, _) = Session::init_with(human("alice"), 1_000, "k1", "t1".to_owned());
    let (refreshed, _) = session.refresh_with("t1", 1_000_000, "t2".to_owned());
    assert!(refreshed.is_ok());
    assert_eq!(session.exp, 1_003_600);
}

#[test]
fn refresh_draws_a_new_token() {
    let (mut session, _) = Session::init(human("alice"));
    let old_token = session.refresh_token.clone();
    let before = chrono::Utc::now().timestamp();
    let (refreshed, command) = session.refresh(old_token.as_str());
    let after = chrono::Utc::now().timestamp();
    assert!(refreshed.is_ok());
    assert_ne!(session.refresh_token, old_token);
    assert_eq!(session.refresh_token.chars().count(), 64);
    assert!(before <= session.iat && session.iat <= after);
    assert_eq!(session.exp, session.iat + 3600);
    assert_eq!(session.refresh_exp, session.iat + 5400);
    assert!(matches!(command, SessionCommand::Update(s) if s.refresh_token == session.refresh_token));

    let (wrong, command) = session.refresh("nonsense");
    assert!(matches!(wrong, Err(ApplicationError::Unauthorized)));
    assert!(matches!(command, SessionCommand::Delete(id) if id == session.id));
}

#[test]
fn ending_a_session_twice_is_ending_it_once() {
    let mut table = SessionTable::new();
    let session = start(&mut table, human("alice"), 1_000, "k1", "t1");
    let other = start(&mut table, human("bob"), 1_000, "k2", "t2");
    table.perform(&session.end()).unwrap();
    assert_eq!(table.len(), 1);
    table.perform(&session.end()).unwrap();
    assert_eq!(table.len(), 1);
    assert!(table.select(&other.id).is_some());
}

#[test]
fn update_stores_a_session_that_is_gone() {
    let mut table = SessionTable::new();
    let (session, _) = Session::init_with(human("alice"), 1_000, "k1", "t1".to_owned());
    table.perform(&SessionCommand::Update(session.clone())).unwrap();
    assert_eq!(table.len(), 1);
    assert_eq!(table.select(&session.id).unwrap().refresh_token, "t1");
}

#[test]
fn from_id_names_records_of_the_session_table_only() {
    assert_eq!(Session::from_id("session:abc").unwrap(), Id::new(("session", "abc")));
    assert!(matches!(Session::from_id("account:abc"), Err(ApplicationError::BadRequest(m)) if m == "invalid id"));
    assert!(matches!(Session::from_id("abc"), Err(ApplicationError::BadRequest(_))));
}

#[test]
fn session_type_is_written_as_its_identifier() {
    assert_eq!(human("alice").to_string(), "account:alice");
    assert_eq!(machine("m1").to_string(), "client:m1");
}
