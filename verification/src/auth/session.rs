//! Sessions: what a login hands out, how long it lasts and how it is renewed.
//!
//! Nothing here touches storage. A function that changes what is stored says so
//! in a `SessionCommand`, which the caller carries out on the session table;
//! what each command does to the table is defined in `crate::database::memory`.

use crate::auth::ambient::is_url_safe_char;
use crate::auth::ambient::random_text;
use crate::auth::ambient::url_safe_alphabet;
use crate::auth::ambient::utc_timestamp;
use crate::auth::ambient::CLOCK_END;
use crate::database::id::names_record_of;
use crate::database::id::written_key;
use crate::database::id::Id;
use crate::database::id::IdView;
use crate::error::ApplicationError;
use crate::error::ErrorView;
use crate::text::same_text;
use vstd::prelude::*;

verus! {

broadcast use vstd::array::group_array_axioms;

/// The characters of a session's key.
pub const ALPHABET: [char; 62] = [
    '0', '1', '2', '3', '4', '5', '6', '7', '8', '9', 'a', 'b', 'c', 'd', 'e', 'f', 'g', 'h', 'i',
    'j', 'k', 'l', 'm', 'n', 'o', 'p', 'q', 'r', 's', 't', 'u', 'v', 'w', 'x', 'y', 'z', 'A', 'B',
    'C', 'D', 'E', 'F', 'G', 'H', 'I', 'J', 'K', 'L', 'M', 'N', 'O', 'P', 'Q', 'R', 'S', 'T', 'U',
    'V', 'W', 'X', 'Y', 'Z',
];

/// The length of an issued session in seconds: one hour.
pub const SESSION_LENGTH: i64 = 3600;

/// The seconds from issue for which a refresh is authorized.
pub const REFRESH_LENGTH: i64 = 5400;

/// The number of characters of a session's key.
pub const SESSION_KEY_LENGTH: usize = 32;

/// The number of characters of a refresh token.
pub const REFRESH_TOKEN_LENGTH: usize = 64;

/// The digits and the letters of both cases.
pub open spec fn is_key_char(c: char) -> bool {
    ||| '0' <= c <= '9'
    ||| 'a' <= c <= 'z'
    ||| 'A' <= c <= 'Z'
}

/// The name of the table that holds the sessions.
pub open spec fn session_table() -> Seq<char> {
    "session"@
}

/// Whom a session stands for: a machine, that is an API client known by its
/// identifier, or a human, known by the identifier of the account.
#[derive(Debug)]
pub enum SessionType {
    Machine(Id),
    Human(Id),
}

/// A `SessionType` over the view of its identifier.
pub ghost enum SessionTypeView {
    Machine(IdView),
    Human(IdView),
}

impl SessionTypeView {
    /// The identifier of whom the session stands for.
    pub open spec fn id(self) -> IdView {
        match self {
            SessionTypeView::Machine(id) => id,
            SessionTypeView::Human(id) => id,
        }
    }

    /// The written form of that identifier, by which stored sessions are
    /// matched to their target.
    pub open spec fn text(self) -> Seq<char> {
        self.id().text()
    }
}

impl View for SessionType {
    type V = SessionTypeView;

    open spec fn view(&self) -> SessionTypeView {
        match self {
            SessionType::Machine(id) => SessionTypeView::Machine(id@),
            SessionType::Human(id) => SessionTypeView::Human(id@),
        }
    }
}

impl Clone for SessionType {
    fn clone(&self) -> (r: Self)
        ensures
            r@ == self@,
    {
        match self {
            SessionType::Machine(id) => SessionType::Machine(id.clone()),
            SessionType::Human(id) => SessionType::Human(id.clone()),
        }
    }
}

impl SessionType {
    /// The written form of the target's identifier.
    pub fn to_string(&self) -> (text: String)
        ensures
            text@ == self@.text(),
    {
        match self {
            SessionType::Human(id) => id.to_string(),
            SessionType::Machine(id) => id.to_string(),
        }
    }
}

/// All that authenticates and authorizes the requests that carry its key.
#[derive(Debug)]
pub struct Session {
    /// the key by which requests name the session
    pub id: Id,
    /// whom the session stands for
    pub target: SessionType,
    /// when the session was issued or last refreshed, in seconds
    pub iat: i64,
    /// the second with which the session ends
    pub exp: i64,
    /// the token that the next refresh has to present
    pub refresh_token: String,
    /// the second with which the right to refresh ends
    pub refresh_exp: i64,
}

/// A `Session` with its texts as sequences of characters.
pub ghost struct SessionView {
    pub id: IdView,
    pub target: SessionTypeView,
    pub iat: i64,
    pub exp: i64,
    pub refresh_token: Seq<char>,
    pub refresh_exp: i64,
}

impl View for Session {
    type V = SessionView;

    open spec fn view(&self) -> SessionView {
        SessionView {
            id: self.id@,
            target: self.target@,
            iat: self.iat,
            exp: self.exp,
            refresh_token: self.refresh_token@,
            refresh_exp: self.refresh_exp,
        }
    }
}

impl Clone for Session {
    fn clone(&self) -> (r: Self)
        ensures
            r@ == self@,
    {
        Session {
            id: self.id.clone(),
            target: self.target.clone(),
            iat: self.iat,
            exp: self.exp,
            refresh_token: self.refresh_token.clone(),
            refresh_exp: self.refresh_exp,
        }
    }
}

/// What is stored of a new session: all of it but the key, under which it is
/// stored.
#[derive(Debug)]
pub struct CreateSession {
    pub target: SessionType,
    pub iat: i64,
    pub exp: i64,
    pub refresh_token: String,
    pub refresh_exp: i64,
}

/// A `CreateSession` with its texts as sequences of characters.
pub ghost struct CreateSessionView {
    pub target: SessionTypeView,
    pub iat: i64,
    pub exp: i64,
    pub refresh_token: Seq<char>,
    pub refresh_exp: i64,
}

impl CreateSessionView {
    /// The session that this content makes under the key `id`.
    pub open spec fn stored_as(self, id: IdView) -> SessionView {
        SessionView {
            id,
            target: self.target,
            iat: self.iat,
            exp: self.exp,
            refresh_token: self.refresh_token,
            refresh_exp: self.refresh_exp,
        }
    }
}

impl View for CreateSession {
    type V = CreateSessionView;

    open spec fn view(&self) -> CreateSessionView {
        CreateSessionView {
            target: self.target@,
            iat: self.iat,
            exp: self.exp,
            refresh_token: self.refresh_token@,
            refresh_exp: self.refresh_exp,
        }
    }
}

impl Clone for CreateSession {
    fn clone(&self) -> (r: Self)
        ensures
            r@ == self@,
    {
        CreateSession {
            target: self.target.clone(),
            iat: self.iat,
            exp: self.exp,
            refresh_token: self.refresh_token.clone(),
            refresh_exp: self.refresh_exp,
        }
    }
}

/// A change to the session table that the caller has to carry out.
#[derive(Debug)]
pub enum SessionCommand {
    /// Remove every session whose target is written like this.
    DeleteTarget(String),
    /// Store this content as a new session under this key.
    Create(Id, CreateSession),
    /// Store this session under its key, in place of what is there.
    Update(Session),
    /// Remove the session with this key.
    Delete(Id),
}

/// A `SessionCommand` over the views of its parts.
pub ghost enum SessionCommandView {
    DeleteTarget(Seq<char>),
    Create(IdView, CreateSessionView),
    Update(SessionView),
    Delete(IdView),
}

impl View for SessionCommand {
    type V = SessionCommandView;

    open spec fn view(&self) -> SessionCommandView {
        match self {
            SessionCommand::DeleteTarget(target) => SessionCommandView::DeleteTarget(target@),
            SessionCommand::Create(id, content) => SessionCommandView::Create(id@, content@),
            SessionCommand::Update(session) => SessionCommandView::Update(session@),
            SessionCommand::Delete(id) => SessionCommandView::Delete(id@),
        }
    }
}

impl SessionView {
    /// What is stored of this session beside its key.
    pub open spec fn content(self) -> CreateSessionView {
        CreateSessionView {
            target: self.target,
            iat: self.iat,
            exp: self.exp,
            refresh_token: self.refresh_token,
            refresh_exp: self.refresh_exp,
        }
    }

    /// The session issued at `now` for `target`, with the key and the refresh
    /// token given: it lasts `SESSION_LENGTH` seconds and can be refreshed for
    /// `REFRESH_LENGTH`.
    pub open spec fn issued(
        target: SessionTypeView,
        now: i64,
        key: Seq<char>,
        refresh_token: Seq<char>,
    ) -> SessionView {
        SessionView {
            id: IdView { table: session_table(), id: key },
            target,
            iat: now,
            exp: (now + SESSION_LENGTH) as i64,
            refresh_token,
            refresh_exp: (now + REFRESH_LENGTH) as i64,
        }
    }

    /// The commands that start this session: first every other session of its
    /// target goes, then this one is stored.
    pub open spec fn start_commands(self) -> Seq<SessionCommandView> {
        seq![
            SessionCommandView::DeleteTarget(self.target.text()),
            SessionCommandView::Create(self.id, self.content()),
        ]
    }

    /// Whether the session still lasts at `now`: its last second has not come.
    pub open spec fn lasts_at(self, now: i64) -> bool {
        now < self.exp
    }

    /// The session as a refresh at `now` leaves it, with the new token given.
    pub open spec fn refreshed(self, now: i64, refresh_token: Seq<char>) -> SessionView {
        SessionView {
            iat: now,
            exp: (now + SESSION_LENGTH) as i64,
            refresh_token,
            refresh_exp: (now + REFRESH_LENGTH) as i64,
            ..self
        }
    }
}

/// The views of some commands, in their order.
pub open spec fn command_views(commands: Seq<SessionCommand>) -> Seq<SessionCommandView> {
    commands.map_values(|c: SessionCommand| c@)
}

impl Session {
    /// Reads whom the session stands for.
    pub fn target(&self) -> (r: &SessionType)
        ensures
            *r == self.target,
    {
        &self.target
    }

    /// Reads the second of issue.
    pub fn iat(&self) -> (r: &i64)
        ensures
            *r == self.iat,
    {
        &self.iat
    }

    /// Reads the second with which the session ends.
    pub fn exp(&self) -> (r: &i64)
        ensures
            *r == self.exp,
    {
        &self.exp
    }
}

/// Every character of `ALPHABET` is a digit or a letter.
proof fn lemma_alphabet()
    ensures
        ALPHABET@.len() == 62,
        forall|i: int| 0 <= i < 62 ==> is_key_char(#[trigger] ALPHABET@[i]),
{
}

impl Session {
    /// Starts a session for `target` at `now`, with the key and the refresh
    /// token given. The session is not stored by this: the commands are to be
    /// carried out in their order, and the session counts as started when the
    /// last has succeeded.
    pub fn init_with(target: SessionType, now: i64, key: &str, refresh_token: String) -> (r: (
        Session,
        Vec<SessionCommand>,
    ))
        requires
            now + REFRESH_LENGTH <= i64::MAX,
        ensures
            r.0@ == SessionView::issued(target@, now, key@, refresh_token@),
            command_views(r.1@) == r.0@.start_commands(),
    {
        let content = CreateSession {
            target,
            iat: now,
            exp: now + SESSION_LENGTH,
            refresh_token,
            refresh_exp: now + REFRESH_LENGTH,
        };
        let id = Id::new(("session", key));
        let session = Session {
            id: id.clone(),
            target: content.target.clone(),
            iat: content.iat,
            exp: content.exp,
            refresh_token: content.refresh_token.clone(),
            refresh_exp: content.refresh_exp,
        };
        let mut commands = Vec::new();
        commands.push(SessionCommand::DeleteTarget(content.target.to_string()));
        commands.push(SessionCommand::Create(id, content));
        assert(command_views(commands@) =~= session@.start_commands());
        (session, commands)
    }

    /// Starts a session for `target` now, under a key and with a refresh token
    /// drawn for it. The commands are those of `init_with`.
    pub fn init(target: SessionType) -> (r: (Session, Vec<SessionCommand>))
        ensures
            r.0@.target == target@,
            r.0@.iat < CLOCK_END,
            r.0@.exp == r.0@.iat + SESSION_LENGTH,
            r.0@.refresh_exp == r.0@.iat + REFRESH_LENGTH,
            r.0@.id.table == session_table(),
            r.0@.id.id.len() == SESSION_KEY_LENGTH,
            forall|i: int| 0 <= i < r.0@.id.id.len() ==> is_key_char(#[trigger] r.0@.id.id[i]),
            r.0@.refresh_token.len() == REFRESH_TOKEN_LENGTH,
            forall|i: int|
                0 <= i < r.0@.refresh_token.len() ==> is_url_safe_char(
                    #[trigger] r.0@.refresh_token[i],
                ),
            command_views(r.1@) == r.0@.start_commands(),
    {
        let now = utc_timestamp();
        let refresh_token = Self::draw_refresh_token();
        let key = Self::draw_key();
        Self::init_with(target, now, key.as_str(), refresh_token)
    }

    /// Draws the key of a new session.
    fn draw_key() -> (key: String)
        ensures
            key@.len() == SESSION_KEY_LENGTH,
            forall|i: int| 0 <= i < key@.len() ==> is_key_char(#[trigger] key@[i]),
    {
        proof {
            lemma_alphabet();
        }
        let key = random_text(ALPHABET.as_slice(), SESSION_KEY_LENGTH);
        assert forall|i: int| 0 <= i < key@.len() implies is_key_char(#[trigger] key@[i]) by {
            let j = choose|j: int| 0 <= j < ALPHABET@.len() && ALPHABET@[j] == key@[i];
            assert(is_key_char(ALPHABET@[j]));
        }
        key
    }

    /// Draws a refresh token.
    fn draw_refresh_token() -> (token: String)
        ensures
            token@.len() == REFRESH_TOKEN_LENGTH,
            forall|i: int| 0 <= i < token@.len() ==> is_url_safe_char(#[trigger] token@[i]),
    {
        let alphabet = url_safe_alphabet();
        assert forall|i: int| 0 <= i < alphabet@.len() implies '\0' <= #[trigger] alphabet@[i]
            <= '\x7f' by {
            assert(is_url_safe_char(alphabet@[i]));
        }
        let token = random_text(alphabet.as_slice(), REFRESH_TOKEN_LENGTH);
        assert forall|i: int| 0 <= i < token@.len() implies is_url_safe_char(
            #[trigger] token@[i],
        ) by {
            let j = choose|j: int| 0 <= j < alphabet@.len() && alphabet@[j] == token@[i];
            assert(is_url_safe_char(alphabet@[j]));
        }
        token
    }

    /// The command that ends this session: its record goes. Ending a session
    /// that is gone already changes nothing.
    pub fn end(&self) -> (command: SessionCommand)
        ensures
            command@ == SessionCommandView::Delete(self@.id),
    {
        SessionCommand::Delete(self.id.clone())
    }

    /// Whether this session still lasts at `now`. One that does not is
    /// unauthorized, and comes with the command that removes it.
    pub fn is_valid_at(&self, now: i64) -> (r: (Result<(), ApplicationError>, Option<SessionCommand>))
        ensures
            self@.lasts_at(now) ==> r.0 is Ok && r.1 is None,
            !self@.lasts_at(now) ==> r.0 is Err && r.0->Err_0@ == ErrorView::Unauthorized && r.1
                is Some && r.1->Some_0@ == SessionCommandView::Delete(self@.id),
    {
        if now >= self.exp {
            (Err(ApplicationError::Unauthorized), Some(self.end()))
        } else {
            (Ok(()), None)
        }
    }

    /// Whether this session still lasts now. The answer is that of
    /// `is_valid_at` for the clock's second, whatever that is: a session that
    /// is found invalid comes with the command that removes it, a valid one
    /// with none.
    pub fn is_valid(&self) -> (r: (Result<(), ApplicationError>, Option<SessionCommand>))
        ensures
            r.0 is Ok ==> r.1 is None,
            r.0 is Err ==> r.0->Err_0@ == ErrorView::Unauthorized && r.1 is Some && r.1->Some_0@
                == SessionCommandView::Delete(self@.id),
            exists|now: i64| now < CLOCK_END && (r.0 is Ok <==> self@.lasts_at(now)),
    {
        let now = utc_timestamp();
        let r = self.is_valid_at(now);
        assert(now < CLOCK_END && (r.0 is Ok <==> self@.lasts_at(now)));
        r
    }

    /// Judges what the lookup of a session key found, at `now`: no session is
    /// unauthorized; a session that lasts is handed back; one that does not is
    /// unauthorized and comes with the command that removes it.
    pub fn is_session_valid_at(found: Option<Session>, now: i64) -> (r: (
        Result<Session, ApplicationError>,
        Option<SessionCommand>,
    ))
        ensures
            match found {
                None => r.0 is Err && r.0->Err_0@ == ErrorView::Unauthorized && r.1 is None,
                Some(session) => if session@.lasts_at(now) {
                    r.0 is Ok && r.0->Ok_0@ == session@ && r.1 is None
                } else {
                    r.0 is Err && r.0->Err_0@ == ErrorView::Unauthorized && r.1 is Some
                        && r.1->Some_0@ == SessionCommandView::Delete(session@.id)
                },
            },
    {
        match found {
            Some(session) => {
                let (valid, cleanup) = session.is_valid_at(now);
                if valid.is_ok() {
                    (Ok(session), cleanup)
                } else {
                    (Err(ApplicationError::Unauthorized), cleanup)
                }
            },
            None => (Err(ApplicationError::Unauthorized), None),
        }
    }

    /// Judges what the lookup of a session key found, now. No session is
    /// unauthorized; a session is handed back as it was found or refused as
    /// unauthorized, with the command that removes it.
    pub fn is_session_valid(found: Option<Session>) -> (r: (
        Result<Session, ApplicationError>,
        Option<SessionCommand>,
    ))
        ensures
            r.0 is Err ==> r.0->Err_0@ == ErrorView::Unauthorized,
            match found {
                None => r.0 is Err && r.1 is None,
                Some(session) => if r.0 is Ok {
                    r.0->Ok_0@ == session@ && r.1 is None
                } else {
                    r.1 is Some && r.1->Some_0@ == SessionCommandView::Delete(session@.id)
                },
            },
    {
        Self::is_session_valid_at(found, utc_timestamp())
    }

    /// Refreshes the session at `now` where `refresh_token` is the one it
    /// holds: it then lasts again from `now`, holds `next_token` in place of
    /// the token presented, and is to be stored so. Any other token is taken
    /// as a sign of theft: the session is unauthorized, stays as it is and is
    /// to be removed.
    pub fn refresh_with(&mut self, refresh_token: &str, now: i64, next_token: String) -> (r: (
        Result<(), ApplicationError>,
        SessionCommand,
    ))
        requires
            now + REFRESH_LENGTH <= i64::MAX,
        ensures
            old(self)@.refresh_token == refresh_token@ ==> r.0 is Ok && final(self)@ == old(
                self,
            )@.refreshed(now, next_token@) && r.1@ == SessionCommandView::Update(final(self)@),
            old(self)@.refresh_token != refresh_token@ ==> r.0 is Err && r.0->Err_0@
                == ErrorView::Unauthorized && final(self)@ == old(self)@ && r.1@
                == SessionCommandView::Delete(old(self)@.id),
    {
        if same_text(self.refresh_token.as_str(), refresh_token) {
            self.iat = now;
            self.exp = now + SESSION_LENGTH;
            self.refresh_token = next_token;
            self.refresh_exp = now + REFRESH_LENGTH;
            (Ok(()), SessionCommand::Update(self.clone()))
        } else {
            (Err(ApplicationError::Unauthorized), self.end())
        }
    }

    /// Refreshes the session now, with a new token drawn for it. Whether it
    /// succeeds is decided by the token alone, as in `refresh_with`.
    pub fn refresh(&mut self, refresh_token: &str) -> (r: (Result<(), ApplicationError>, SessionCommand))
        ensures
            old(self)@.refresh_token == refresh_token@ ==> {
                &&& r.0 is Ok
                &&& final(self)@ == old(self)@.refreshed(
                    final(self)@.iat,
                    final(self)@.refresh_token,
                )
                &&& final(self)@.refresh_token.len() == REFRESH_TOKEN_LENGTH
                &&& r.1@ == SessionCommandView::Update(final(self)@)
            },
            old(self)@.refresh_token != refresh_token@ ==> r.0 is Err && r.0->Err_0@
                == ErrorView::Unauthorized && final(self)@ == old(self)@ && r.1@
                == SessionCommandView::Delete(old(self)@.id),
    {
        let now = utc_timestamp();
        let next_token = Self::draw_refresh_token();
        self.refresh_with(refresh_token, now, next_token)
    }

    /// The record that a request's session key names. A key that is not of
    /// the form `session:key` names none.
    pub fn from_id(id: &str) -> (r: Result<Id, ApplicationError>)
        ensures
            names_record_of(id@, session_table()) ==> r is Ok && r->Ok_0@ == (IdView {
                table: session_table(),
                id: written_key(id@)->Some_0,
            }),
            !names_record_of(id@, session_table()) ==> r is Err && r->Err_0@
                == ErrorView::BadRequest("invalid id"@),
    {
        Id::try_from(("session", id))
    }
}

} // verus!
