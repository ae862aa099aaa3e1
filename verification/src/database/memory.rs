//! The session table and the grants, as the rest of this crate understands
//! them.
//!
//! `after_command` defines what each `SessionCommand` does to the stored
//! sessions, and `after_grant` what a `GrantCommand` does to the grants.
//! `SessionTable` and `GrantTable` keep them in memory and carry the commands
//! out to the letter; a database behind the service has to do the same.

use crate::auth::authz::after_grant;
use crate::auth::authz::lookup_row;
use crate::auth::authz::Grant;
use crate::auth::authz::GrantCommand;
use crate::auth::session::Session;
use crate::auth::session::SessionCommand;
use crate::auth::session::SessionCommandView;
use crate::auth::session::SessionView;
use crate::auth::session::REFRESH_LENGTH;
use crate::auth::session::SESSION_LENGTH;
use crate::database::id::Id;
use crate::database::id::IdView;
use crate::error::ApplicationError;
use crate::text::same_text;
use vstd::prelude::*;

verus! {

/// The test that the sessions of a target pass.
pub open spec fn has_target(target: Seq<char>) -> spec_fn(SessionView) -> bool {
    |s: SessionView| s.target.text() == target
}

/// The test that the sessions of every other target pass.
pub open spec fn lacks_target(target: Seq<char>) -> spec_fn(SessionView) -> bool {
    |s: SessionView| s.target.text() != target
}

/// The test that the sessions under every other key pass.
pub open spec fn lacks_key(id: IdView) -> spec_fn(SessionView) -> bool {
    |s: SessionView| s.id != id
}

/// The test that every session passes.
pub open spec fn keeps_all() -> spec_fn(SessionView) -> bool {
    |s: SessionView| true
}

/// Whether a session is stored under `id`.
pub open spec fn holds_key(sessions: Seq<SessionView>, id: IdView) -> bool {
    exists|i: int| 0 <= i < sessions.len() && (#[trigger] sessions[i]).id == id
}

/// Whether no two of the sessions share a key.
pub open spec fn distinct_keys(sessions: Seq<SessionView>) -> bool {
    forall|i: int, j: int|
        0 <= i < sessions.len() && 0 <= j < sessions.len() && i != j ==> (#[trigger] sessions[i]).id
            != (#[trigger] sessions[j]).id
}

/// The session stored under `id`, if there is one.
pub open spec fn lookup(sessions: Seq<SessionView>, id: IdView) -> Option<SessionView> {
    if holds_key(sessions, id) {
        Some(sessions[choose|i: int| 0 <= i < sessions.len() && (#[trigger] sessions[i]).id == id])
    } else {
        None
    }
}

/// The stored sessions of the target written `target`.
pub open spec fn sessions_of(sessions: Seq<SessionView>, target: Seq<char>) -> Seq<SessionView> {
    sessions.filter(has_target(target))
}

/// Whether the table takes the command: all but the creation of a session
/// under a key that is taken.
pub open spec fn accepts(sessions: Seq<SessionView>, command: SessionCommandView) -> bool {
    match command {
        SessionCommandView::Create(id, _) => !holds_key(sessions, id),
        _ => true,
    }
}

/// The stored sessions after a command. One that the table does not take
/// leaves them as they are.
pub open spec fn after_command(
    sessions: Seq<SessionView>,
    command: SessionCommandView,
) -> Seq<SessionView> {
    match command {
        SessionCommandView::DeleteTarget(target) => sessions.filter(lacks_target(target)),
        SessionCommandView::Create(id, content) => {
            if holds_key(sessions, id) {
                sessions
            } else {
                sessions.push(content.stored_as(id))
            }
        },
        SessionCommandView::Update(session) => sessions.filter(lacks_key(session.id)).push(session),
        SessionCommandView::Delete(id) => sessions.filter(lacks_key(id)),
    }
}

/// The stored sessions after some commands, carried out in their order.
pub open spec fn after_commands(
    sessions: Seq<SessionView>,
    commands: Seq<SessionCommandView>,
) -> Seq<SessionView>
    decreases commands.len(),
{
    if commands.len() == 0 {
        sessions
    } else {
        after_commands(after_command(sessions, commands[0]), commands.drop_first())
    }
}

/// The views of some sessions, in their order.
pub open spec fn session_views(sessions: Seq<Session>) -> Seq<SessionView> {
    sessions.map_values(|s: Session| s@)
}

/// What passes a test was there before, and passes it.
pub proof fn lemma_filtered(sessions: Seq<SessionView>, keep: spec_fn(SessionView) -> bool)
    ensures
        forall|i: int|
            0 <= i < sessions.filter(keep).len() ==> keep(#[trigger] sessions.filter(keep)[i])
                && sessions.contains(sessions.filter(keep)[i]),
        forall|i: int|
            0 <= i < sessions.len() && keep(sessions[i]) ==> sessions.filter(keep).contains(
                #[trigger] sessions[i],
            ),
        distinct_keys(sessions) ==> distinct_keys(sessions.filter(keep)),
    decreases sessions.len(),
{
    reveal(Seq::filter);
    let kept = sessions.filter(keep);
    if sessions.len() > 0 {
        let front = sessions.drop_last();
        let last = sessions.last();
        lemma_filtered(front, keep);
        assert forall|i: int| 0 <= i < kept.len() implies keep(#[trigger] kept[i])
            && sessions.contains(kept[i]) by {
            if i < front.filter(keep).len() {
                let e = front.filter(keep)[i];
                assert(front.contains(e));
                let k = choose|k: int| 0 <= k < front.len() && front[k] == e;
                assert(sessions[k] == e);
            } else {
                assert(kept[i] == last);
                assert(sessions[sessions.len() - 1] == last);
            }
        }
        assert forall|i: int| 0 <= i < sessions.len() && keep(sessions[i]) implies kept.contains(
            #[trigger] sessions[i],
        ) by {
            if i < front.len() {
                assert(front[i] == sessions[i]);
                assert(front.filter(keep).contains(front[i]));
                let k = choose|k: int|
                    0 <= k < front.filter(keep).len() && front.filter(keep)[k] == front[i];
                assert(kept[k] == sessions[i]);
            } else {
                assert(kept[kept.len() - 1] == last);
            }
        }
        if distinct_keys(sessions) {
            assert(distinct_keys(front)) by {
                assert forall|i: int, j: int|
                    0 <= i < front.len() && 0 <= j < front.len() && i != j implies (
                #[trigger] front[i]).id != (#[trigger] front[j]).id by {
                    assert(sessions[i].id != sessions[j].id);
                }
            }
            assert forall|i: int, j: int|
                0 <= i < kept.len() && 0 <= j < kept.len() && i != j implies (#[trigger] kept[i]).id
                != (#[trigger] kept[j]).id by {
                let inner = front.filter(keep);
                if i < inner.len() && j < inner.len() {
                    assert(inner[i].id != inner[j].id);
                } else {
                    let m = if i < inner.len() { i } else { j };
                    assert(m < inner.len());
                    assert(front.contains(inner[m]));
                    let k = choose|k: int| 0 <= k < front.len() && front[k] == inner[m];
                    assert(sessions[k].id != sessions[sessions.len() - 1].id);
                }
            }
        }
    }
}

/// What every session passes keeps them all.
pub proof fn lemma_keeps_all(sessions: Seq<SessionView>)
    ensures
        sessions.filter(keeps_all()) == sessions,
    decreases sessions.len(),
{
    reveal(Seq::filter);
    if sessions.len() > 0 {
        lemma_keeps_all(sessions.drop_last());
        assert(sessions.drop_last().push(sessions.last()) =~= sessions);
    }
}

/// Among sessions with distinct keys, the one at a position is the one that
/// its key looks up.
pub proof fn lemma_lookup_at(sessions: Seq<SessionView>, i: int)
    requires
        distinct_keys(sessions),
        0 <= i < sessions.len(),
    ensures
        holds_key(sessions, sessions[i].id),
        lookup(sessions, sessions[i].id) == Some(sessions[i]),
{
    let id = sessions[i].id;
    let k = choose|k: int| 0 <= k < sessions.len() && (#[trigger] sessions[k]).id == id;
    if k != i {
        assert(sessions[k].id != sessions[i].id);
    }
}

/// Removing the session under a key leaves none under it.
pub proof fn lemma_delete_removes(sessions: Seq<SessionView>, id: IdView)
    requires
        distinct_keys(sessions),
    ensures
        lookup(after_command(sessions, SessionCommandView::Delete(id)), id) is None,
        distinct_keys(after_command(sessions, SessionCommandView::Delete(id))),
{
    let left = sessions.filter(lacks_key(id));
    lemma_filtered(sessions, lacks_key(id));
    if holds_key(left, id) {
        let i = choose|i: int| 0 <= i < left.len() && (#[trigger] left[i]).id == id;
        assert(lacks_key(id)(left[i]));
    }
}

/// Removing the session under a key leaves every session under another key
/// where it was.
pub proof fn lemma_delete_spares(sessions: Seq<SessionView>, id: IdView, other: IdView)
    requires
        distinct_keys(sessions),
        other != id,
    ensures
        lookup(after_command(sessions, SessionCommandView::Delete(id)), other) == lookup(
            sessions,
            other,
        ),
{
    let left = sessions.filter(lacks_key(id));
    lemma_filtered(sessions, lacks_key(id));
    if holds_key(sessions, other) {
        let i = choose|i: int| 0 <= i < sessions.len() && (#[trigger] sessions[i]).id == other;
        lemma_lookup_at(sessions, i);
        assert(lacks_key(id)(sessions[i]));
        assert(left.contains(sessions[i]));
        let k = choose|k: int| 0 <= k < left.len() && left[k] == sessions[i];
        lemma_lookup_at(left, k);
    } else if holds_key(left, other) {
        let k = choose|k: int| 0 <= k < left.len() && (#[trigger] left[k]).id == other;
        assert(sessions.contains(left[k]));
        let i = choose|i: int| 0 <= i < sessions.len() && sessions[i] == left[k];
        assert(sessions[i].id == other);
    }
}

/// Storing a session under its key leaves exactly that session under it.
pub proof fn lemma_update_stores(sessions: Seq<SessionView>, session: SessionView)
    requires
        distinct_keys(sessions),
    ensures
        lookup(after_command(sessions, SessionCommandView::Update(session)), session.id) == Some(
            session,
        ),
        distinct_keys(after_command(sessions, SessionCommandView::Update(session))),
{
    let left = sessions.filter(lacks_key(session.id));
    let now = left.push(session);
    lemma_filtered(sessions, lacks_key(session.id));
    assert forall|i: int, j: int|
        0 <= i < now.len() && 0 <= j < now.len() && i != j implies (#[trigger] now[i]).id != (
    #[trigger] now[j]).id by {
        if i < left.len() && j < left.len() {
            assert(left[i].id != left[j].id);
        } else if i < left.len() {
            assert(lacks_key(session.id)(left[i]));
        } else {
            assert(lacks_key(session.id)(left[j]));
        }
    }
    assert(now[left.len() as int] == session);
    lemma_lookup_at(now, left.len() as int);
}

/// Starting a session leaves its target with that session and no other,
/// whatever was stored before: the one law of the session table. The key of
/// the new session has to be free once the target's earlier sessions are gone.
pub proof fn lemma_start_leaves_one_session(sessions: Seq<SessionView>, session: SessionView)
    requires
        distinct_keys(sessions),
        accepts(
            after_command(sessions, SessionCommandView::DeleteTarget(session.target.text())),
            SessionCommandView::Create(session.id, session.content()),
        ),
    ensures
        sessions_of(after_commands(sessions, session.start_commands()), session.target.text())
            == seq![session],
        lookup(after_commands(sessions, session.start_commands()), session.id) == Some(session),
        distinct_keys(after_commands(sessions, session.start_commands())),
{
    let target = session.target.text();
    let commands = session.start_commands();
    let purged = sessions.filter(lacks_target(target));
    let stored = purged.push(session);
    assert(session.content().stored_as(session.id) == session);
    assert(after_commands(sessions, commands) == stored) by {
        reveal_with_fuel(after_commands, 3);
        assert(commands.drop_first() =~= seq![commands[1]]);
        assert(commands.drop_first().drop_first() =~= Seq::<SessionCommandView>::empty());
    }
    lemma_filtered(sessions, lacks_target(target));
    lemma_filtered(purged, has_target(target));
    let rest = purged.filter(has_target(target));
    if rest.len() > 0 {
        assert(purged.contains(rest[0]));
        let k = choose|k: int| 0 <= k < purged.len() && purged[k] == rest[0];
        assert(lacks_target(target)(purged[k]));
        assert(has_target(target)(rest[0]));
    }
    assert(rest =~= Seq::<SessionView>::empty());
    assert(stored =~= purged + seq![session]);
    Seq::filter_distributes_over_add(purged, seq![session], has_target(target));
    assert(seq![session].filter(has_target(target)) =~= seq![session]) by {
        reveal_with_fuel(Seq::filter, 2);
        assert(seq![session].drop_last() =~= Seq::<SessionView>::empty());
    }
    assert(sessions_of(stored, target) =~= seq![session]);
    assert forall|i: int, j: int|
        0 <= i < stored.len() && 0 <= j < stored.len() && i != j implies (#[trigger] stored[i]).id
        != (#[trigger] stored[j]).id by {
        if i < purged.len() && j < purged.len() {
            assert(purged[i].id != purged[j].id);
        } else if i < purged.len() {
            assert(purged[i].id != session.id);
        } else {
            assert(purged[j].id != session.id);
        }
    }
    assert(stored[purged.len() as int] == session);
    lemma_lookup_at(stored, purged.len() as int);
}

/// After two sessions were started for one target, one after the other, the
/// target has exactly one session: the second.
pub proof fn lemma_second_start_replaces_first(
    sessions: Seq<SessionView>,
    first: SessionView,
    second: SessionView,
)
    requires
        distinct_keys(sessions),
        first.target.text() == second.target.text(),
        accepts(
            after_command(sessions, SessionCommandView::DeleteTarget(first.target.text())),
            SessionCommandView::Create(first.id, first.content()),
        ),
        accepts(
            after_command(
                after_commands(sessions, first.start_commands()),
                SessionCommandView::DeleteTarget(second.target.text()),
            ),
            SessionCommandView::Create(second.id, second.content()),
        ),
    ensures
        sessions_of(
            after_commands(
                after_commands(sessions, first.start_commands()),
                second.start_commands(),
            ),
            second.target.text(),
        ) == seq![second],
{
    lemma_start_leaves_one_session(sessions, first);
    lemma_start_leaves_one_session(after_commands(sessions, first.start_commands()), second);
}

/// A stored session whose time is over is gone once the command that its
/// validity check hands out has been carried out, and every session under
/// another key is where it was.
pub proof fn lemma_expired_session_goes(
    sessions: Seq<SessionView>,
    session: SessionView,
    now: i64,
    other: IdView,
)
    requires
        distinct_keys(sessions),
        lookup(sessions, session.id) == Some(session),
        !session.lasts_at(now),
        other != session.id,
    ensures
        lookup(after_command(sessions, SessionCommandView::Delete(session.id)), session.id) is None,
        lookup(after_command(sessions, SessionCommandView::Delete(session.id)), other) == lookup(
            sessions,
            other,
        ),
{
    lemma_delete_removes(sessions, session.id);
    lemma_delete_spares(sessions, session.id, other);
}

/// A refresh with the right token keeps the session alive: stored as the
/// refresh left it, it is found under its old key, for its old target, with
/// the new token, and lasts from the moment of the refresh.
pub proof fn lemma_refresh_keeps_session(
    sessions: Seq<SessionView>,
    session: SessionView,
    now: i64,
    next_token: Seq<char>,
)
    requires
        distinct_keys(sessions),
        now + REFRESH_LENGTH <= i64::MAX,
    ensures
        lookup(
            after_command(
                sessions,
                SessionCommandView::Update(session.refreshed(now, next_token)),
            ),
            session.id,
        ) == Some(session.refreshed(now, next_token)),
        session.refreshed(now, next_token).target == session.target,
        session.refreshed(now, next_token).refresh_token == next_token,
        session.refreshed(now, next_token).iat == now,
        session.refreshed(now, next_token).exp == now + SESSION_LENGTH,
        session.refreshed(now, next_token).refresh_exp == now + REFRESH_LENGTH,
        session.refreshed(now, next_token).lasts_at(now),
{
    lemma_update_stores(sessions, session.refreshed(now, next_token));
}

/// A refresh with a wrong token ends the session: once its command has been
/// carried out no session is found under the key, so that every later check
/// of that key finds nothing.
pub proof fn lemma_wrong_token_ends_session(sessions: Seq<SessionView>, session: SessionView)
    requires
        distinct_keys(sessions),
    ensures
        lookup(after_command(sessions, SessionCommandView::Delete(session.id)), session.id) is None,
{
    lemma_delete_removes(sessions, session.id);
}

/// The sessions of a table, kept in memory.
pub struct SessionTable {
    sessions: Vec<Session>,
}

impl View for SessionTable {
    type V = Seq<SessionView>;

    closed spec fn view(&self) -> Seq<SessionView> {
        session_views(self.sessions@)
    }
}

impl SessionTable {
    #[verifier::type_invariant]
    spec fn well_formed(self) -> bool {
        distinct_keys(session_views(self.sessions@))
    }

    /// A table without sessions.
    pub fn new() -> (table: Self)
        ensures
            table@ == Seq::<SessionView>::empty(),
    {
        let table = SessionTable { sessions: Vec::new() };
        assert(session_views(table.sessions@) =~= Seq::<SessionView>::empty());
        table
    }

    /// The number of sessions stored. No two of them share a key.
    pub fn len(&self) -> (n: usize)
        ensures
            n == self@.len(),
            distinct_keys(self@),
    {
        proof {
            use_type_invariant(self);
        }
        self.sessions.len()
    }

    /// The session stored under `id`, if there is one.
    pub fn select(&self, id: &Id) -> (found: Option<Session>)
        ensures
            match found {
                Some(session) => lookup(self@, id@) == Some(session@),
                None => lookup(self@, id@) is None,
            },
    {
        proof {
            use_type_invariant(self);
        }
        let ghost all = session_views(self.sessions@);
        let mut i: usize = 0;
        while i < self.sessions.len()
            invariant
                i <= self.sessions.len(),
                all == session_views(self.sessions@),
                distinct_keys(all),
                forall|k: int| 0 <= k < i ==> (#[trigger] all[k]).id != id@,
            decreases self.sessions.len() - i,
        {
            if self.sessions[i].id == *id {
                proof {
                    lemma_lookup_at(all, i as int);
                }
                return Some(self.sessions[i].clone());
            }
            i = i + 1;
        }
        None
    }

    /// A session of the target written `target`, if one is stored.
    pub fn fetch(&self, target: &str) -> (found: Option<Session>)
        ensures
            match found {
                Some(session) => self@.contains(session@) && session@.target.text() == target@,
                None => sessions_of(self@, target@).len() == 0,
            },
    {
        let ghost all = session_views(self.sessions@);
        let mut i: usize = 0;
        while i < self.sessions.len()
            invariant
                i <= self.sessions.len(),
                all == session_views(self.sessions@),
                forall|k: int| 0 <= k < i ==> (#[trigger] all[k]).target.text() != target@,
            decreases self.sessions.len() - i,
        {
            let text = self.sessions[i].target.to_string();
            if same_text(text.as_str(), target) {
                assert(all[i as int] == self.sessions[i as int]@);
                return Some(self.sessions[i].clone());
            }
            i = i + 1;
        }
        proof {
            lemma_filtered(all, has_target(target@));
            let kept = sessions_of(all, target@);
            if kept.len() > 0 {
                assert(all.contains(kept[0]));
                let k = choose|k: int| 0 <= k < all.len() && all[k] == kept[0];
                assert(all[k].target.text() != target@);
            }
        }
        None
    }

    /// Rebuilds the table of the sessions that pass `keep` (those of another
    /// target than `target`, or under another key than `key`; all where neither
    /// is given), with `extra` behind them.
    fn rebuild(
        &mut self,
        target: Option<&str>,
        key: Option<&Id>,
        extra: Option<Session>,
        Ghost(keep): Ghost<spec_fn(SessionView) -> bool>,
    )
        requires
            match (target, key) {
                (Some(t), None) => keep == lacks_target(t@),
                (None, Some(k)) => keep == lacks_key(k@),
                (None, None) => keep == keeps_all(),
                _ => false,
            },
            extra is Some ==> !holds_key(old(self)@.filter(keep), extra->Some_0@.id),
        ensures
            final(self)@ == match extra {
                Some(session) => old(self)@.filter(keep).push(session@),
                None => old(self)@.filter(keep),
            },
    {
        proof {
            use_type_invariant(&*self);
        }
        let ghost all = session_views(self.sessions@);
        let mut kept: Vec<Session> = Vec::new();
        let mut i: usize = 0;
        proof {
            reveal(Seq::filter);
            assert(all.subrange(0, 0) =~= Seq::<SessionView>::empty());
            assert(session_views(kept@) =~= Seq::<SessionView>::empty());
        }
        while i < self.sessions.len()
            invariant
                i <= self.sessions.len(),
                all == session_views(self.sessions@),
                session_views(kept@) == all.subrange(0, i as int).filter(keep),
                match (target, key) {
                    (Some(t), None) => keep == lacks_target(t@),
                    (None, Some(k)) => keep == lacks_key(k@),
                    (None, None) => keep == keeps_all(),
                    _ => false,
                },
            decreases self.sessions.len() - i,
        {
            let stays = match (target, key) {
                (Some(t), _) => {
                    let text = self.sessions[i].target.to_string();
                    !same_text(text.as_str(), t)
                },
                (_, Some(k)) => !(self.sessions[i].id == *k),
                _ => true,
            };
            proof {
                reveal(Seq::filter);
                let next = all.subrange(0, i as int + 1);
                assert(next.drop_last() =~= all.subrange(0, i as int));
                assert(next.last() == all[i as int]);
                assert(all[i as int] == self.sessions[i as int]@);
                assert(stays == keep(all[i as int]));
            }
            if stays {
                let ghost before = session_views(kept@);
                kept.push(self.sessions[i].clone());
                assert(session_views(kept@) =~= before.push(all[i as int]));
            }
            i = i + 1;
        }
        proof {
            assert(all.subrange(0, i as int) =~= all);
            lemma_filtered(all, keep);
        }
        match extra {
            Some(session) => {
                let ghost before = session_views(kept@);
                kept.push(session);
                proof {
                    let now = session_views(kept@);
                    assert(now =~= before.push(session@));
                    assert forall|i: int, j: int|
                        0 <= i < now.len() && 0 <= j < now.len() && i != j implies (
                    #[trigger] now[i]).id != (#[trigger] now[j]).id by {
                        if i < before.len() && j < before.len() {
                            assert(before[i].id != before[j].id);
                        } else if i < before.len() {
                            assert(before[i].id != session@.id);
                        } else {
                            assert(before[j].id != session@.id);
                        }
                    }
                }
            },
            None => {},
        }
        self.sessions = kept;
    }

    /// Carries out `command`. Only the creation of a session under a key that
    /// is taken fails, as an error of the database, and changes nothing.
    pub fn perform(&mut self, command: &SessionCommand) -> (r: Result<(), ApplicationError>)
        ensures
            final(self)@ == after_command(old(self)@, command@),
            r is Ok <==> accepts(old(self)@, command@),
            r is Err ==> r->Err_0@ is SurrealdbError,
    {
        match command {
            SessionCommand::DeleteTarget(target) => {
                self.rebuild(Some(target.as_str()), None, None, Ghost(lacks_target(target@)));
                Ok(())
            },
            SessionCommand::Delete(id) => {
                self.rebuild(None, Some(id), None, Ghost(lacks_key(id@)));
                Ok(())
            },
            SessionCommand::Update(session) => {
                proof {
                    lemma_filtered(self@, lacks_key(session@.id));
                }
                self.rebuild(
                    None,
                    Some(&session.id),
                    Some(session.clone()),
                    Ghost(lacks_key(session@.id)),
                );
                Ok(())
            },
            SessionCommand::Create(id, content) => {
                if self.select(id).is_some() {
                    Err(ApplicationError::SurrealdbError("record already exists".to_owned()))
                } else {
                    proof {
                        lemma_keeps_all(self@);
                    }
                    let session = Session {
                        id: id.clone(),
                        target: content.target.clone(),
                        iat: content.iat,
                        exp: content.exp,
                        refresh_token: content.refresh_token.clone(),
                        refresh_exp: content.refresh_exp,
                    };
                    self.rebuild(None, None, Some(session), Ghost(keeps_all()));
                    Ok(())
                }
            },
        }
    }
}

/// The views of some edges, in their order.
pub open spec fn grant_views(grants: Seq<(Id, Id)>) -> Seq<Grant> {
    grants.map_values(|g: (Id, Id)| (g.0@, g.1@))
}

/// The grants, kept in memory.
pub struct GrantTable {
    grants: Vec<(Id, Id)>,
}

impl View for GrantTable {
    type V = Seq<Grant>;

    closed spec fn view(&self) -> Seq<Grant> {
        grant_views(self.grants@)
    }
}

impl GrantTable {
    /// A table without grants.
    pub fn new() -> (table: Self)
        ensures
            table@ == Seq::<Grant>::empty(),
    {
        let table = GrantTable { grants: Vec::new() };
        assert(grant_views(table.grants@) =~= Seq::<Grant>::empty());
        table
    }

    /// Carries out `command`.
    pub fn perform(&mut self, command: &GrantCommand)
        ensures
            final(self)@ == after_grant(old(self)@, command@),
    {
        let ghost before = grant_views(self.grants@);
        match command {
            GrantCommand::Relate { account, permission } => {
                self.grants.push((account.clone(), permission.clone()));
                assert(grant_views(self.grants@) =~= before.push((account@, permission@)));
            },
        }
    }

    /// The row that answers the lookup of a check: whether the account holds
    /// the permission. This table always has a row to give.
    pub fn lookup(&self, account: &Id, permission: &Id) -> (row: Option<bool>)
        ensures
            row == lookup_row(self@, account@, permission@),
    {
        let ghost all = grant_views(self.grants@);
        let mut i: usize = 0;
        while i < self.grants.len()
            invariant
                i <= self.grants.len(),
                all == grant_views(self.grants@),
                forall|k: int| 0 <= k < i ==> #[trigger] all[k] != (account@, permission@),
            decreases self.grants.len() - i,
        {
            if self.grants[i].0 == *account && self.grants[i].1 == *permission {
                assert(all[i as int] == (account@, permission@));
                return Some(true);
            }
            i = i + 1;
        }
        Some(false)
    }
}

} // verus!
