//! The guard in front of the protected endpoints: a valid session, and for a
//! human the permission that the endpoint asks for.
//!
//! The guard looks nothing up itself. Each function takes what the last
//! lookup gave and says what is to be done next, until the request is admitted
//! or rejected.

use crate::auth::authz::permission::default_permission;
use crate::auth::authz::permission::Permission;
use crate::auth::authz::row_verdict;
use crate::auth::authz::PermissionCheck;
use crate::auth::session::session_table;
use crate::auth::session::Session;
use crate::auth::session::SessionCommand;
use crate::auth::session::SessionCommandView;
use crate::auth::session::SessionType;
use crate::auth::session::SessionTypeView;
use crate::data::account::Account;
use crate::database::id::names_record_of;
use crate::database::id::written_key;
use crate::database::id::Id;
use crate::database::id::IdView;
use crate::error::ApplicationError;
use crate::error::ErrorView;
use crate::text::after_last;
use crate::text::last_segment;
use vstd::prelude::*;

verus! {

/// What the guard asks for next.
#[derive(Debug)]
pub enum GuardStep {
    /// Look up the session with this identifier; `on_session` takes it.
    FindSession(Id),
    /// Look up the account with this identifier; `on_account` takes it.
    FindAccount(Id),
    /// Ask the grants whether the account holds the permission; `on_row`
    /// takes the row.
    FindGrant { account: Id, permission: Id },
    /// Let the request through.
    Admit,
    /// Answer the request with this error.
    Reject(ApplicationError),
}

/// A `GuardStep` over the views of its parts.
pub ghost enum GuardStepView {
    FindSession(IdView),
    FindAccount(IdView),
    FindGrant { account: IdView, permission: IdView },
    Admit,
    Reject(ErrorView),
}

impl View for GuardStep {
    type V = GuardStepView;

    open spec fn view(&self) -> GuardStepView {
        match self {
            GuardStep::FindSession(id) => GuardStepView::FindSession(id@),
            GuardStep::FindAccount(id) => GuardStepView::FindAccount(id@),
            GuardStep::FindGrant { account, permission } => GuardStepView::FindGrant {
                account: account@,
                permission: permission@,
            },
            GuardStep::Admit => GuardStepView::Admit,
            GuardStep::Reject(e) => GuardStepView::Reject(e@),
        }
    }
}

/// The session key in the value of an authorization header: what stands
/// behind its last blank, or all of it where it holds none.
pub open spec fn bearer(header: Seq<char>) -> Seq<char> {
    after_last(header, ' ')
}

/// The session key in the value of an authorization header. It holds no
/// blank.
pub fn bearer_token(header: &str) -> (token: &str)
    ensures
        token@ == bearer(header@),
        !token@.contains(' '),
{
    last_segment(header, ' ')
}

/// Meets a request with this authorization header, if it has
/// one. Without a header the request is unauthorized; a key that does not
/// name a session is a bad request; for any other the session has to be
/// looked up.
pub fn require_session(header: Option<&str>) -> (step: GuardStep)
    ensures
        match header {
            None => step@ == GuardStepView::Reject(ErrorView::Unauthorized),
            Some(value) => if names_record_of(bearer(value@), session_table()) {
                step@ == GuardStepView::FindSession(
                    IdView { table: session_table(), id: written_key(bearer(value@))->Some_0 },
                )
            } else {
                step@ == GuardStepView::Reject(ErrorView::BadRequest("invalid id"@))
            },
        },
{
    match header {
        None => GuardStep::Reject(ApplicationError::Unauthorized),
        Some(value) => match Session::from_id(bearer_token(value)) {
            Ok(id) => GuardStep::FindSession(id),
            Err(e) => GuardStep::Reject(e),
        },
    }
}

/// Takes what the lookup of the session gave, at `now`. No session, or one
/// whose time is over, is unauthorized, and the latter is to be removed. A
/// machine's session is let through as it is; for a human's the account has
/// to be looked up.
pub fn on_session_at(found: Option<&Session>, now: i64) -> (r: (GuardStep, Option<SessionCommand>))
    ensures
        match found {
            None => r.0@ == GuardStepView::Reject(ErrorView::Unauthorized) && r.1 is None,
            Some(session) => if !session@.lasts_at(now) {
                r.0@ == GuardStepView::Reject(ErrorView::Unauthorized) && r.1 is Some
                    && r.1->Some_0@ == SessionCommandView::Delete(session@.id)
            } else {
                r.1 is None && r.0@ == match session@.target {
                    SessionTypeView::Human(id) => GuardStepView::FindAccount(id),
                    SessionTypeView::Machine(_) => GuardStepView::Admit,
                }
            },
        },
{
    match found {
        None => (GuardStep::Reject(ApplicationError::Unauthorized), None),
        Some(session) => {
            let (valid, cleanup) = session.is_valid_at(now);
            match valid {
                Err(e) => (GuardStep::Reject(e), cleanup),
                Ok(_) => match &session.target {
                    SessionType::Human(id) => (GuardStep::FindAccount(id.clone()), cleanup),
                    SessionType::Machine(_) => (GuardStep::Admit, cleanup),
                },
            }
        },
    }
}

/// Takes what the lookup of the session gave, now. The steps are those of
/// `on_session_at`; which of them is taken for a session that was found
/// depends on the clock alone.
pub fn on_session(found: Option<&Session>) -> (r: (GuardStep, Option<SessionCommand>))
    ensures
        match found {
            None => r.0@ == GuardStepView::Reject(ErrorView::Unauthorized) && r.1 is None,
            Some(session) => if r.1 is Some {
                r.0@ == GuardStepView::Reject(ErrorView::Unauthorized) && r.1->Some_0@
                    == SessionCommandView::Delete(session@.id)
            } else {
                r.0@ == match session@.target {
                    SessionTypeView::Human(id) => GuardStepView::FindAccount(id),
                    SessionTypeView::Machine(_) => GuardStepView::Admit,
                }
            },
        },
{
    match found {
        None => (GuardStep::Reject(ApplicationError::Unauthorized), None),
        Some(session) => {
            let (valid, cleanup) = session.is_valid();
            match valid {
                Err(e) => (GuardStep::Reject(e), cleanup),
                Ok(_) => match &session.target {
                    SessionType::Human(id) => (GuardStep::FindAccount(id.clone()), cleanup),
                    SessionType::Machine(_) => (GuardStep::Admit, cleanup),
                },
            }
        },
    }
}

/// Takes what the lookup of the session's account gave, for an endpoint that
/// asks for `required`. A session without its account is unauthorized. The
/// default permission lets every account through; for any other the grants
/// have to be asked.
pub fn on_account(found: Option<&Account>, required: &Permission) -> (step: GuardStep)
    ensures
        match found {
            None => step@ == GuardStepView::Reject(ErrorView::Unauthorized),
            Some(account) => if required@ == default_permission() {
                step@ == GuardStepView::Admit
            } else {
                step@ == (GuardStepView::FindGrant { account: account@.id, permission: required@ })
            },
        },
{
    match found {
        None => GuardStep::Reject(ApplicationError::Unauthorized),
        Some(account) => match account.has_permission(required) {
            PermissionCheck::Granted => GuardStep::Admit,
            PermissionCheck::Lookup { account, permission } => GuardStep::FindGrant {
                account,
                permission,
            },
        },
    }
}

/// Takes the row that the grants gave. Only a row that says yes lets the
/// request through; whatever else came back, the request is unauthorized.
pub fn on_row(row: Option<bool>) -> (step: GuardStep)
    ensures
        row_verdict(row) is Ok ==> step@ == GuardStepView::Admit,
        row_verdict(row) is Err ==> step@ == GuardStepView::Reject(ErrorView::Unauthorized),
{
    match Account::permission_verdict(row) {
        Ok(_) => GuardStep::Admit,
        Err(_) => GuardStep::Reject(ApplicationError::Unauthorized),
    }
}

} // verus!
