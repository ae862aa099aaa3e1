//! Who may do what: permissions, and the grants that give them to accounts.
//!
//! A grant is an edge from an account to a permission. Like the sessions, the
//! edges are stored elsewhere: a check says what has to be looked up and judges
//! the answer, and a grant is a command for the caller to carry out.

pub mod permission;

use crate::auth::authz::permission::catalog_keys;
use crate::auth::authz::permission::default_permission;
use crate::auth::authz::permission::permission_of;
use crate::auth::authz::permission::plain_text;
use crate::auth::authz::permission::Permission;
use crate::auth::authz::permission::PERMISSIONS;
use crate::data::account::Account;
use crate::database::id::Id;
use crate::database::id::IdView;
use crate::error::ApplicationError;
use crate::error::ErrorKind;
use crate::text::same_text;
use vstd::prelude::*;

verus! {

/// What the check of a permission comes to before anything is looked up.
#[derive(Debug)]
pub enum PermissionCheck {
    /// The permission is the one that every account has.
    Granted,
    /// Whether the account holds the permission has to be looked up.
    Lookup { account: Id, permission: Id },
}

/// A `PermissionCheck` over the views of its identifiers.
pub ghost enum PermissionCheckView {
    Granted,
    Lookup { account: IdView, permission: IdView },
}

impl View for PermissionCheck {
    type V = PermissionCheckView;

    open spec fn view(&self) -> PermissionCheckView {
        match self {
            PermissionCheck::Granted => PermissionCheckView::Granted,
            PermissionCheck::Lookup { account, permission } => PermissionCheckView::Lookup {
                account: account@,
                permission: permission@,
            },
        }
    }
}

/// A change to the grants that the caller has to carry out.
#[derive(Debug)]
pub enum GrantCommand {
    /// Draw an edge from the account to the permission.
    Relate { account: Id, permission: Id },
}

/// A `GrantCommand` over the views of its identifiers.
pub ghost enum GrantCommandView {
    Relate { account: IdView, permission: IdView },
}

impl View for GrantCommand {
    type V = GrantCommandView;

    open spec fn view(&self) -> GrantCommandView {
        match self {
            GrantCommand::Relate { account, permission } => GrantCommandView::Relate {
                account: account@,
                permission: permission@,
            },
        }
    }
}

/// An edge of the grants: the account, and the permission it holds.
pub type Grant = (IdView, IdView);

/// The grants after a command: one edge more. An edge that was there before
/// is then there twice.
pub open spec fn after_grant(grants: Seq<Grant>, command: GrantCommandView) -> Seq<Grant> {
    grants.push((command->account, command->permission))
}

/// The row that the lookup of a check gives back over these grants: whether
/// the edge is among them.
pub open spec fn lookup_row(grants: Seq<Grant>, account: IdView, permission: IdView) -> Option<
    bool,
> {
    Some(grants.contains((account, permission)))
}

/// What the row of a lookup means: the edge is there, the edge is missing, or
/// the database gave no row, which it never should.
pub open spec fn row_verdict(row: Option<bool>) -> Result<(), ErrorKind> {
    match row {
        Some(true) => Ok(()),
        Some(false) => Err(ErrorKind::Unauthorized),
        None => Err(ErrorKind::InternalServerError),
    }
}

/// Whether an account may use a permission, by the grants: the default
/// permission always, any other where the edge is there.
pub open spec fn authorization(grants: Seq<Grant>, account: IdView, permission: IdView) -> Result<
    (),
    ErrorKind,
> {
    if permission == default_permission() {
        Ok(())
    } else {
        row_verdict(lookup_row(grants, account, permission))
    }
}

impl Account {
    /// Starts the check of a permission. The default permission is granted on
    /// the spot, whatever the account holds; for any other the grants have to
    /// be asked, and `permission_verdict` judges their answer.
    pub fn has_permission(&self, permission: &Permission) -> (check: PermissionCheck)
        ensures
            permission@ == default_permission() ==> check@ == PermissionCheckView::Granted,
            permission@ != default_permission() ==> check@ == (PermissionCheckView::Lookup {
                account: self@.id,
                permission: permission@,
            }),
    {
        if permission.is_default() {
            PermissionCheck::Granted
        } else {
            PermissionCheck::Lookup { account: self.id.clone(), permission: permission.id.clone() }
        }
    }

    /// Judges the row that the lookup of a check gave back.
    pub fn permission_verdict(row: Option<bool>) -> (r: Result<(), ApplicationError>)
        ensures
            match row_verdict(row) {
                Ok(_) => r is Ok,
                Err(kind) => r is Err && r->Err_0@.kind() == kind,
            },
    {
        match row {
            Some(true) => Ok(()),
            Some(false) => Err(ApplicationError::Unauthorized),
            None => Err(ApplicationError::InternalServerError),
        }
    }

    /// The command that grants the account a permission. It asks nothing:
    /// a permission that the account holds already is granted once more.
    pub fn grant_permission(&self, permission: &Permission) -> (command: GrantCommand)
        ensures
            command@ == (GrantCommandView::Relate { account: self@.id, permission: permission@ }),
    {
        GrantCommand::Relate { account: self.id.clone(), permission: permission.id.clone() }
    }
}

/// The default permission passes for every account over every grants.
pub proof fn lemma_default_always_authorized(grants: Seq<Grant>, account: IdView)
    ensures
        authorization(grants, account, default_permission()) is Ok,
{
}

/// A permission other than the default that was not granted is unauthorized,
/// and authorized once it has been granted.
pub proof fn lemma_grant_authorizes(grants: Seq<Grant>, account: IdView, permission: IdView)
    requires
        permission != default_permission(),
    ensures
        !grants.contains((account, permission)) ==> authorization(grants, account, permission)
            == Err::<(), ErrorKind>(ErrorKind::Unauthorized),
        authorization(
            after_grant(grants, GrantCommandView::Relate { account, permission }),
            account,
            permission,
        ) is Ok,
{
    let granted = grants.push((account, permission));
    assert(granted[grants.len() as int] == (account, permission));
}

/// A grant takes nothing away: whoever was authorized stays so.
pub proof fn lemma_grant_keeps_others(
    grants: Seq<Grant>,
    command: GrantCommandView,
    account: IdView,
    permission: IdView,
)
    requires
        authorization(grants, account, permission) is Ok,
    ensures
        authorization(after_grant(grants, command), account, permission) is Ok,
{
    if permission != default_permission() {
        let i = choose|i: int| 0 <= i < grants.len() && grants[i] == (account, permission);
        assert(after_grant(grants, command)[i] == (account, permission));
    }
}

/// The views of some permissions, in their order.
pub open spec fn permission_views(permissions: Seq<Permission>) -> Seq<IdView> {
    permissions.map_values(|p: Permission| p@)
}

/// Whether none of the stored permissions is the one with the key `key`.
/// Permissions are compared by their plain written forms.
pub open spec fn is_missing(stored: Seq<IdView>, key: Seq<char>) -> bool {
    forall|i: int|
        0 <= i < stored.len() ==> plain_text(#[trigger] stored[i]) != plain_text(permission_of(key))
}

/// The statement that creates the permission with the key `key`.
pub open spec fn creation_statement(key: Seq<char>) -> Seq<char> {
    "CREATE type::thing('permission', '"@ + key + "');"@
}

/// The statements that create those of `keys` that are missing from the
/// stored permissions, in the order of `keys`.
pub open spec fn creation_query(stored: Seq<IdView>, keys: Seq<Seq<char>>) -> Seq<char>
    decreases keys.len(),
{
    if keys.len() == 0 {
        Seq::empty()
    } else {
        let front = creation_query(stored, keys.drop_last());
        if is_missing(stored, keys.last()) {
            front + creation_statement(keys.last())
        } else {
            front
        }
    }
}

/// Reconciles the stored permissions with the catalog: the query that creates
/// every permission of the catalog that is not stored, or nothing where all
/// are.
pub fn init_permissions(stored: &Vec<Permission>) -> (query: Option<String>)
    ensures
        match query {
            Some(text) => text@ == creation_query(permission_views(stored@), catalog_keys())
                && text@.len() > 0,
            None => creation_query(permission_views(stored@), catalog_keys()).len() == 0,
        },
{
    let ghost known = permission_views(stored@);
    let mut texts: Vec<String> = Vec::new();
    let mut i: usize = 0;
    while i < stored.len()
        invariant
            i <= stored.len(),
            known == permission_views(stored@),
            texts@.len() == i,
            forall|k: int| 0 <= k < i ==> (#[trigger] texts@[k])@ == plain_text(known[k]),
        decreases stored.len() - i,
    {
        texts.push(stored[i].id());
        i = i + 1;
    }
    let catalog = PERMISSIONS();
    let mut query = String::new();
    let mut j: usize = 0;
    assert(catalog_keys().subrange(0, 0) =~= Seq::<Seq<char>>::empty());
    while j < catalog.len()
        invariant
            j <= catalog.len(),
            catalog@.len() == catalog_keys().len(),
            forall|k: int|
                0 <= k < catalog@.len() ==> (#[trigger] catalog@[k])@ == permission_of(
                    catalog_keys()[k],
                ),
            known == permission_views(stored@),
            texts@.len() == known.len(),
            forall|k: int| 0 <= k < texts@.len() ==> (#[trigger] texts@[k])@ == plain_text(known[k]),
            query@ == creation_query(known, catalog_keys().subrange(0, j as int)),
        decreases catalog.len() - j,
    {
        let wanted = catalog[j].id();
        let mut missing = true;
        let mut k: usize = 0;
        while k < texts.len()
            invariant
                k <= texts.len(),
                texts@.len() == known.len(),
                forall|m: int|
                    0 <= m < texts@.len() ==> (#[trigger] texts@[m])@ == plain_text(known[m]),
                missing == (forall|m: int|
                    0 <= m < k ==> plain_text(#[trigger] known[m]) != wanted@),
            decreases texts.len() - k,
        {
            if same_text(texts[k].as_str(), wanted.as_str()) {
                assert(plain_text(known[k as int]) == wanted@);
                missing = false;
            }
            k = k + 1;
        }
        proof {
            let keys = catalog_keys().subrange(0, j as int + 1);
            assert(keys.drop_last() =~= catalog_keys().subrange(0, j as int));
            assert(keys.last() == catalog_keys()[j as int]);
            assert(wanted@ == plain_text(permission_of(keys.last())));
            assert(missing == is_missing(known, keys.last()));
        }
        if missing {
            query.append("CREATE type::thing('permission', '");
            query.append(catalog[j].id.id.as_str());
            query.append("');");
        }
        j = j + 1;
    }
    assert(catalog_keys().subrange(0, j as int) =~= catalog_keys());
    if query.as_str().unicode_len() == 0 {
        None
    } else {
        Some(query)
    }
}

/// Once every permission of `keys` is stored, nothing is left to create.
pub proof fn lemma_nothing_to_create(stored: Seq<IdView>, keys: Seq<Seq<char>>)
    requires
        forall|k: int| 0 <= k < keys.len() ==> !is_missing(stored, #[trigger] keys[k]),
    ensures
        creation_query(stored, keys).len() == 0,
    decreases keys.len(),
{
    if keys.len() > 0 {
        assert(!is_missing(stored, keys[keys.len() - 1]));
        assert forall|k: int| 0 <= k < keys.drop_last().len() implies !is_missing(
            stored,
            #[trigger] keys.drop_last()[k],
        ) by {
            assert(keys.drop_last()[k] == keys[k]);
        }
        lemma_nothing_to_create(stored, keys.drop_last());
    }
}

/// Reconciling twice creates nothing the second time: with the permissions
/// of `keys` stored beside what was there, none of `keys` is missing.
pub proof fn lemma_reconciled(stored: Seq<IdView>, keys: Seq<Seq<char>>)
    ensures
        creation_query(stored + keys.map_values(|key: Seq<char>| permission_of(key)), keys).len()
            == 0,
{
    let created = keys.map_values(|key: Seq<char>| permission_of(key));
    let all = stored + created;
    assert forall|k: int| 0 <= k < keys.len() implies !is_missing(all, #[trigger] keys[k]) by {
        assert(all[stored.len() + k] == permission_of(keys[k]));
    }
    lemma_nothing_to_create(all, keys);
}

} // verus!
