use auth_core::auth::authz::init_permissions;
use auth_core::auth::authz::permission::Permission;
use auth_core::auth::authz::permission::ACCOUNT_PERMISSION_GET;
use auth_core::auth::authz::permission::DEFAULT;
use auth_core::auth::authz::permission::EVENT_CREATE;
use auth_core::auth::authz::permission::NEWS_CREATE;
use auth_core::auth::authz::permission::NEWS_UPDATE;
use auth_core::auth::authz::permission::PERMISSIONS;
use auth_core::auth::authz::GrantCommand;
use auth_core::auth::authz::PermissionCheck;
use auth_core::data::account::Account;
use auth_core::database::id::Id;
use auth_core::database::memory::GrantTable;
use auth_core::error::ApplicationError;

fn account(key: &str) -> Account {
    Account {
        id: Id::new(("account", key)),
        username: key.to_owned(),
        uuid: None,
        password: "".to_owned(),
        secret: "".to_owned(),
        nonce: "".to_owned(),
        totp: false,
        locked: false,
        created_at: Default::default(),
    }
}

/// Asks the grants what a check has to look up, and judges the answer.
fn authorized(grants: &GrantTable, account: &Account, permission: &Permission) -> Result<(), ApplicationError> {
    match account.has_permission(permission) {
        PermissionCheck::Granted => Ok(()),
        PermissionCheck::Lookup { account, permission } => {
            Account::permission_verdict(grants.lookup(&account, &permission))
        }
    }
}

#[test]
fn the_catalog_is_fixed() {
    let keys: Vec<String> = PERMISSIONS().iter().map(|p| p.id.id.clone()).collect();
    assert_eq!(
        keys,
        vec![
            "news.create",
            "news.update",
            "news.delete",
            "news.get.all",
            "event.create",
            "event.update",
            "event.delete",
            "event.group.create",
            "event.group.update",
            "event.group.delete",
            "event.fight.create",
            "event.fight.update",
            "event.fight.delete",
            "account.permission.get",
        ]
    );
    assert!(PERMISSIONS().iter().all(|p| p.id.table == "permission"));
    assert!(PERMISSIONS().iter().all(|p| !p.is_default()));
}

#[test]
fn the_default_permission_is_none() {
    assert_eq!(DEFAULT().id, Id::new(("permission", "none")));
    assert!(DEFAULT().is_default());
    assert!(Permission::new("none").is_default());
    assert!(!Permission::new("None").is_default());
    assert!(!Permission { id: Id::new(("permissions", "none")) }.is_default());
    assert!(!Permission { id: Id::new(("permission", "\u{27e8}none\u{27e9}")) }.is_default());
}

#[test]
fn permission_id_drops_the_brackets_of_an_escaped_key() {
    assert_eq!(Permission::new(NEWS_CREATE).id(), "permission:news.create");
    let escaped = Permission { id: Id::new(("permission", "\u{27e8}news.create\u{27e9}")) };
    assert_eq!(escaped.id(), "permission:news.create");
    let odd = Permission { id: Id::new(("\u{27e9}p\u{27e8}", "\u{27e8}\u{27e8}a\u{27e9}b\u{27e8}")) };
    assert_eq!(odd.id(), "p:ab");
}

#[test]
fn the_default_permission_is_granted_without_a_lookup() {
    let alice = account("alice");
    assert!(matches!(alice.has_permission(&DEFAULT()), PermissionCheck::Granted));
    let grants = GrantTable::new();
    assert!(authorized(&grants, &alice, &DEFAULT()).is_ok());
}

#[test]
fn any_other_permission_is_looked_up() {
    let alice = account("alice");
    match alice.has_permission(&Permission::new(NEWS_UPDATE)) {
        PermissionCheck::Lookup { account, permission } => {
            assert_eq!(account, Id::new(("account", "alice")));
            assert_eq!(permission, Id::new(("permission", "news.update")));
        }
        other => panic!("unexpected: {:?}", other),
    }
}

#[test]
fn permission_verdict_judges_each_row() {
    assert!(Account::permission_verdict(Some(true)).is_ok());
    assert!(matches!(Account::permission_verdict(Some(false)), Err(ApplicationError::Unauthorized)));
    assert!(matches!(Account::permission_verdict(None), Err(ApplicationError::InternalServerError)));
}

#[test]
fn a_permission_is_held_once_it_is_granted() {
    let alice = account("alice");
    let bob = account("bob");
    let wanted = Permission::new(NEWS_CREATE);
    let mut grants = GrantTable::new();

    assert!(matches!(authorized(&grants, &alice, &wanted), Err(ApplicationError::Unauthorized)));
    let command = alice.grant_permission(&wanted);
    match &command {
        GrantCommand::Relate { account, permission } => {
            assert_eq!(*account, Id::new(("account", "alice")));
            assert_eq!(*permission, Id::new(("permission", "news.create")));
        }
    }
    grants.perform(&command);
    assert!(authorized(&grants, &alice, &wanted).is_ok());
    assert!(matches!(authorized(&grants, &bob, &wanted), Err(ApplicationError::Unauthorized)));
    assert!(matches!(
        authorized(&grants, &alice, &Permission::new(EVENT_CREATE)),
        Err(ApplicationError::Unauthorized)
    ));
    assert!(authorized(&grants, &bob, &DEFAULT()).is_ok());

    // a second grant of the same permission takes nothing away
    grants.perform(&alice.grant_permission(&wanted));
    assert!(authorized(&grants, &alice, &wanted).is_ok());
}

#[test]
fn granting_the_whole_catalog() {
    let alice = account("alice");
    let mut grants = GrantTable::new();
    for permission in PERMISSIONS().iter() {
        grants.perform(&alice.grant_permission(permission));
    }
    for permission in PERMISSIONS().iter() {
        assert!(authorized(&grants, &alice, permission).is_ok());
    }
    assert_eq!(grants.lookup(&alice.id, &Id::new(("permission", "other"))), Some(false));
}

#[test]
fn init_permissions_creates_the_whole_catalog_in_an_empty_store() {
    let query = init_permissions(&Vec::new()).unwrap();
    let expected = "CREATE type::thing('permission', 'news.create');\
CREATE type::thing('permission', 'news.update');\
CREATE type::thing('permission', 'news.delete');\
CREATE type::thing('permission', 'news.get.all');\
CREATE type::thing('permission', 'event.create');\
CREATE type::thing('permission', 'event.update');\
CREATE type::thing('permission', 'event.delete');\
CREATE type::thing('permission', 'event.group.create');\
CREATE type::thing('permission', 'event.group.update');\
CREATE type::thing('permission', 'event.group.delete');\
CREATE type::thing('permission', 'event.fight.create');\
CREATE type::thing('permission', 'event.fight.update');\
CREATE type::thing('permission', 'event.fight.delete');\
CREATE type::thing('permission', 'account.permission.get');";
    assert_eq!(query, expected);
}

#[test]
fn init_permissions_creates_only_what_is_missing() {
    let mut stored = PERMISSIONS();
    assert!(init_permissions(&stored).is_none());

    stored.remove(13);
    stored.remove(1);
    stored.push(Permission::new("custom"));
    assert_eq!(
        init_permissions(&stored).unwrap(),
        "CREATE type::thing('permission', 'news.update');\
CREATE type::thing('permission', 'account.permission.get');"
    );

    // reconciling again, with what was created, creates nothing
    stored.push(Permission::new(NEWS_UPDATE));
    stored.push(Permission::new(ACCOUNT_PERMISSION_GET));
    assert!(init_permissions(&stored).is_none());
}

#[test]
fn init_permissions_knows_escaped_keys() {
    let stored: Vec<Permission> = PERMISSIONS()
        .iter()
        .map(|p| Permission { id: Id::new(("permission", format!("\u{27e8}{}\u{27e9}", p.id.id).as_str())) })
        .collect();
    assert!(init_permissions(&stored).is_none());
    let elsewhere: Vec<Permission> =
        PERMISSIONS().iter().map(|p| Permission { id: Id::new(("other", p.id.id.as_str())) }).collect();
    assert_eq!(init_permissions(&elsewhere), init_permissions(&Vec::new()));
}
