//! The permissions that can be granted: a catalog fixed when the service is
//! built, and one beside it that stands for "none needed".

use crate::database::id::Id;
use crate::database::id::IdView;
use crate::text::same_text;
use crate::text::without;
use crate::text::without_char;
use vstd::prelude::*;

verus! {

/// The table that holds the permissions.
pub const PERMISSION_TABLE: &'static str = "permission";

/// The key of the permission that every account has.
pub const DEFAULT_KEY: &'static str = "none";

pub const NEWS_CREATE: &'static str = "news.create";

pub const NEWS_UPDATE: &'static str = "news.update";

pub const NEWS_DELETE: &'static str = "news.delete";

pub const NEWS_GET_ALL: &'static str = "news.get.all";

pub const EVENT_CREATE: &'static str = "event.create";

pub const EVENT_UPDATE: &'static str = "event.update";

pub const EVENT_DELETE: &'static str = "event.delete";

pub const EVENT_GROUP_CREATE: &'static str = "event.group.create";

pub const EVENT_GROUP_UPDATE: &'static str = "event.group.update";

pub const EVENT_GROUP_DELETE: &'static str = "event.group.delete";

pub const EVENT_FIGHT_CREATE: &'static str = "event.fight.create";

pub const EVENT_FIGHT_UPDATE: &'static str = "event.fight.update";

pub const EVENT_FIGHT_DELETE: &'static str = "event.fight.delete";

pub const ACCOUNT_PERMISSION_GET: &'static str = "account.permission.get";

/// The bracket that the database opens an escaped key with.
pub const ESCAPE_OPEN: char = '\u{27e8}';

/// The bracket that the database closes an escaped key with.
pub const ESCAPE_CLOSE: char = '\u{27e9}';

/// A capability that an account can hold, named by its record.
#[derive(Debug)]
pub struct Permission {
    pub id: Id,
}

impl View for Permission {
    type V = IdView;

    open spec fn view(&self) -> IdView {
        self.id@
    }
}

impl Clone for Permission {
    fn clone(&self) -> (r: Self)
        ensures
            r@ == self@,
    {
        Permission { id: self.id.clone() }
    }
}

/// The keys of the catalog, in its order.
pub open spec fn catalog_keys() -> Seq<Seq<char>> {
    seq![
        NEWS_CREATE@,
        NEWS_UPDATE@,
        NEWS_DELETE@,
        NEWS_GET_ALL@,
        EVENT_CREATE@,
        EVENT_UPDATE@,
        EVENT_DELETE@,
        EVENT_GROUP_CREATE@,
        EVENT_GROUP_UPDATE@,
        EVENT_GROUP_DELETE@,
        EVENT_FIGHT_CREATE@,
        EVENT_FIGHT_UPDATE@,
        EVENT_FIGHT_DELETE@,
        ACCOUNT_PERMISSION_GET@,
    ]
}

/// The permission with the key `key`.
pub open spec fn permission_of(key: Seq<char>) -> IdView {
    IdView { table: PERMISSION_TABLE@, id: key }
}

/// The permission that stands for "none needed".
pub open spec fn default_permission() -> IdView {
    permission_of(DEFAULT_KEY@)
}

/// The written form of a permission, without the brackets of an escaped key.
pub open spec fn plain_text(permission: IdView) -> Seq<char> {
    without(without(permission.text(), ESCAPE_OPEN), ESCAPE_CLOSE)
}

impl Permission {
    /// The permission with the key `key`.
    pub fn new(key: &str) -> (r: Self)
        ensures
            r@ == permission_of(key@),
    {
        Permission { id: Id::new((PERMISSION_TABLE, key)) }
    }

    /// The written form of the permission, `permission:key`, without the
    /// brackets that the database puts round a key that it escapes.
    pub fn id(&self) -> (text: String)
        ensures
            text@ == plain_text(self@),
    {
        let written = self.id.to_string();
        let opened = without_char(written.as_str(), ESCAPE_OPEN);
        without_char(opened.as_str(), ESCAPE_CLOSE)
    }

    /// Whether this is the permission that stands for "none needed".
    pub fn is_default(&self) -> (r: bool)
        ensures
            r == (self@ == default_permission()),
    {
        same_text(self.id.table.as_str(), PERMISSION_TABLE) && same_text(
            self.id.id.as_str(),
            DEFAULT_KEY,
        )
    }
}

/// The permission that every account has: a check for it passes unasked.
#[allow(non_snake_case)]
pub fn DEFAULT() -> (r: Permission)
    ensures
        r@ == default_permission(),
{
    Permission::new(DEFAULT_KEY)
}

/// The catalog: every permission that can be granted, in a fixed order.
#[allow(non_snake_case)]
pub fn PERMISSIONS() -> (r: Vec<Permission>)
    ensures
        r@.len() == catalog_keys().len(),
        forall|i: int| 0 <= i < r@.len() ==> (#[trigger] r@[i])@ == permission_of(catalog_keys()[i]),
{
    let mut all = Vec::new();
    all.push(Permission::new(NEWS_CREATE));
    all.push(Permission::new(NEWS_UPDATE));
    all.push(Permission::new(NEWS_DELETE));
    all.push(Permission::new(NEWS_GET_ALL));
    all.push(Permission::new(EVENT_CREATE));
    all.push(Permission::new(EVENT_UPDATE));
    all.push(Permission::new(EVENT_DELETE));
    all.push(Permission::new(EVENT_GROUP_CREATE));
    all.push(Permission::new(EVENT_GROUP_UPDATE));
    all.push(Permission::new(EVENT_GROUP_DELETE));
    all.push(Permission::new(EVENT_FIGHT_CREATE));
    all.push(Permission::new(EVENT_FIGHT_UPDATE));
    all.push(Permission::new(EVENT_FIGHT_DELETE));
    all.push(Permission::new(ACCOUNT_PERMISSION_GET));
    all
}

} // verus!
