//! Record identifiers: a table and a key in it, written `table:key`.

use crate::error::ApplicationError;
use crate::error::ErrorView;
use crate::text::after;
use crate::text::before;
use crate::text::lemma_before_when_absent;
use crate::text::lemma_split_joined;
use crate::text::split_first;
use crate::text::same_text;
use vstd::prelude::*;
use vstd::std_specs::cmp::PartialEqSpecImpl;

verus! {

/// Names one record: the table it lives in and its key there.
#[derive(Debug)]
pub struct Id {
    pub table: String,
    pub id: String,
}

/// An `Id` with its two parts as sequences of characters.
pub ghost struct IdView {
    pub table: Seq<char>,
    pub id: Seq<char>,
}

impl View for Id {
    type V = IdView;

    open spec fn view(&self) -> IdView {
        IdView { table: self.table@, id: self.id@ }
    }
}

impl IdView {
    /// The written form: table, a colon, key.
    pub open spec fn text(self) -> Seq<char> {
        self.table + seq![':'] + self.id
    }
}

/// The table part of a written identifier: what stands before its first colon.
pub open spec fn written_table(text: Seq<char>) -> Seq<char> {
    before(text, ':')
}

/// The key part of a written identifier: what stands between its first colon and
/// its second, or the end. `None` where the text holds no colon.
pub open spec fn written_key(text: Seq<char>) -> Option<Seq<char>> {
    match after(text, ':') {
        Some(rest) => Some(before(rest, ':')),
        None => None,
    }
}

/// Whether `text` names a record of the table `force`.
pub open spec fn names_record_of(text: Seq<char>, force: Seq<char>) -> bool {
    written_key(text) is Some && written_table(text) == force
}

impl Clone for Id {
    fn clone(&self) -> (r: Self)
        ensures
            r@ == self@,
    {
        Id { table: self.table.clone(), id: self.id.clone() }
    }
}

impl PartialEq for Id {
    fn eq(&self, other: &Self) -> (r: bool) {
        self.table == other.table && self.id == other.id
    }
}

impl PartialEqSpecImpl for Id {
    open spec fn obeys_eq_spec() -> bool {
        true
    }

    open spec fn eq_spec(&self, other: &Self) -> bool {
        self.table@ == other.table@ && self.id@ == other.id@
    }
}

impl Id {
    /// The identifier of key `pair.1` in table `pair.0`, taken as given.
    pub fn new(pair: (&str, &str)) -> (r: Self)
        ensures
            r@ == (IdView { table: pair.0@, id: pair.1@ }),
    {
        Id { table: pair.0.to_owned(), id: pair.1.to_owned() }
    }

    /// Reads the written identifier `pair.1`, which must name a record of table
    /// `pair.0`. One that names another table is refused like one that is
    /// malformed, so that no key of one table can address a record of another.
    pub fn try_from(pair: (&str, &str)) -> (r: Result<Self, ApplicationError>)
        ensures
            names_record_of(pair.1@, pair.0@) ==> r is Ok && r->Ok_0@ == (IdView {
                table: pair.0@,
                id: written_key(pair.1@)->Some_0,
            }),
            !names_record_of(pair.1@, pair.0@) ==> r is Err && r->Err_0@
                == ErrorView::BadRequest("invalid id"@),
    {
        let (table, rest) = split_first(pair.1, ':');
        if !same_text(table, pair.0) {
            return Err(ApplicationError::BadRequest("invalid id".to_owned()));
        }
        match rest {
            Some(rest) => {
                let (id, _) = split_first(rest, ':');
                Ok(Id { table: table.to_owned(), id: id.to_owned() })
            },
            None => Err(ApplicationError::BadRequest("invalid id".to_owned())),
        }
    }

    /// Reads a written identifier of whatever table. The error is the message for
    /// text without a colon.
    pub fn deserialize(text: &str) -> (r: Result<Self, String>)
        ensures
            match written_key(text@) {
                Some(key) => r is Ok && r->Ok_0@ == (IdView {
                    table: written_table(text@),
                    id: key,
                }),
                None => r is Err && r->Err_0@ == "Invalid id format"@,
            },
    {
        let (table, rest) = split_first(text, ':');
        match rest {
            Some(rest) => {
                let (id, _) = split_first(rest, ':');
                Ok(Id { table: table.to_owned(), id: id.to_owned() })
            },
            None => Err("Invalid id format".to_owned()),
        }
    }

    /// The written form: table, a colon, key.
    pub fn to_string(&self) -> (text: String)
        ensures
            text@ == self@.text(),
    {
        let mut text = self.table.clone();
        proof {
            reveal_strlit(":");
            assert(":"@ == seq![':']);
        }
        text.append(":");
        text.append(self.id.as_str());
        text
    }

    /// The written form, as it is stored and sent.
    pub fn serialize(&self) -> (text: String)
        ensures
            text@ == self@.text(),
    {
        self.to_string()
    }
}

/// Reading back what `to_string` wrote gives the identifier again, where neither
/// part holds a colon.
pub proof fn lemma_written_form_reads_back(id: IdView)
    requires
        !id.table.contains(':'),
        !id.id.contains(':'),
    ensures
        written_table(id.text()) == id.table,
        written_key(id.text()) == Some(id.id),
        names_record_of(id.text(), id.table),
{
    assert forall|i: int| 0 <= i < id.table.len() implies id.table[i] != ':' by {
        assert(id.table.contains(id.table[i]));
    }
    assert forall|i: int| 0 <= i < id.id.len() implies id.id[i] != ':' by {
        assert(id.id.contains(id.id[i]));
    }
    lemma_split_joined(id.table, id.id, ':');
    lemma_before_when_absent(id.id, ':');
}

} // verus!
