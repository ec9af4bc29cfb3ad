//! The credential store: user records keyed by username, no username twice.
//!
//! The service depends on two operations only, lookup by username and insert,
//! and on the store refusing a second record for a username. `CredentialStore`
//! is such a store held in memory; a store kept elsewhere answers the same two
//! questions and its answers are handed to the service as values.

use crate::text::same_text;
use vstd::prelude::*;

verus! {

/// A registered user as the store keeps it: the password only as its hash.
#[derive(Clone, Debug)]
pub struct UserRecord {
    pub name: String,
    pub email: String,
    /// The key of the record; unique in a store.
    pub username: String,
    pub password_hash: String,
}

/// A record as mathematical values.
pub struct UserRecordView {
    pub name: Seq<char>,
    pub email: Seq<char>,
    pub username: Seq<char>,
    pub password_hash: Seq<char>,
}

impl View for UserRecord {
    type V = UserRecordView;

    open spec fn view(&self) -> UserRecordView {
        UserRecordView {
            name: self.name@,
            email: self.email@,
            username: self.username@,
            password_hash: self.password_hash@,
        }
    }
}

/// Why a store did not take a record.
#[derive(Clone, Copy, Debug, PartialEq, Eq, Structural)]
pub enum StoreFailure {
    /// The store already holds a record with that username.
    UniquenessViolation,
    /// The store could not be reached or failed otherwise.
    StoreError,
}

/// What a store holds: for each username at most one record.
pub type Contents = Map<Seq<char>, UserRecordView>;

/// Whether every record stands under its own username.
pub open spec fn keyed_by_username(contents: Contents) -> bool {
    forall|username: Seq<char>| #[trigger]
        contents.contains_key(username) ==> contents[username].username == username
}

/// The record that a store holding `contents` keeps under `username`.
pub open spec fn lookup(contents: Contents, username: Seq<char>) -> Option<UserRecordView> {
    if contents.contains_key(username) {
        Some(contents[username])
    } else {
        None
    }
}

/// What a lookup found, by view.
pub open spec fn found_view(found: Option<&UserRecord>) -> Option<UserRecordView> {
    match found {
        Some(record) => Some(record@),
        None => None,
    }
}

/// The answer of a store holding `contents` to the insertion of `record`.
pub open spec fn insert_reply(contents: Contents, record: UserRecordView) -> Result<
    (),
    StoreFailure,
> {
    if contents.contains_key(record.username) {
        Err(StoreFailure::UniquenessViolation)
    } else {
        Ok(())
    }
}

/// What a store holding `contents` holds after the insertion of `record`:
/// the record too where its username was free, else what it held.
pub open spec fn after_insert(contents: Contents, record: UserRecordView) -> Contents {
    if contents.contains_key(record.username) {
        contents
    } else {
        contents.insert(record.username, record)
    }
}

/// Whether no two of the records share a username.
pub open spec fn distinct_usernames(records: Seq<UserRecord>) -> bool {
    forall|i: int, j: int|
        0 <= i < j < records.len() ==> #[trigger] records[i].username@
            != #[trigger] records[j].username@
}

/// Whether one of the records has the username.
pub open spec fn holds(records: Seq<UserRecord>, username: Seq<char>) -> bool {
    exists|i: int| 0 <= i < records.len() && #[trigger] records[i].username@ == username
}

/// The position of a record with the username.
pub open spec fn position(records: Seq<UserRecord>, username: Seq<char>) -> int {
    choose|i: int| 0 <= i < records.len() && #[trigger] records[i].username@ == username
}

/// The records as a map from username to record.
pub open spec fn contents_of(records: Seq<UserRecord>) -> Contents {
    Map::new(
        |username: Seq<char>| holds(records, username),
        |username: Seq<char>| records[position(records, username)]@,
    )
}

/// With distinct usernames, the record found under a username is the one
/// record that has it.
pub proof fn lemma_contents_at(records: Seq<UserRecord>, i: int)
    requires
        distinct_usernames(records),
        0 <= i < records.len(),
    ensures
        contents_of(records).contains_key(records[i].username@),
        contents_of(records)[records[i].username@] == records[i]@,
{
    let username = records[i].username@;
    assert(holds(records, username));
    let p = position(records, username);
    assert(0 <= p < records.len() && records[p].username@ == username);
    assert(p == i);
}

/// Appending a record with a free username inserts it under that username.
pub proof fn lemma_contents_push(records: Seq<UserRecord>, record: UserRecord)
    requires
        distinct_usernames(records),
        !holds(records, record.username@),
    ensures
        distinct_usernames(records.push(record)),
        contents_of(records.push(record)) == contents_of(records).insert(
            record.username@,
            record@,
        ),
{
    let longer = records.push(record);
    let n = records.len() as int;
    assert forall|i: int, j: int| 0 <= i < j < longer.len() implies #[trigger] longer[i].username@
        != #[trigger] longer[j].username@ by {
        if j == n {
            assert(longer[i] == records[i]);
            assert(longer[j] == record);
            if records[i].username@ == record.username@ {
                assert(holds(records, record.username@));
            }
        } else {
            assert(longer[i] == records[i]);
            assert(longer[j] == records[j]);
        }
    }
    let old_map = contents_of(records);
    let new_map = contents_of(longer);
    let want = old_map.insert(record.username@, record@);
    assert forall|k: Seq<char>| new_map.contains_key(k) <==> want.contains_key(k) by {
        if holds(longer, k) {
            let p = position(longer, k);
            if p < n {
                assert(longer[p] == records[p]);
                assert(holds(records, k));
            } else {
                assert(longer[p] == record);
            }
        }
        if holds(records, k) {
            let p = position(records, k);
            assert(longer[p] == records[p]);
            assert(holds(longer, k));
        }
        if k == record.username@ {
            assert(longer[n] == record);
            assert(holds(longer, k));
        }
    }
    assert forall|k: Seq<char>| new_map.contains_key(k) implies new_map[k] == want[k] by {
        let p = position(longer, k);
        assert(0 <= p < longer.len() && longer[p].username@ == k);
        if p < n {
            assert(longer[p] == records[p]);
            lemma_contents_at(records, p);
            assert(k != record.username@) by {
                if k == record.username@ {
                    assert(holds(records, record.username@));
                }
            }
        } else {
            assert(longer[p] == record);
        }
    }
    assert(new_map =~= want);
}

/// A credential store held in memory.
pub struct CredentialStore {
    records: Vec<UserRecord>,
}

impl View for CredentialStore {
    type V = Contents;

    closed spec fn view(&self) -> Contents {
        contents_of(self.records@)
    }
}

impl CredentialStore {
    #[verifier::type_invariant]
    spec fn unique(self) -> bool {
        distinct_usernames(self.records@)
    }

    /// Every record of a store stands under its own username.
    pub proof fn lemma_keyed_by_username(&self)
        ensures
            keyed_by_username(self@),
    {
        assert forall|username: Seq<char>| #[trigger]
            self@.contains_key(username) implies self@[username].username == username by {
            let p = position(self.records@, username);
            assert(0 <= p < self.records@.len() && self.records@[p].username@ == username);
        }
    }

    /// A store that holds no record.
    pub fn new() -> (store: CredentialStore)
        ensures
            store@ == Map::<Seq<char>, UserRecordView>::empty(),
    {
        let store = CredentialStore { records: Vec::new() };
        assert(store@ =~= Map::<Seq<char>, UserRecordView>::empty()) by {
            assert forall|k: Seq<char>| !holds(store.records@, k) by {}
        }
        store
    }

    /// Looks a record up by its username.
    pub fn find_by_username(&self, username: &str) -> (r: Option<&UserRecord>)
        ensures
            found_view(r) == lookup(self@, username@),
            r matches Some(record) ==> record.username@ == username@,
    {
        proof {
            use_type_invariant(self);
        }
        let mut i: usize = 0;
        while i < self.records.len()
            invariant
                i <= self.records.len(),
                distinct_usernames(self.records@),
                forall|k: int| 0 <= k < i ==> self.records@[k].username@ != username@,
            decreases self.records.len() - i,
        {
            if same_text(self.records[i].username.as_str(), username) {
                proof {
                    lemma_contents_at(self.records@, i as int);
                }
                return Some(&self.records[i]);
            }
            i += 1;
        }
        assert(!holds(self.records@, username@));
        None
    }

    /// Inserts `record` unless its username is taken: the check and the
    /// insertion are one step.
    pub fn insert(&mut self, record: UserRecord) -> (r: Result<(), StoreFailure>)
        ensures
            r == insert_reply(old(self)@, record@),
            final(self)@ == after_insert(old(self)@, record@),
    {
        if self.find_by_username(record.username.as_str()).is_some() {
            return Err(StoreFailure::UniquenessViolation);
        }
        proof {
            use_type_invariant(&*self);
            lemma_contents_push(self.records@, record);
        }
        let mut records: Vec<UserRecord> = Vec::new();
        core::mem::swap(&mut self.records, &mut records);
        records.push(record);
        self.records = records;
        Ok(())
    }
}

} // verus!
