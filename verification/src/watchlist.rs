//! The accounts to mirror and the size of the purchase made for each.

use vstd::prelude::*;
use vstd::hash_map::StringHashMap;
use crate::text::lowercase;

verus! {

/// One row of the watchlist file. A column that the row lacks reads as the
/// empty text; `size` is `None` where the size column holds no number.
#[derive(Debug)]
pub struct Record<S> {
    pub username: String,
    pub address: String,
    pub size: Option<S>,
}

/// The mathematical value of a [`Record`].
pub struct RecordView<S> {
    pub username: Seq<char>,
    pub address: Seq<char>,
    pub size: Option<S>,
}

impl<S> View for Record<S> {
    type V = RecordView<S>;

    open spec fn view(&self) -> RecordView<S> {
        RecordView { username: self.username@, address: self.address@, size: self.size }
    }
}

/// The column by which a row names its account.
#[derive(Debug, Clone, Copy, PartialEq, Eq, Structural)]
pub enum Identity {
    Username,
    Address,
}

/// Why a row of the watchlist file is refused.
#[derive(Debug, Clone, Copy, PartialEq, Eq, Structural)]
pub enum ConfigError {
    /// The size column of the row holds no number.
    InvalidSize { row: usize },
    /// The row names neither a username nor an address.
    MissingIdentity { row: usize },
}

impl<S> RecordView<S> {
    /// The column that names the account: the username where there is one,
    /// else the address, else none.
    pub open spec fn identity(self) -> Option<Identity> {
        if self.username.len() > 0 {
            Some(Identity::Username)
        } else if self.address.len() > 0 {
            Some(Identity::Address)
        } else {
            None
        }
    }

    /// The key under which the row is stored.
    pub open spec fn key(self) -> Option<Seq<char>> {
        match self.identity() {
            Some(Identity::Username) => Some(lowercase(self.username)),
            Some(Identity::Address) => Some(lowercase(self.address)),
            None => None,
        }
    }

    /// The error that row number `row` gives, if it is refused. A bad size is
    /// reported before a missing identity.
    pub open spec fn fault(self, row: usize) -> Option<ConfigError> {
        if self.size is None {
            Some(ConfigError::InvalidSize { row })
        } else if self.identity() is None {
            Some(ConfigError::MissingIdentity { row })
        } else {
            None
        }
    }

    /// Whether the row can be stored.
    pub open spec fn admissible(self) -> bool {
        self.size is Some && self.identity() is Some
    }
}

/// The rows of a file as mathematical values.
pub open spec fn rows_of<S>(records: Seq<Record<S>>) -> Seq<RecordView<S>> {
    records.map_values(|r: Record<S>| r@)
}

/// The watchlist that the rows give when stored one after the other: each
/// row that can be stored under its key, a later row replacing an earlier one
/// of the same key. A file loads only where every row can be stored.
pub open spec fn targets_of<S>(rows: Seq<RecordView<S>>) -> Map<Seq<char>, S>
    decreases rows.len(),
{
    if rows.len() == 0 {
        Map::empty()
    } else {
        let earlier = targets_of(rows.drop_last());
        let row = rows.last();
        if row.admissible() {
            earlier.insert(row.key().unwrap(), row.size.unwrap())
        } else {
            earlier
        }
    }
}

/// Whether every row can be stored.
pub open spec fn all_admissible<S>(rows: Seq<RecordView<S>>) -> bool {
    forall|i: int| 0 <= i < rows.len() ==> (#[trigger] rows[i]).admissible()
}

/// Whether `e` is the error of the first row that cannot be stored.
pub open spec fn first_refusal<S>(rows: Seq<RecordView<S>>, e: ConfigError) -> bool {
    &&& e.spec_row() < rows.len()
    &&& rows[e.spec_row() as int].fault(e.spec_row()) == Some(e)
    &&& all_admissible(rows.take(e.spec_row() as int))
}

/// Whether row `i` is stored under `key`.
pub open spec fn row_names<S>(rows: Seq<RecordView<S>>, i: int, key: Seq<char>) -> bool {
    0 <= i < rows.len() && rows[i].admissible() && rows[i].key() == Some(key)
}

/// Whether `key` is the lowercase form of some text.
pub open spec fn is_folded(key: Seq<char>) -> bool {
    exists|s: Seq<char>| #[trigger] lowercase(s) == key
}

impl Identity {
    /// The name of the column.
    pub fn label(&self) -> (name: &'static str)
        ensures
            name@ == (match *self {
                Identity::Username => "username"@,
                Identity::Address => "address"@,
            }),
    {
        match self {
            Identity::Username => "username",
            Identity::Address => "address",
        }
    }
}

impl ConfigError {
    /// The number of the refused row, counted from 0.
    pub open spec fn spec_row(&self) -> usize {
        match *self {
            ConfigError::InvalidSize { row } => row,
            ConfigError::MissingIdentity { row } => row,
        }
    }

    /// The number of the refused row, counted from 0.
    #[verifier::when_used_as_spec(spec_row)]
    pub fn row(&self) -> (row: usize)
        ensures
            row == self.spec_row(),
    {
        match self {
            ConfigError::InvalidSize { row } => *row,
            ConfigError::MissingIdentity { row } => *row,
        }
    }

    /// What is wrong with the row, in words.
    pub fn message(&self) -> (words: &'static str)
        ensures
            words@ == (match *self {
                ConfigError::InvalidSize { .. } => "Size is not a number"@,
                ConfigError::MissingIdentity { .. } => "Must supply either username or address"@,
            }),
    {
        match self {
            ConfigError::InvalidSize { .. } => "Size is not a number",
            ConfigError::MissingIdentity { .. } => "Must supply either username or address",
        }
    }
}

impl<S> Record<S> {
    /// A row from its three columns, each absent or present.
    pub fn new(username: Option<&str>, address: Option<&str>, size: Option<S>) -> (record: Self)
        ensures
            record@.username == (match username {
                Some(text) => text@,
                None => Seq::<char>::empty(),
            }),
            record@.address == (match address {
                Some(text) => text@,
                None => Seq::<char>::empty(),
            }),
            record@.size == size,
    {
        let username = match username {
            Some(text) => text.to_owned(),
            None => String::new(),
        };
        let address = match address {
            Some(text) => text.to_owned(),
            None => String::new(),
        };
        Record { username, address, size }
    }

    /// The column that names the account of this row.
    pub fn identity(&self) -> (by: Option<Identity>)
        ensures
            by == self@.identity(),
    {
        if !self.username.as_str().is_empty() {
            Some(Identity::Username)
        } else if !self.address.as_str().is_empty() {
            Some(Identity::Address)
        } else {
            None
        }
    }

    /// The key under which this row is stored, if it names an account.
    pub fn key(&self) -> (key: Option<String>)
        ensures
            key is Some <==> self@.key() is Some,
            key is Some ==> key.unwrap()@ == self@.key().unwrap(),
    {
        match self.identity() {
            Some(Identity::Username) => Some(self.username.as_str().to_lowercase()),
            Some(Identity::Address) => Some(self.address.as_str().to_lowercase()),
            None => None,
        }
    }
}

/// The accounts to mirror, each with the size of the purchase to make for it.
/// Keys are unique, and every key is the lowercase form of the text it was
/// entered by.
#[verifier::reject_recursive_types(S)]
pub struct Watchlist<S> {
    targets: StringHashMap<S>,
}

impl<S> View for Watchlist<S> {
    type V = Map<Seq<char>, S>;

    closed spec fn view(&self) -> Map<Seq<char>, S> {
        self.targets@
    }
}

impl<S> Watchlist<S> {
    #[verifier::type_invariant]
    spec fn well_formed(&self) -> bool {
        &&& self.targets@.dom().finite()
        &&& forall|k: Seq<char>| self.targets@.contains_key(k) ==> is_folded(k)
    }

    /// The empty watchlist.
    pub fn new() -> (list: Self)
        ensures
            list@ == Map::<Seq<char>, S>::empty(),
    {
        Watchlist { targets: StringHashMap::new() }
    }

    /// Stores `size` under `key`, which is a lowercase form.
    fn store(&mut self, key: String, size: S)
        requires
            is_folded(key@),
        ensures
            final(self)@ == old(self)@.insert(key@, size),
    {
        proof {
            use_type_invariant(&*self);
        }
        let mut targets = StringHashMap::new();
        std::mem::swap(&mut targets, &mut self.targets);
        targets.insert(key, size);
        self.targets = targets;
    }

    /// Stores `size` for the account that `identity` names, under the
    /// lowercase form of `identity`. An earlier size for that key is replaced.
    pub fn insert(&mut self, identity: &str, size: S)
        ensures
            final(self)@ == old(self)@.insert(lowercase(identity@), size),
    {
        self.store(identity.to_lowercase(), size);
    }

    /// Stores row number `row` of the file, or refuses it and leaves the
    /// watchlist as it was. On success, says which column named the account.
    pub fn enroll(&mut self, row: usize, record: Record<S>) -> (outcome: Result<Identity, ConfigError>)
        ensures
            match outcome {
                Ok(by) => {
                    &&& record@.fault(row) is None
                    &&& record@.identity() == Some(by)
                    &&& final(self)@ == old(self)@.insert(
                        record@.key().unwrap(),
                        record@.size.unwrap(),
                    )
                },
                Err(e) => record@.fault(row) == Some(e) && final(self)@ == old(self)@,
            },
    {
        let by = record.identity();
        let key = record.key();
        match record.size {
            None => Err(ConfigError::InvalidSize { row }),
            Some(size) => match (by, key) {
                (Some(by), Some(key)) => {
                    self.store(key, size);
                    Ok(by)
                },
                _ => Err(ConfigError::MissingIdentity { row }),
            },
        }
    }

    /// Whether `key` is a key of the watchlist, compared as it stands. Only a
    /// lowercase form is ever found.
    pub fn contains_key(&self, key: &str) -> (found: bool)
        ensures
            found == self@.contains_key(key@),
            found ==> is_folded(key@),
    {
        proof {
            use_type_invariant(self);
        }
        self.targets.contains_key(key)
    }

    /// The size stored under `key`, compared as it stands. Only a lowercase
    /// form is ever found.
    pub fn get(&self, key: &str) -> (size: Option<&S>)
        ensures
            size == (if self@.contains_key(key@) {
                Some(&self@[key@])
            } else {
                None
            }),
            size is Some ==> is_folded(key@),
    {
        proof {
            use_type_invariant(self);
        }
        self.targets.get(key)
    }

    /// The number of accounts on the watchlist.
    pub fn len(&self) -> (count: usize)
        ensures
            self@.dom().finite(),
            count == self@.len(),
    {
        proof {
            use_type_invariant(self);
        }
        self.targets.len()
    }

    /// Whether the watchlist holds no account.
    pub fn is_empty(&self) -> (empty: bool)
        ensures
            empty == (self@.len() == 0),
    {
        proof {
            use_type_invariant(self);
        }
        self.targets.len() == 0
    }
}

/// Builds the watchlist from the rows of the file, in order. The first row
/// that cannot be stored ends the loading with its error; otherwise every row
/// is stored, a later row replacing an earlier one of the same key.
pub fn load_targets<S>(records: Vec<Record<S>>) -> (loaded: Result<Watchlist<S>, ConfigError>)
    ensures
        loaded is Ok <==> all_admissible(rows_of(records@)),
        match loaded {
            Ok(list) => list@ == targets_of(rows_of(records@)),
            Err(e) => first_refusal(rows_of(records@), e),
        },
{
    let ghost rows = rows_of(records@);
    let total = records.len();
    let mut list = Watchlist::new();
    let mut row: usize = 0;
    for record in it: records.into_iter()
        invariant
            it.seq() == records@,
            rows == rows_of(records@),
            records@.len() == total,
            row == it.index(),
            all_admissible(rows.take(row as int)),
            list@ == targets_of(rows.take(row as int)),
    {
        match list.enroll(row, record) {
            Err(e) => {
                assert(!rows[row as int].admissible());
                return Err(e);
            },
            Ok(_) => {
                assert(rows.take(row + 1).drop_last() =~= rows.take(row as int));
                row = row + 1;
            },
        }
    }
    assert(rows.take(row as int) =~= rows);
    Ok(list)
}

/// The keys of the loaded watchlist are the keys of the rows that can be
/// stored, no more and no fewer; each is a lowercase form, and there are
/// finitely many.
pub proof fn law_keys_come_from_rows<S>(rows: Seq<RecordView<S>>)
    ensures
        forall|k: Seq<char>|
            targets_of(rows).contains_key(k) <==> exists|i: int| #[trigger] row_names(rows, i, k),
        forall|k: Seq<char>| targets_of(rows).contains_key(k) ==> is_folded(k),
        targets_of(rows).dom().finite(),
    decreases rows.len(),
{
    if rows.len() > 0 {
        let earlier = rows.drop_last();
        let last = rows.len() - 1;
        law_keys_come_from_rows(earlier);
        assert forall|k: Seq<char>| targets_of(rows).contains_key(k) implies exists|i: int| #[trigger]
            row_names(rows, i, k) by {
            if targets_of(earlier).contains_key(k) {
                let i = choose|i: int| #[trigger] row_names(earlier, i, k);
                assert(row_names(rows, i, k));
            } else {
                assert(row_names(rows, last, k));
            }
        }
        assert forall|k: Seq<char>| (exists|i: int| #[trigger] row_names(rows, i, k))
            implies targets_of(rows).contains_key(k) by {
            let i = choose|i: int| #[trigger] row_names(rows, i, k);
            if i < last {
                assert(row_names(earlier, i, k));
            }
        }
    }
}

/// Last write wins: a row that can be stored, and that no later such row
/// shares its key with, gives the loaded watchlist the size under that key.
pub proof fn law_last_row_wins<S>(rows: Seq<RecordView<S>>, i: int)
    requires
        0 <= i < rows.len(),
        rows[i].admissible(),
        forall|j: int|
            i < j < rows.len() && (#[trigger] rows[j]).admissible() ==> rows[j].key()
                != rows[i].key(),
    ensures
        targets_of(rows).contains_key(rows[i].key().unwrap()),
        targets_of(rows)[rows[i].key().unwrap()] == rows[i].size.unwrap(),
    decreases rows.len(),
{
    if i < rows.len() - 1 {
        let earlier = rows.drop_last();
        law_last_row_wins(earlier, i);
    }
}

/// The key of a row with a username is the lowercase form of that username,
/// whatever case it was written in and whatever its address; with a size, the
/// row is stored under that key.
pub proof fn law_username_is_the_key<S>(rows: Seq<RecordView<S>>, i: int)
    requires
        0 <= i < rows.len(),
        rows[i].username.len() > 0,
    ensures
        rows[i].key() == Some(lowercase(rows[i].username)),
        rows[i].size is Some ==> targets_of(rows).contains_key(lowercase(rows[i].username)),
{
    if rows[i].size is Some {
        law_keys_come_from_rows(rows);
        assert(row_names(rows, i, lowercase(rows[i].username)));
    }
}

/// The key of a row without a username and with an address is the lowercase
/// form of that address; with a size, the row is stored under that key.
pub proof fn law_address_is_the_fallback_key<S>(rows: Seq<RecordView<S>>, i: int)
    requires
        0 <= i < rows.len(),
        rows[i].username.len() == 0,
        rows[i].address.len() > 0,
    ensures
        rows[i].key() == Some(lowercase(rows[i].address)),
        rows[i].size is Some ==> targets_of(rows).contains_key(lowercase(rows[i].address)),
{
    if rows[i].size is Some {
        law_keys_come_from_rows(rows);
        assert(row_names(rows, i, lowercase(rows[i].address)));
    }
}

/// A file in which some row has neither a username nor an address does not
/// load: the row is refused whatever its size column holds.
pub proof fn law_nameless_row_fails_the_load<S>(rows: Seq<RecordView<S>>, i: int)
    requires
        0 <= i < rows.len(),
        rows[i].username.len() == 0,
        rows[i].address.len() == 0,
    ensures
        rows[i].fault(i as usize) is Some,
        !all_admissible(rows),
{
}

} // verus!
