//! Table metadata and the two-tier table-configuration store: a local
//! in-memory tier owned by one connection handle, and a remote persisted tier
//! keyed by user and table that outlives any session.

use vstd::prelude::*;

use crate::errors::{ConfigError, CoreError};

verus! {

/// Summary of one table, recomputed on every discovery call, never cached.
#[derive(Debug, PartialEq, Eq)]
pub struct TableSummary {
    pub name: String,
    pub row_count: u64,
    pub column_count: u64,
}

/// Mathematical image of a [`TableSummary`].
pub ghost struct TableSummaryV {
    pub name: Seq<char>,
    pub row_count: u64,
    pub column_count: u64,
}

impl View for TableSummary {
    type V = TableSummaryV;

    open spec fn view(&self) -> TableSummaryV {
        TableSummaryV { name: self.name@, row_count: self.row_count, column_count: self.column_count }
    }
}

impl DeepView for TableSummary {
    type V = TableSummaryV;

    open spec fn deep_view(&self) -> TableSummaryV {
        self.view()
    }
}

impl TableSummary {
    /// An owned copy with the same mathematical value.
    pub fn duplicate(&self) -> (r: TableSummary)
        ensures
            r@ == self@,
    {
        TableSummary { name: self.name.clone(), row_count: self.row_count, column_count: self.column_count }
    }
}

/// The freshly computed result of one table-discovery call.
pub type TableList = Vec<TableSummary>;

/// User-controlled display and behaviour settings for one table.
#[derive(Debug, PartialEq, Eq)]
pub struct TableConfig {
    pub page_size: u64,
    pub visible_columns: Vec<String>,
}

/// Mathematical image of a [`TableConfig`].
pub ghost struct TableConfigV {
    pub page_size: u64,
    pub visible_columns: Seq<Seq<char>>,
}

impl View for TableConfig {
    type V = TableConfigV;

    open spec fn view(&self) -> TableConfigV {
        TableConfigV { page_size: self.page_size, visible_columns: self.visible_columns.deep_view() }
    }
}

impl TableConfig {
    /// An owned copy with the same mathematical value.
    pub fn duplicate(&self) -> (r: TableConfig)
        ensures
            r@ == self@,
    {
        let cols = self.visible_columns.clone();
        proof {
            assert forall|i: int| 0 <= i < self.visible_columns@.len() implies cols@[i]@
                == self.visible_columns@[i]@ by {
                assert(cloned::<String>(self.visible_columns@[i], cols@[i]));
            }
            assert(cols.deep_view() =~= self.visible_columns.deep_view());
        }
        TableConfig { page_size: self.page_size, visible_columns: cols }
    }
}

/// The mapping an association sequence denotes, later entries overriding
/// earlier ones for the same table name.
pub open spec fn local_map_of(s: Seq<(String, TableConfig)>) -> Map<Seq<char>, TableConfigV>
    decreases s.len(),
{
    if s.len() == 0 {
        Map::empty()
    } else {
        local_map_of(s.drop_last()).insert(s.last().0@, s.last().1@)
    }
}

/// If index `i` holds the last entry for a name, the denoted mapping sends
/// that name to the configuration stored there.
proof fn lemma_local_last_match(s: Seq<(String, TableConfig)>, k: Seq<char>, i: int)
    requires
        0 <= i < s.len(),
        s[i].0@ == k,
        forall|j: int| i < j < s.len() ==> s[j].0@ != k,
    ensures
        local_map_of(s).contains_key(k),
        local_map_of(s)[k] == s[i].1@,
    decreases s.len(),
{
    if i < s.len() - 1 {
        lemma_local_last_match(s.drop_last(), k, i);
    }
}

/// A name that no entry carries is absent from the denoted mapping.
proof fn lemma_local_no_match(s: Seq<(String, TableConfig)>, k: Seq<char>)
    requires
        forall|j: int| 0 <= j < s.len() ==> s[j].0@ != k,
    ensures
        !local_map_of(s).contains_key(k),
    decreases s.len(),
{
    if s.len() > 0 {
        lemma_local_no_match(s.drop_last(), k);
    }
}

/// The local tier: an in-memory association from table name to configuration,
/// lost when its owning handle is destroyed.
#[derive(Debug)]
pub struct LocalStore {
    entries: Vec<(String, TableConfig)>,
}

impl View for LocalStore {
    type V = Map<Seq<char>, TableConfigV>;

    closed spec fn view(&self) -> Map<Seq<char>, TableConfigV> {
        local_map_of(self.entries@)
    }
}

impl LocalStore {
    /// An empty local tier.
    pub fn new() -> (r: LocalStore)
        ensures
            r@ == Map::<Seq<char>, TableConfigV>::empty(),
    {
        LocalStore { entries: Vec::new() }
    }

    /// Replaces the entry for `name`; the last write wins.
    pub fn save(&mut self, name: &str, cfg: TableConfig)
        ensures
            final(self)@ == old(self)@.insert(name@, cfg@),
    {
        let key = name.to_owned();
        self.entries.push((key, cfg));
        proof {
            assert(self.entries@.drop_last() =~= old(self).entries@);
        }
    }

    /// The configuration last saved under `name`, if any.
    pub fn fetch(&self, name: &str) -> (r: Option<TableConfig>)
        ensures
            match r {
                Some(cfg) => self@.contains_key(name@) && cfg@ == self@[name@],
                None => !self@.contains_key(name@),
            },
    {
        let key = name.to_owned();
        let mut i: usize = self.entries.len();
        while i > 0
            invariant
                i <= self.entries.len(),
                key@ == name@,
                forall|j: int| i <= j < self.entries@.len() ==> self.entries@[j].0@ != name@,
            decreases i,
        {
            i = i - 1;
            if self.entries[i].0 == key {
                proof {
                    lemma_local_last_match(self.entries@, name@, i as int);
                }
                return Some(self.entries[i].1.duplicate());
            }
        }
        proof {
            lemma_local_no_match(self.entries@, name@);
        }
        None
    }
}

/// The mapping a remote association sequence denotes, keyed by user and table.
pub open spec fn remote_map_of(s: Seq<(String, String, TableConfig)>) -> Map<
    (Seq<char>, Seq<char>),
    TableConfigV,
>
    decreases s.len(),
{
    if s.len() == 0 {
        Map::empty()
    } else {
        remote_map_of(s.drop_last()).insert((s.last().0@, s.last().1@), s.last().2@)
    }
}

proof fn lemma_remote_last_match(s: Seq<(String, String, TableConfig)>, k: (Seq<char>, Seq<char>), i: int)
    requires
        0 <= i < s.len(),
        (s[i].0@, s[i].1@) == k,
        forall|j: int| i < j < s.len() ==> (s[j].0@, s[j].1@) != k,
    ensures
        remote_map_of(s).contains_key(k),
        remote_map_of(s)[k] == s[i].2@,
    decreases s.len(),
{
    if i < s.len() - 1 {
        lemma_remote_last_match(s.drop_last(), k, i);
    }
}

proof fn lemma_remote_no_match(s: Seq<(String, String, TableConfig)>, k: (Seq<char>, Seq<char>))
    requires
        forall|j: int| 0 <= j < s.len() ==> (s[j].0@, s[j].1@) != k,
    ensures
        !remote_map_of(s).contains_key(k),
    decreases s.len(),
{
    if s.len() > 0 {
        lemma_remote_no_match(s.drop_last(), k);
    }
}

/// The remote persisted tier: the source of truth for table configurations,
/// keyed by user and table, surviving session teardown. `available` scripts
/// whether the persistence collaborator currently answers.
#[derive(Debug)]
pub struct RemoteStore {
    entries: Vec<(String, String, TableConfig)>,
    available: bool,
}

impl View for RemoteStore {
    type V = Map<(Seq<char>, Seq<char>), TableConfigV>;

    closed spec fn view(&self) -> Map<(Seq<char>, Seq<char>), TableConfigV> {
        remote_map_of(self.entries@)
    }
}

impl RemoteStore {
    /// Whether the persistence collaborator currently answers.
    pub closed spec fn is_available(&self) -> bool {
        self.available
    }

    /// Scripts whether the persistence collaborator answers; the stored
    /// configurations are untouched.
    pub fn set_available(&mut self, available: bool)
        ensures
            final(self).is_available() == available,
            final(self)@ == old(self)@,
    {
        self.available = available;
    }

    /// An empty, answering remote tier.
    pub fn new() -> (r: RemoteStore)
        ensures
            r@ == Map::<(Seq<char>, Seq<char>), TableConfigV>::empty(),
            r.is_available(),
    {
        RemoteStore { entries: Vec::new(), available: true }
    }

    /// Persists `cfg` under `(user, table)`; fails, leaving the tier
    /// unchanged, exactly when the collaborator is unavailable.
    pub fn put(&mut self, user: &str, table: &str, cfg: TableConfig) -> (r: Result<(), CoreError>)
        ensures
            final(self).is_available() == old(self).is_available(),
            old(self).is_available() ==> r is Ok && final(self)@ == old(self)@.insert(
                (user@, table@),
                cfg@,
            ),
            !old(self).is_available() ==> (r matches Err(e) && e matches CoreError::Config(
                ConfigError::PersistFailed { .. },
            ) && final(self)@ == old(self)@),
    {
        if !self.available {
            return Err(
                CoreError::Config(
                    ConfigError::PersistFailed { message: "remote persistence unavailable".to_owned() },
                ),
            );
        }
        let u = user.to_owned();
        let t = table.to_owned();
        self.entries.push((u, t, cfg));
        proof {
            assert(self.entries@.drop_last() =~= old(self).entries@);
        }
        Ok(())
    }

    /// The configuration persisted under `(user, table)`: `NotFound` when the
    /// tier holds none, `PersistFailed` when the collaborator is unavailable.
    pub fn fetch(&self, user: &str, table: &str) -> (r: Result<TableConfig, CoreError>)
        ensures
            !self.is_available() ==> (r matches Err(e) && e matches CoreError::Config(
                ConfigError::PersistFailed { .. },
            )),
            self.is_available() && self@.contains_key((user@, table@)) ==> (r matches Ok(cfg) && cfg@
                == self@[(user@, table@)]),
            self.is_available() && !self@.contains_key((user@, table@)) ==> r == Err::<
                TableConfig,
                CoreError,
            >(CoreError::Config(ConfigError::NotFound)),
    {
        if !self.available {
            return Err(
                CoreError::Config(
                    ConfigError::PersistFailed { message: "remote persistence unavailable".to_owned() },
                ),
            );
        }
        let u = user.to_owned();
        let t = table.to_owned();
        let mut i: usize = self.entries.len();
        while i > 0
            invariant
                self.available,
                i <= self.entries.len(),
                u@ == user@,
                t@ == table@,
                forall|j: int| i <= j < self.entries@.len() ==> (self.entries@[j].0@, self.entries@[j].1@)
                    != (user@, table@),
            decreases i,
        {
            i = i - 1;
            if self.entries[i].0 == u && self.entries[i].1 == t {
                proof {
                    lemma_remote_last_match(self.entries@, (user@, table@), i as int);
                }
                return Ok(self.entries[i].2.duplicate());
            }
        }
        proof {
            lemma_remote_no_match(self.entries@, (user@, table@));
        }
        Err(CoreError::Config(ConfigError::NotFound))
    }
}

/// Law: saving a configuration under a name and reading that name back yields
/// exactly the saved configuration, and when the same name is saved twice the
/// last write wins. Stated over the mapping that [`LocalStore::save`] and
/// [`LocalStore::fetch`] are specified against.
pub proof fn lemma_local_round_trip(
    m: Map<Seq<char>, TableConfigV>,
    name: Seq<char>,
    c1: TableConfigV,
    c2: TableConfigV,
)
    ensures
        m.insert(name, c1).contains_key(name),
        m.insert(name, c1)[name] == c1,
        m.insert(name, c1).insert(name, c2)[name] == c2,
{
}

} // verus!
