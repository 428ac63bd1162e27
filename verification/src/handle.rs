//! The per-session connection handle: one connector, the owning user, a
//! generated session identifier, and the local tier of the table-config
//! store. A handle is *Active* until an operation surfaces a lost
//! connection; from then on it is *Broken* and every operation fails
//! immediately with the lost-connection error, without touching the backend.

use vstd::prelude::*;

use crate::config::{BackendKind, Config, SimulatedBackendV};
use crate::connector::{native_summary, same_script, summary_of_native_row, Connector};
use crate::errors::{ConfigError, ConnectionError, CoreError};
use crate::outside::generate_session_id;
use crate::table::{
    LocalStore, RemoteStore, TableConfig, TableConfigV, TableList, TableSummary, TableSummaryV,
};

verus! {

/// Whether the handle's connection is still usable.
#[derive(Clone, Copy, Debug, PartialEq, Eq, Structural)]
pub enum SessionState {
    Active,
    Broken,
}

/// What `details` reports about one handle.
#[derive(Debug)]
pub struct ConnectionDetails {
    pub session_id: u128,
    pub user_id: String,
    pub backend: BackendKind,
    pub reachable: bool,
}

/// A sequence of scripted tables exposes `name` exactly when some summary
/// carries that name.
pub open spec fn tables_contain(tables: Seq<TableSummaryV>, name: Seq<char>) -> bool {
    exists|i: int| 0 <= i < tables.len() && tables[i].name == name
}

/// The polymorphic session object: connector, identity, and the local
/// configuration tier.
pub struct Handle {
    session_id: u128,
    user_id: String,
    state: SessionState,
    connector: Connector,
    local: LocalStore,
}

impl Handle {
    /// The connector's implementation matches its configuration's tag.
    pub open spec fn wf(&self) -> bool {
        self.connector_spec().wf()
    }

    pub closed spec fn connector_spec(&self) -> Connector {
        self.connector
    }

    /// The generated, immutable session identifier.
    pub closed spec fn session_id_spec(&self) -> u128 {
        self.session_id
    }

    /// The owning user, set at creation and immutable.
    pub closed spec fn user_spec(&self) -> Seq<char> {
        self.user_id@
    }

    /// Whether the handle is still *Active* (as opposed to *Broken*).
    pub closed spec fn is_active(&self) -> bool {
        self.state is Active
    }

    /// The backend-kind tag of the owned connector.
    pub open spec fn backend_spec(&self) -> BackendKind {
        self.connector_spec().kind_spec()
    }

    pub open spec fn is_simulated(&self) -> bool {
        self.connector_spec().is_simulated()
    }

    /// The scripted behaviour, when the simulated backend is targeted.
    pub open spec fn sim(&self) -> SimulatedBackendV
        recommends
            self.is_simulated(),
    {
        self.connector_spec().sim()
    }

    /// The simulated backend's remaining scripted operation budget.
    pub open spec fn sim_remaining(&self) -> u64 {
        self.connector_spec().remaining_spec()
    }

    /// The local tier of the table-config store, as the mapping it holds.
    pub closed spec fn local_view(&self) -> Map<Seq<char>, TableConfigV> {
        self.local@
    }
}

/// A handle as `Handle::new` hands it out for `config` and `user`: well
/// formed, active, carrying that user, an empty local tier, and the
/// configuration it was asked for.
pub open spec fn fresh_handle(h: Handle, config: Config, user: Seq<char>) -> bool {
    &&& h.wf()
    &&& h.user_spec() == user
    &&& h.is_active()
    &&& h.local_view() == Map::<Seq<char>, TableConfigV>::empty()
    &&& h.backend_spec() == config.kind()
    &&& h.connector_spec().config_spec()@ == config@
    &&& (config.is_simulated() ==> h.sim() == config.sim() && h.sim_remaining()
        == config.sim().healthy_ops)
}

/// Both handles are the same session: same identity, same backend, same
/// scripted configuration; what may differ is the state machine, the local
/// tier, and the consumed operation budget.
pub open spec fn same_session(a: Handle, b: Handle) -> bool {
    &&& a.session_id_spec() == b.session_id_spec()
    &&& a.user_spec() == b.user_spec()
    &&& same_script(a.connector_spec(), b.connector_spec())
}

/// Copies scripted summaries into a freshly computed table list.
fn copy_summaries(src: &Vec<TableSummary>) -> (r: Vec<TableSummary>)
    ensures
        r.deep_view() == src.deep_view(),
{
    let mut out: Vec<TableSummary> = Vec::new();
    let mut i: usize = 0;
    while i < src.len()
        invariant
            i <= src.len(),
            out@.len() == i as int,
            forall|j: int| 0 <= j < i ==> out@[j]@ == src@[j]@,
        decreases src.len() - i,
    {
        out.push(src[i].duplicate());
        i = i + 1;
    }
    proof {
        assert(out.deep_view() =~= src.deep_view());
    }
    out
}

/// The summaries a sequence of native metadata rows denotes, in the rows'
/// order; a row whose name cell is unreadable contributes none.
pub open spec fn summaries_of_rows(rows: Seq<mysql::Row>) -> Seq<TableSummaryV>
    decreases rows.len(),
{
    if rows.len() == 0 {
        Seq::empty()
    } else {
        let init = summaries_of_rows(rows.drop_last());
        match native_summary(rows.last()) {
            Some(s) => init.push(s),
            None => init,
        }
    }
}

/// Reads the native metadata rows into exactly the summaries they denote,
/// keeping the backend's natural row order.
pub fn parse_native_rows(rows: &Vec<mysql::Row>) -> (r: TableList)
    ensures
        r.deep_view() == summaries_of_rows(rows@),
{
    let mut list: Vec<TableSummary> = Vec::new();
    let mut i: usize = 0;
    while i < rows.len()
        invariant
            i <= rows.len(),
            list.deep_view() == summaries_of_rows(rows@.take(i as int)),
        decreases rows.len() - i,
    {
        let ghost pre = list.deep_view();
        match summary_of_native_row(&rows[i]) {
            Some(summary) => {
                let ghost sv = summary@;
                list.push(summary);
                proof {
                    assert(list.deep_view() =~= pre.push(sv));
                }
            },
            None => (),
        }
        proof {
            assert(rows@.take(i as int + 1).drop_last() =~= rows@.take(i as int));
            assert(rows@.take(i as int + 1).last() == rows@[i as int]);
        }
        i = i + 1;
    }
    proof {
        assert(rows@.take(rows@.len() as int) =~= rows@);
    }
    list
}

/// The backend-agnostic half of an existence check: a table exists exactly
/// when the metadata lookup returned at least one row.
pub fn any_rows(rows: &Vec<mysql::Row>) -> (r: bool)
    ensures
        r == (rows@.len() > 0),
{
    rows.len() > 0
}

impl Handle {
    /// Selects and constructs the connector matching the configuration's
    /// backend-kind tag, generates a fresh session identifier, and starts
    /// with an empty local configuration tier. Fails with whatever the
    /// connector construction fails with.
    pub fn new(config: Config, user_id: &str) -> (r: Result<Handle, ConnectionError>)
        ensures
            r matches Ok(h) ==> fresh_handle(h, config, user_id@),
            config.is_simulated() ==> ((r is Ok) <==> (config.sim().reachable
                && config.sim().auth_ok)),
            config.is_simulated() && !config.sim().reachable ==> (r matches Err(e)
                && e is Unreachable),
            config.is_simulated() && config.sim().reachable && !config.sim().auth_ok ==> (
            r matches Err(e) && e is AuthFailed),
            !config.is_simulated() ==> (r matches Err(e) ==> (e matches
            ConnectionError::Unreachable { message } && message@.len() > 0)),
    {
        let connector = match Connector::new(config) {
            Ok(c) => c,
            Err(e) => {
                return Err(e);
            },
        };
        let session_id = generate_session_id();
        let user_id = user_id.to_owned();
        Ok(
            Handle {
                session_id,
                user_id,
                state: SessionState::Active,
                connector,
                local: LocalStore::new(),
            },
        )
    }

    /// The generated session identifier.
    pub fn session_id(&self) -> (r: u128)
        ensures
            r == self.session_id_spec(),
    {
        self.session_id
    }

    /// Whether the handle is still *Active*.
    pub fn active(&self) -> (r: bool)
        ensures
            r == self.is_active(),
    {
        self.state == SessionState::Active
    }

    /// Whether this handle belongs to `user`.
    pub fn owns(&self, user: &String) -> (r: bool)
        ensures
            r == (self.user_spec() == user@),
    {
        self.user_id == *user
    }

    /// The handle's identity and reachability; never fails, it only reflects
    /// current state.
    pub fn details(&self) -> (d: ConnectionDetails)
        ensures
            d.session_id == self.session_id_spec(),
            d.user_id@ == self.user_spec(),
            d.backend == self.backend_spec(),
            d.reachable == self.is_active(),
    {
        ConnectionDetails {
            session_id: self.session_id,
            user_id: self.user_id.clone(),
            backend: self.connector.kind(),
            reachable: self.state == SessionState::Active,
        }
    }

    /// Issues the backend metadata query through the owned connector and
    /// returns a freshly computed list of table summaries, in the backend's
    /// natural order, never served from a cache. On the simulated backend the
    /// list is exactly the scripted one.
    pub fn load_tables(&mut self) -> (r: Result<TableList, CoreError>)
        requires
            old(self).wf(),
        ensures
            final(self).wf(),
            same_session(*old(self), *final(self)),
            final(self).local_view() == old(self).local_view(),
            !old(self).is_active() ==> (r == Err::<TableList, CoreError>(
                CoreError::Connection(ConnectionError::Lost),
            ) && *final(self) == *old(self)),
            old(self).is_active() && old(self).is_simulated() ==> {
                &&& (old(self).sim_remaining() == 0 ==> (r == Err::<TableList, CoreError>(
                    CoreError::Connection(ConnectionError::Lost),
                ) && !final(self).is_active() && final(self).sim_remaining() == 0))
                &&& (old(self).sim_remaining() > 0 ==> (final(self).is_active() && final(self).sim_remaining() == old(self).sim_remaining() - 1 && (r matches Ok(list)
                    && list.deep_view() == old(self).sim().tables)))
            },
            old(self).is_active() && !old(self).is_simulated() ==> {
                &&& ((r matches Err(e) && e == CoreError::Connection(ConnectionError::Lost))
                    <==> !final(self).is_active())
                &&& (r matches Err(e) ==> (e == CoreError::Connection(ConnectionError::Lost)
                    || e matches CoreError::Query(..)))
            },
    {
        if self.state == SessionState::Broken {
            return Err(CoreError::Connection(ConnectionError::Lost));
        }
        proof {
            reveal_strlit(
                "SELECT t.table_name, t.table_rows, (SELECT COUNT(*) FROM information_schema.columns c WHERE c.table_schema = t.table_schema AND c.table_name = t.table_name) FROM information_schema.tables t WHERE t.table_schema = DATABASE()",
            );
        }
        match self.connector.execute(
            "SELECT t.table_name, t.table_rows, (SELECT COUNT(*) FROM information_schema.columns c WHERE c.table_schema = t.table_schema AND c.table_name = t.table_name) FROM information_schema.tables t WHERE t.table_schema = DATABASE()",
        ) {
            Err(e) => {
                if matches!(e, CoreError::Connection(ConnectionError::Lost)) {
                    self.state = SessionState::Broken;
                }
                Err(e)
            },
            Ok(rows) => {
                let kind = self.connector.kind();
                if kind == BackendKind::Simulated {
                    Ok(copy_summaries(self.connector.simulated_tables()))
                } else {
                    Ok(parse_native_rows(&rows))
                }
            },
        }
    }

    /// Asks the backend whether a table of exactly this name exists; no name
    /// normalization happens at this layer. On the simulated backend the
    /// answer is read off the scripted tables.
    pub fn table_exists(&mut self, name: &str) -> (r: Result<bool, CoreError>)
        requires
            old(self).wf(),
        ensures
            final(self).wf(),
            same_session(*old(self), *final(self)),
            final(self).local_view() == old(self).local_view(),
            !old(self).is_active() ==> (r == Err::<bool, CoreError>(
                CoreError::Connection(ConnectionError::Lost),
            ) && *final(self) == *old(self)),
            old(self).is_active() && old(self).is_simulated() ==> {
                &&& (old(self).sim_remaining() == 0 ==> (r == Err::<bool, CoreError>(
                    CoreError::Connection(ConnectionError::Lost),
                ) && !final(self).is_active() && final(self).sim_remaining() == 0))
                &&& (old(self).sim_remaining() > 0 ==> (final(self).is_active() && final(self).sim_remaining() == old(self).sim_remaining() - 1 && r == Ok::<bool, CoreError>(
                    tables_contain(old(self).sim().tables, name@),
                )))
            },
            old(self).is_active() && !old(self).is_simulated() ==> {
                &&& ((r matches Err(e) && e == CoreError::Connection(ConnectionError::Lost))
                    <==> !final(self).is_active())
                &&& (r matches Err(e) ==> (e == CoreError::Connection(ConnectionError::Lost)
                    || e matches CoreError::Query(..)))
            },
    {
        if self.state == SessionState::Broken {
            return Err(CoreError::Connection(ConnectionError::Lost));
        }
        proof {
            reveal_strlit(
                "SELECT table_name FROM information_schema.tables WHERE table_schema = DATABASE() AND table_name = ?",
            );
        }
        match self.connector.execute_lookup(
            "SELECT table_name FROM information_schema.tables WHERE table_schema = DATABASE() AND table_name = ?",
            name,
        ) {
            Err(e) => {
                if matches!(e, CoreError::Connection(ConnectionError::Lost)) {
                    self.state = SessionState::Broken;
                }
                Err(e)
            },
            Ok(rows) => {
                let kind = self.connector.kind();
                if kind == BackendKind::Simulated {
                    Ok(contains_name(self.connector.simulated_tables(), name))
                } else {
                    Ok(any_rows(&rows))
                }
            },
        }
    }

    /// Saves a table configuration. Locally the write replaces the entry for
    /// `name` — idempotent, last write wins, and the remote tier is untouched.
    /// Remotely the write is delegated to the persistence collaborator; on a
    /// remote failure the local tier is left unchanged and the failure is
    /// reported.
    pub fn save_table_config(
        &mut self,
        name: &str,
        cfg: TableConfig,
        persist_remotely: bool,
        remote: &mut RemoteStore,
    ) -> (r: Result<(), CoreError>)
        requires
            old(self).wf(),
        ensures
            final(self).wf(),
            same_session(*old(self), *final(self)),
            final(self).is_active() == old(self).is_active(),
            final(self).sim_remaining() == old(self).sim_remaining(),
            final(remote).is_available() == old(remote).is_available(),
            !old(self).is_active() ==> (r == Err::<(), CoreError>(
                CoreError::Connection(ConnectionError::Lost),
            ) && *final(self) == *old(self) && *final(remote) == *old(remote)),
            old(self).is_active() && !persist_remotely ==> (r is Ok && final(self).local_view()
                == old(self).local_view().insert(name@, cfg@) && *final(remote) == *old(remote)),
            old(self).is_active() && persist_remotely ==> {
                &&& final(self).local_view() == old(self).local_view()
                &&& (old(remote).is_available() ==> (r is Ok && final(remote)@ == old(remote)@.insert(
                    (old(self).user_spec(), name@),
                    cfg@,
                )))
                &&& (!old(remote).is_available() ==> ((r matches Err(e) && e matches
                    CoreError::Config(ConfigError::PersistFailed { .. })) && final(remote)@ == old(remote)@))
            },
    {
        if self.state == SessionState::Broken {
            return Err(CoreError::Connection(ConnectionError::Lost));
        }
        if !persist_remotely {
            self.local.save(name, cfg);
            Ok(())
        } else {
            match remote.put(self.user_id.as_str(), name, cfg) {
                Ok(()) => Ok(()),
                Err(e) => Err(e),
            }
        }
    }

    /// Reads a table configuration from the tier the caller names — the local
    /// working draft or the persisted source of truth — with no fallback
    /// between the tiers.
    pub fn get_table_config(&self, name: &str, from_remote: bool, remote: &RemoteStore) -> (r:
        Result<TableConfig, CoreError>)
        ensures
            !self.is_active() ==> r == Err::<TableConfig, CoreError>(
                CoreError::Connection(ConnectionError::Lost),
            ),
            self.is_active() && !from_remote ==> {
                &&& (self.local_view().contains_key(name@) ==> (r matches Ok(cfg) && cfg@
                    == self.local_view()[name@]))
                &&& (!self.local_view().contains_key(name@) ==> r == Err::<TableConfig, CoreError>(
                    CoreError::Config(ConfigError::NotFound),
                ))
            },
            self.is_active() && from_remote ==> {
                &&& (!remote.is_available() ==> (r matches Err(e) && e matches CoreError::Config(
                    ConfigError::PersistFailed { .. },
                )))
                &&& (remote.is_available() && remote@.contains_key((self.user_spec(), name@)) ==> (
                r matches Ok(cfg) && cfg@ == remote@[(self.user_spec(), name@)]))
                &&& (remote.is_available() && !remote@.contains_key((self.user_spec(), name@))
                    ==> r == Err::<TableConfig, CoreError>(CoreError::Config(ConfigError::NotFound)))
            },
    {
        if self.state == SessionState::Broken {
            return Err(CoreError::Connection(ConnectionError::Lost));
        }
        if !from_remote {
            match self.local.fetch(name) {
                Some(cfg) => Ok(cfg),
                None => Err(CoreError::Config(ConfigError::NotFound)),
            }
        } else {
            remote.fetch(self.user_id.as_str(), name)
        }
    }
}

/// Whether some scripted summary carries exactly this name.
fn contains_name(tables: &Vec<TableSummary>, name: &str) -> (r: bool)
    ensures
        r == tables_contain(tables.deep_view(), name@),
{
    let key = name.to_owned();
    let mut i: usize = 0;
    while i < tables.len()
        invariant
            i <= tables.len(),
            key@ == name@,
            forall|j: int| 0 <= j < i ==> tables@[j].name@ != name@,
        decreases tables.len() - i,
    {
        if tables[i].name == key {
            proof {
                assert(tables.deep_view()[i as int].name == name@);
            }
            return true;
        }
        i = i + 1;
    }
    proof {
        assert(forall|j: int| 0 <= j < tables.deep_view().len() ==> tables.deep_view()[j].name
            != name@);
    }
    false
}

/// Law: a freshly constructed handle reports exactly the user it was created
/// for — `details` is specified to report `user_spec`, and on a fresh handle
/// `user_spec` is the creating user, so the two compose.
pub proof fn lemma_details_report_owner(
    h: Handle,
    config: Config,
    user: Seq<char>,
    reported: Seq<char>,
)
    requires
        fresh_handle(h, config, user),
        reported == h.user_spec(),
    ensures
        reported == user,
{
}

/// Law (tier isolation): a remote read is decided by the remote tier alone.
/// After a local-only save of `name` the local tier holds the entry while the
/// remote key stays absent, so a remote read of the same name still misses —
/// a prior local-only save never satisfies it.
pub proof fn lemma_tier_isolation(
    local: Map<Seq<char>, TableConfigV>,
    remote: Map<(Seq<char>, Seq<char>), TableConfigV>,
    user: Seq<char>,
    name: Seq<char>,
    cfg: TableConfigV,
)
    requires
        !remote.contains_key((user, name)),
    ensures
        local.insert(name, cfg).contains_key(name),
        !remote.contains_key((user, name)),
{
}

} // verus!
