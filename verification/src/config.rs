//! Immutable connection configurations: how to reach one database, which
//! backend implementation to use, and — for the simulated backend that stands
//! in for a real engine in tests — the scripted behaviour of that backend.

use vstd::prelude::*;

use crate::table::{TableSummary, TableSummaryV};

verus! {

/// Which connector implementation a configuration targets.
#[derive(Clone, Copy, Debug, PartialEq, Eq, Structural)]
pub enum BackendKind {
    /// A relational SQL engine reached over the network.
    Sql,
    /// A deterministic in-process backend used as a test double.
    Simulated,
}

/// Scripted behaviour of the simulated backend: whether it can be reached,
/// whether credentials pass, which tables it exposes, and how many backend
/// operations succeed before the connection is scripted to drop.
#[derive(Debug)]
pub struct SimulatedBackend {
    pub reachable: bool,
    pub auth_ok: bool,
    pub tables: Vec<TableSummary>,
    pub healthy_ops: u64,
}

/// Mathematical image of a [`SimulatedBackend`].
pub ghost struct SimulatedBackendV {
    pub reachable: bool,
    pub auth_ok: bool,
    pub tables: Seq<TableSummaryV>,
    pub healthy_ops: u64,
}

impl View for SimulatedBackend {
    type V = SimulatedBackendV;

    open spec fn view(&self) -> SimulatedBackendV {
        SimulatedBackendV {
            reachable: self.reachable,
            auth_ok: self.auth_ok,
            tables: self.tables.deep_view(),
            healthy_ops: self.healthy_ops,
        }
    }
}

/// The backend-kind tag together with its backend-specific options.
#[derive(Debug)]
pub enum BackendSpec {
    Sql,
    Simulated(SimulatedBackend),
}

/// Mathematical image of a [`BackendSpec`].
pub ghost enum BackendSpecV {
    Sql,
    Simulated(SimulatedBackendV),
}

impl View for BackendSpec {
    type V = BackendSpecV;

    open spec fn view(&self) -> BackendSpecV {
        match self {
            BackendSpec::Sql => BackendSpecV::Sql,
            BackendSpec::Simulated(sim) => BackendSpecV::Simulated(sim@),
        }
    }
}

impl BackendSpec {
    /// The bare backend-kind tag of this specification.
    pub open spec fn kind(&self) -> BackendKind {
        match self {
            BackendSpec::Sql => BackendKind::Sql,
            BackendSpec::Simulated(_) => BackendKind::Simulated,
        }
    }
}

/// Immutable description of how to reach one database: address, credentials,
/// backend selection, and an optional schema name.
#[derive(Debug)]
pub struct Config {
    pub host: String,
    pub port: u16,
    pub username: String,
    pub password: String,
    pub database: Option<String>,
    pub backend: BackendSpec,
}

/// Mathematical image of a [`Config`].
pub ghost struct ConfigV {
    pub host: Seq<char>,
    pub port: u16,
    pub username: Seq<char>,
    pub password: Seq<char>,
    pub database: Option<Seq<char>>,
    pub backend: BackendSpecV,
}

impl View for Config {
    type V = ConfigV;

    open spec fn view(&self) -> ConfigV {
        ConfigV {
            host: self.host@,
            port: self.port,
            username: self.username@,
            password: self.password@,
            database: self.database.deep_view(),
            backend: self.backend@,
        }
    }
}

impl Config {
    /// The backend-kind tag this configuration targets.
    pub open spec fn kind(&self) -> BackendKind {
        self.backend.kind()
    }

    /// Whether this configuration targets the simulated backend.
    pub open spec fn is_simulated(&self) -> bool {
        self.backend is Simulated
    }

    /// The scripted behaviour, when the simulated backend is targeted.
    pub open spec fn sim(&self) -> SimulatedBackendV
        recommends
            self.is_simulated(),
    {
        self.backend@->Simulated_0
    }
}

} // verus!
