//! The closed connector abstraction: one variant per supported backend. The
//! SQL variant owns a live network connection driven through the trusted
//! boundary; the simulated variant is a deterministic in-process engine whose
//! behaviour is fully scripted by its configuration.

use vstd::prelude::*;
use vstd::string::StringExecFns;

use crate::config::{BackendKind, BackendSpec, Config, SimulatedBackendV};
use crate::errors::{ConnectionError, CoreError, QueryError};
use crate::outside::{
    backend_error_text, connection_was_lost, count_cell, open_connection, parse_db_url, row_count,
    row_text, run_lookup_query, run_text_query, server_error_code, text_cell, url_error_text,
};
use crate::table::{TableSummary, TableSummaryV};

verus! {

/// The server-side code for a statement the backend could not parse.
pub const PARSE_ERROR_CODE: u16 = 1064;

/// The SQL-engine connector: the configuration it was built from and the
/// eagerly opened network connection it owns for its whole lifetime.
pub struct SqlConnector {
    config: Config,
    conn: mysql::Conn,
}

/// The simulated connector: its scripted configuration and how many further
/// backend operations succeed before the connection is scripted to drop.
pub struct SimulatedConnector {
    config: Config,
    remaining: u64,
}

/// A backend connection, selected from the configuration's backend-kind tag
/// at construction time.
pub enum Connector {
    Sql(SqlConnector),
    Simulated(SimulatedConnector),
}

impl Connector {
    /// The configuration this connector was built from.
    pub closed spec fn config_spec(&self) -> Config {
        match self {
            Connector::Sql(c) => c.config,
            Connector::Simulated(c) => c.config,
        }
    }

    /// The backend-kind tag of the implementation actually held.
    pub closed spec fn kind_spec(&self) -> BackendKind {
        match self {
            Connector::Sql(_) => BackendKind::Sql,
            Connector::Simulated(_) => BackendKind::Simulated,
        }
    }

    /// The tag of the held implementation matches the configuration's tag.
    pub open spec fn wf(&self) -> bool {
        self.kind_spec() == self.config_spec().kind()
    }

    pub open spec fn is_simulated(&self) -> bool {
        self.kind_spec() == BackendKind::Simulated
    }

    /// The scripted behaviour, for the simulated variant.
    pub open spec fn sim(&self) -> SimulatedBackendV
        recommends
            self.is_simulated(),
    {
        self.config_spec().sim()
    }

    /// How many further backend operations the simulated variant answers.
    pub closed spec fn remaining_spec(&self) -> u64 {
        match self {
            Connector::Sql(_) => 0,
            Connector::Simulated(c) => c.remaining,
        }
    }
}

/// Both connectors target the same backend with the same configuration; what
/// may differ is consumable state such as the scripted operation budget.
pub open spec fn same_script(a: Connector, b: Connector) -> bool {
    a.kind_spec() == b.kind_spec() && a.config_spec()@ == b.config_spec()@
}

/// The character a decimal digit prints as.
pub open spec fn digit_char(d: int) -> char
    recommends
        0 <= d <= 9,
{
    if d == 0 {
        '0'
    } else if d == 1 {
        '1'
    } else if d == 2 {
        '2'
    } else if d == 3 {
        '3'
    } else if d == 4 {
        '4'
    } else if d == 5 {
        '5'
    } else if d == 6 {
        '6'
    } else if d == 7 {
        '7'
    } else if d == 8 {
        '8'
    } else {
        '9'
    }
}

/// The decimal rendering of a non-negative number, most significant digit
/// first, no leading zeroes.
pub open spec fn decimal_of(n: int) -> Seq<char>
    recommends
        n >= 0,
    decreases n,
{
    if n < 10 {
        seq![digit_char(n)]
    } else {
        decimal_of(n / 10).push(digit_char(n % 10))
    }
}

/// Renders one decimal digit.
fn digit_text(d: u16) -> (r: &'static str)
    requires
        d <= 9,
    ensures
        r@ == seq![digit_char(d as int)],
{
    proof {
        reveal_strlit("0");
        reveal_strlit("1");
        reveal_strlit("2");
        reveal_strlit("3");
        reveal_strlit("4");
        reveal_strlit("5");
        reveal_strlit("6");
        reveal_strlit("7");
        reveal_strlit("8");
        reveal_strlit("9");
    }
    let r = match d {
        0 => "0",
        1 => "1",
        2 => "2",
        3 => "3",
        4 => "4",
        5 => "5",
        6 => "6",
        7 => "7",
        8 => "8",
        _ => "9",
    };
    proof {
        assert(r@ =~= seq![digit_char(d as int)]);
    }
    r
}

/// Renders a port number in decimal.
fn u16_decimal(n: u16) -> (r: String)
    ensures
        r@ == decimal_of(n as int),
    decreases n,
{
    if n < 10 {
        digit_text(n).to_owned()
    } else {
        let r = u16_decimal(n / 10).concat(digit_text(n % 10));
        proof {
            assert(r@ =~= decimal_of(n as int));
        }
        r
    }
}

/// The connection URL the SQL engine is reached under: scheme, credentials,
/// address, and the database when one is named.
pub open spec fn sql_url_of(c: crate::config::ConfigV) -> Seq<char> {
    let base = "mysql://"@ + c.username + ":"@ + c.password + "@"@ + c.host + ":"@ + decimal_of(
        c.port as int,
    );
    match c.database {
        Some(db) => base + "/"@ + db,
        None => base,
    }
}

/// Builds the connection URL the SQL engine is reached under.
fn build_url(config: &Config) -> (r: String)
    ensures
        r@ == sql_url_of(config@),
{
    proof {
        reveal_strlit("mysql://");
        reveal_strlit(":");
        reveal_strlit("@");
        reveal_strlit("/");
    }
    let port_text = u16_decimal(config.port);
    let url = "mysql://".to_owned()
        .concat(config.username.as_str())
        .concat(":")
        .concat(config.password.as_str())
        .concat("@")
        .concat(config.host.as_str())
        .concat(":")
        .concat(port_text.as_str());
    let r = match &config.database {
        Some(db) => url.concat("/").concat(db.as_str()),
        None => url,
    };
    proof {
        assert(r@ =~= sql_url_of(config@));
    }
    r
}

/// Folds the facts read off a backend failure into the uniform taxonomy: a
/// broken transport is a lost connection, a parse rejection is the caller's
/// malformed query, anything else is a backend fault with the diagnostic
/// message preserved verbatim.
fn classify_backend_failure(lost: bool, server_code: Option<u16>, text: String) -> (r: CoreError)
    ensures
        lost ==> r == CoreError::Connection(ConnectionError::Lost),
        !lost && server_code == Some(PARSE_ERROR_CODE) ==> (r matches CoreError::Query(
            QueryError::Malformed { message },
        ) && message@ == text@),
        !lost && server_code != Some(PARSE_ERROR_CODE) ==> (r matches CoreError::Query(
            QueryError::BackendFault { message },
        ) && message@ == text@),
{
    if lost {
        CoreError::Connection(ConnectionError::Lost)
    } else {
        match server_code {
            Some(code) => {
                if code == PARSE_ERROR_CODE {
                    CoreError::Query(QueryError::Malformed { message: text })
                } else {
                    CoreError::Query(QueryError::BackendFault { message: text })
                }
            },
            None => CoreError::Query(QueryError::BackendFault { message: text }),
        }
    }
}

impl Connector {
    /// Selects and builds the connector matching the configuration's
    /// backend-kind tag, opening the underlying connection eagerly. For the
    /// simulated backend, construction succeeds exactly when the script says
    /// the backend is reachable and the credentials pass.
    pub fn new(config: Config) -> (r: Result<Connector, ConnectionError>)
        ensures
            r matches Ok(c) ==> c.wf() && c.config_spec()@ == config@ && c.kind_spec()
                == config.kind() && (config.is_simulated() ==> c.remaining_spec()
                == config.sim().healthy_ops),
            config.is_simulated() ==> ((r is Ok) <==> (config.sim().reachable
                && config.sim().auth_ok)),
            config.is_simulated() && !config.sim().reachable ==> (r matches Err(e)
                && e is Unreachable),
            config.is_simulated() && config.sim().reachable && !config.sim().auth_ok ==> (
            r matches Err(e) && e is AuthFailed),
            !config.is_simulated() ==> (r matches Err(e) ==> (e matches
            ConnectionError::Unreachable { message } && message@.len() > 0)),
    {
        match &config.backend {
            BackendSpec::Simulated(sim) => {
                if !sim.reachable {
                    Err(
                        ConnectionError::Unreachable {
                            message: "simulated backend unreachable".to_owned(),
                        },
                    )
                } else if !sim.auth_ok {
                    Err(
                        ConnectionError::AuthFailed {
                            message: "simulated backend rejected the credentials".to_owned(),
                        },
                    )
                } else {
                    let remaining = sim.healthy_ops;
                    Ok(Connector::Simulated(SimulatedConnector { config, remaining }))
                }
            },
            BackendSpec::Sql => {
                let url = build_url(&config);
                match parse_db_url(url.as_str()) {
                    Err(ue) => Err(ConnectionError::Unreachable { message: url_error_text(&ue) }),
                    Ok(opts) => match open_connection(opts) {
                        Err(e) => Err(
                            ConnectionError::Unreachable { message: backend_error_text(&e) },
                        ),
                        Ok(conn) => Ok(Connector::Sql(SqlConnector { config, conn })),
                    },
                }
            },
        }
    }

    /// Read-only access to the configuration used to construct this
    /// connector.
    pub fn config(&self) -> (r: &Config)
        ensures
            *r == self.config_spec(),
    {
        match self {
            Connector::Sql(c) => &c.config,
            Connector::Simulated(c) => &c.config,
        }
    }

    /// The backend-kind tag of the implementation actually held.
    pub fn kind(&self) -> (k: BackendKind)
        ensures
            k == self.kind_spec(),
    {
        match self {
            Connector::Sql(_) => BackendKind::Sql,
            Connector::Simulated(_) => BackendKind::Simulated,
        }
    }

    /// The tables the simulated backend is scripted to expose.
    pub fn simulated_tables(&self) -> (r: &Vec<TableSummary>)
        requires
            self.wf(),
            self.is_simulated(),
        ensures
            r.deep_view() == self.sim().tables,
    {
        match self {
            Connector::Simulated(c) => match &c.config.backend {
                BackendSpec::Simulated(s) => &s.tables,
                BackendSpec::Sql => unreached(),
            },
            Connector::Sql(_) => unreached(),
        }
    }

    /// Sends one query and materializes every resulting row. The simulated
    /// backend consumes one scripted operation, reports a lost connection
    /// once its budget is exhausted, and rejects an empty statement as
    /// malformed; the SQL engine's failures are classified into the uniform
    /// taxonomy.
    pub fn execute(&mut self, query: &str) -> (r: Result<Vec<mysql::Row>, CoreError>)
        requires
            old(self).wf(),
        ensures
            final(self).wf(),
            same_script(*old(self), *final(self)),
            old(self).is_simulated() ==> {
                &&& (old(self).remaining_spec() == 0 ==> r == Err::<Vec<mysql::Row>, CoreError>(
                    CoreError::Connection(ConnectionError::Lost),
                ) && *final(self) == *old(self))
                &&& (old(self).remaining_spec() > 0 ==> {
                    &&& final(self).remaining_spec() == old(self).remaining_spec() - 1
                    &&& (query@.len() == 0 ==> (r matches Err(e) && e matches CoreError::Query(
                        QueryError::Malformed { .. },
                    )))
                    &&& (query@.len() > 0 ==> (r matches Ok(rows) && rows@.len() == 0))
                })
            },
            !old(self).is_simulated() ==> {
                &&& final(self).config_spec() == old(self).config_spec()
                &&& (r matches Err(e) ==> (e == CoreError::Connection(ConnectionError::Lost)
                    || e matches CoreError::Query(..)))
            },
    {
        match self {
            Connector::Simulated(sim) => {
                if sim.remaining == 0 {
                    Err(CoreError::Connection(ConnectionError::Lost))
                } else {
                    sim.remaining = sim.remaining - 1;
                    if query.is_empty() {
                        Err(
                            CoreError::Query(
                                QueryError::Malformed {
                                    message: "the backend rejected an empty statement".to_owned(),
                                },
                            ),
                        )
                    } else {
                        Ok(Vec::new())
                    }
                }
            },
            Connector::Sql(sql) => {
                match run_text_query(&mut sql.conn, query) {
                    Ok(rows) => Ok(rows),
                    Err(e) => {
                        let lost = connection_was_lost(&e);
                        let code = server_error_code(&e);
                        let text = backend_error_text(&e);
                        Err(classify_backend_failure(lost, code, text))
                    },
                }
            },
        }
    }

    /// Like [`Connector::execute`], with one parameter bound server-side so
    /// the parameter text never becomes part of the statement.
    pub fn execute_lookup(&mut self, query: &str, param: &str) -> (r: Result<
        Vec<mysql::Row>,
        CoreError,
    >)
        requires
            old(self).wf(),
        ensures
            final(self).wf(),
            same_script(*old(self), *final(self)),
            old(self).is_simulated() ==> {
                &&& (old(self).remaining_spec() == 0 ==> r == Err::<Vec<mysql::Row>, CoreError>(
                    CoreError::Connection(ConnectionError::Lost),
                ) && *final(self) == *old(self))
                &&& (old(self).remaining_spec() > 0 ==> {
                    &&& final(self).remaining_spec() == old(self).remaining_spec() - 1
                    &&& (query@.len() == 0 ==> (r matches Err(e) && e matches CoreError::Query(
                        QueryError::Malformed { .. },
                    )))
                    &&& (query@.len() > 0 ==> (r matches Ok(rows) && rows@.len() == 0))
                })
            },
            !old(self).is_simulated() ==> {
                &&& final(self).config_spec() == old(self).config_spec()
                &&& (r matches Err(e) ==> (e == CoreError::Connection(ConnectionError::Lost)
                    || e matches CoreError::Query(..)))
            },
    {
        match self {
            Connector::Simulated(sim) => {
                if sim.remaining == 0 {
                    Err(CoreError::Connection(ConnectionError::Lost))
                } else {
                    sim.remaining = sim.remaining - 1;
                    if query.is_empty() {
                        Err(
                            CoreError::Query(
                                QueryError::Malformed {
                                    message: "the backend rejected an empty statement".to_owned(),
                                },
                            ),
                        )
                    } else {
                        Ok(Vec::new())
                    }
                }
            },
            Connector::Sql(sql) => {
                match run_lookup_query(&mut sql.conn, query, param) {
                    Ok(rows) => Ok(rows),
                    Err(e) => {
                        let lost = connection_was_lost(&e);
                        let code = server_error_code(&e);
                        let text = backend_error_text(&e);
                        Err(classify_backend_failure(lost, code, text))
                    },
                }
            },
        }
    }
}

/// A reported cell count, with zero standing in for a missing one.
pub open spec fn count_or_zero(c: Option<u64>) -> u64 {
    match c {
        Some(n) => n,
        None => 0,
    }
}

/// The summary a native metadata row denotes: its name in the first cell,
/// the row-count estimate and column count after it (zero when the engine
/// reports none); no summary when the name cell is unreadable.
pub open spec fn native_summary(row: mysql::Row) -> Option<TableSummaryV> {
    match text_cell(row, 0) {
        None => None,
        Some(name) => Some(
            TableSummaryV {
                name,
                row_count: count_or_zero(count_cell(row, 1)),
                column_count: count_or_zero(count_cell(row, 2)),
            },
        ),
    }
}

/// Reads one native metadata row into the summary it denotes.
pub fn summary_of_native_row(row: &mysql::Row) -> (r: Option<TableSummary>)
    ensures
        match r {
            Some(s) => native_summary(*row) == Some(s@),
            None => native_summary(*row) is None,
        },
{
    match row_text(row, 0) {
        None => None,
        Some(name) => {
            let rows_estimate: u64 = match row_count(row, 1) {
                Some(n) => n,
                None => 0,
            };
            let columns: u64 = match row_count(row, 2) {
                Some(n) => n,
                None => 0,
            };
            Some(TableSummary { name, row_count: rows_estimate, column_count: columns })
        },
    }
}

} // verus!
