//! The boundary to the outside crates the core leans on: the MySQL client
//! library behind the SQL connector, and the UUID generator behind session
//! identifiers. Every item here is trusted: its contract states no more than
//! the outside source shows, and everything proved from the results happens
//! in verified functions that take them as arguments.

use vstd::prelude::*;

use mysql::prelude::Queryable;

verus! {

#[verifier::external_type_specification]
#[verifier::external_body]
pub struct ExOpts(mysql::Opts);

#[verifier::external_type_specification]
#[verifier::external_body]
pub struct ExConn(mysql::Conn);

#[verifier::external_type_specification]
#[verifier::external_body]
pub struct ExRow(mysql::Row);

#[verifier::external_type_specification]
#[verifier::external_body]
pub struct ExError(mysql::Error);

#[verifier::external_type_specification]
#[verifier::external_body]
pub struct ExUrlError(mysql::UrlError);

/// Relies on `mysql::Opts::from_url`: parses a connection URL, failing on a
/// malformed or unsupported one.
#[verifier::external_body]
pub(crate) fn parse_db_url(url: &str) -> Result<mysql::Opts, mysql::UrlError> {
    mysql::Opts::from_url(url)
}

/// Relies on `mysql::Conn::new`: eagerly opens the network connection and
/// authenticates, so an `Ok` is never a partially initialized connection.
#[verifier::external_body]
pub(crate) fn open_connection(opts: mysql::Opts) -> Result<mysql::Conn, mysql::Error> {
    mysql::Conn::new(opts)
}

/// Relies on `mysql::prelude::Queryable::query`: sends one text query, waits
/// for completion, and materializes every row of the first result set.
#[verifier::external_body]
pub(crate) fn run_text_query(conn: &mut mysql::Conn, query: &str) -> Result<
    Vec<mysql::Row>,
    mysql::Error,
> {
    conn.query::<mysql::Row, _>(query)
}

/// Relies on `mysql::prelude::Queryable::exec`: prepares the statement and
/// binds `param` server-side, so the parameter text is never spliced into the
/// query.
#[verifier::external_body]
pub(crate) fn run_lookup_query(conn: &mut mysql::Conn, query: &str, param: &str) -> Result<
    Vec<mysql::Row>,
    mysql::Error,
> {
    conn.exec::<mysql::Row, _, _>(query, (param,))
}

/// The text a native row's cell converts to, as `Row::get_opt::<String>`
/// reads it: a function of the row value and the index alone.
pub uninterp spec fn text_cell(row: mysql::Row, index: int) -> Option<Seq<char>>;

/// The unsigned count a native row's cell converts to, as
/// `Row::get_opt::<u64>` reads it: a function of the row value and the index
/// alone.
pub uninterp spec fn count_cell(row: mysql::Row, index: int) -> Option<u64>;

/// Relies on `mysql::Row::get_opt`: copies the value at `index` and converts
/// it to text, `None` when the column is missing or not convertible. The
/// result depends on the row value alone, so it is named `text_cell`.
#[verifier::external_body]
pub(crate) fn row_text(row: &mysql::Row, index: usize) -> (r: Option<String>)
    ensures
        r.deep_view() == text_cell(*row, index as int),
{
    match row.get_opt::<String, usize>(index) {
        Some(Ok(v)) => Some(v),
        _ => None,
    }
}

/// Relies on `mysql::Row::get_opt`: copies the value at `index` and converts
/// it to an unsigned count, `None` when the column is missing, null, or not
/// convertible. The result depends on the row value alone, so it is named
/// `count_cell`.
#[verifier::external_body]
pub(crate) fn row_count(row: &mysql::Row, index: usize) -> (r: Option<u64>)
    ensures
        r == count_cell(*row, index as int),
{
    match row.get_opt::<u64, usize>(index) {
        Some(Ok(v)) => Some(v),
        _ => None,
    }
}

/// Relies on `mysql::Error::is_connectivity_error`: true exactly for the
/// variants that report a broken transport (I/O, codec, driver), never for a
/// server-reported error.
#[verifier::external_body]
pub(crate) fn connection_was_lost(e: &mysql::Error) -> bool {
    e.is_connectivity_error()
}

/// Relies on `mysql::Error`'s `MySqlError` variant: hands out the
/// server-reported error code, `None` for every other variant.
#[verifier::external_body]
pub(crate) fn server_error_code(e: &mysql::Error) -> Option<u16> {
    match e {
        mysql::Error::MySqlError(server) => Some(server.code),
        _ => None,
    }
}

/// Relies on `mysql::Error`'s `Display` implementation: every variant writes
/// a non-empty diagnostic message.
#[verifier::external_body]
pub(crate) fn backend_error_text(e: &mysql::Error) -> (r: String)
    ensures
        r@.len() > 0,
{
    format!("{}", e)
}

/// Relies on `mysql::UrlError`'s `Display` implementation: every variant
/// writes a non-empty diagnostic message.
#[verifier::external_body]
pub(crate) fn url_error_text(e: &mysql::UrlError) -> (r: String)
    ensures
        r@.len() > 0,
{
    format!("{}", e)
}

/// Relies on `uuid::Uuid::new_v4` and `Uuid::as_u128`: a freshly drawn random
/// version-4 UUID as its 128-bit value. The draw is random, so nothing is
/// promised of the result.
#[verifier::external_body]
pub(crate) fn generate_session_id() -> u128 {
    uuid::Uuid::new_v4().as_u128()
}

} // verus!
