//! The durable store: one table holding one row, keyed by id 1, whose
//! `total_count` column records the last committed counter value.
use vstd::prelude::*;

verus! {

#[verifier::external_type_specification]
#[verifier::external_body]
pub struct ExConnectionThreadSafe(sqlite::ConnectionThreadSafe);

#[verifier::external_type_specification]
#[verifier::external_body]
pub struct ExSqliteError(sqlite::Error);

#[verifier::external_type_specification]
#[verifier::external_body]
pub struct ExStatement<'l>(sqlite::Statement<'l>);

/// Why the store could not be prepared or read at startup.
#[derive(Debug, PartialEq, Eq, Structural)]
pub enum StoreError {
    /// A statement of the schema initialization was rejected.
    Init,
    /// The lookup of the stored value failed.
    Read,
    /// The stored value is negative, which no counter can hold.
    Corrupt,
}

/// Relies on sqlite's `Connection::execute`: runs one statement and reports
/// whether the engine accepted it. Whether it does depends on the database.
/// Only the schema statements are run through it.
#[verifier::external_body]
fn execute(conn: &sqlite::ConnectionThreadSafe, sql: &str) -> (r: Result<(), sqlite::Error>)
    requires
        init_statements_spec().contains(sql@),
{
    conn.execute(sql)
}

/// Relies on sqlite's `Connection::prepare`: compiles one statement. It
/// decodes the names of the result columns and panics on one that is not
/// UTF-8, so it is given only the lookup and the update, whose one result
/// column, if any, is the ASCII `total_count`.
#[verifier::external_body]
fn prepare<'c>(conn: &'c sqlite::ConnectionThreadSafe, sql: &str) -> (r: Result<sqlite::Statement<'c>, sqlite::Error>)
    requires
        sql@ == select_statement_spec() || sql@ == update_statement_spec(),
{
    conn.prepare(sql)
}

/// Relies on sqlite's `Statement::bind` with an `(index, i64)` pair: binds an
/// integer to the parameter at a 1-based index.
#[verifier::external_body]
fn bind_int(stmt: &mut sqlite::Statement<'_>, index: usize, value: i64) -> (r: Result<(), sqlite::Error>) {
    stmt.bind((index, value))
}

/// Relies on sqlite's `Statement::next`: advances the statement by one step;
/// `true` when a row is available for reading, `false` when it is done.
#[verifier::external_body]
fn step(stmt: &mut sqlite::Statement<'_>) -> (r: Result<bool, sqlite::Error>) {
    match stmt.next() {
        Ok(sqlite::State::Row) => Ok(true),
        Ok(sqlite::State::Done) => Ok(false),
        Err(e) => Err(e),
    }
}

/// Relies on sqlite's `Statement::read::<i64, _>` with a column name: reads
/// an integer column of the current row.
#[verifier::external_body]
fn read_int(stmt: &sqlite::Statement<'_>, column: &str) -> (r: Result<i64, sqlite::Error>) {
    stmt.read::<i64, _>(column)
}

/// The schema statements, in the order they run: drop any earlier table,
/// create the single-row table, insert row 1 with value 0.
pub open spec fn init_statements_spec() -> Seq<Seq<char>> {
    seq![
        "DROP TABLE IF EXISTS count_save;"@,
        "CREATE TABLE IF NOT EXISTS count_save (id INTEGER PRIMARY KEY UNIQUE, total_count INTEGER NOT null);"@,
        "INSERT INTO count_save VALUES (1, 0);"@,
    ]
}

/// The number of schema statements.
pub const INIT_STATEMENT_COUNT: usize = 3;

/// The schema statement at position `i`.
pub fn init_statement(i: usize) -> (r: &'static str)
    requires
        i < INIT_STATEMENT_COUNT,
    ensures
        r@ == init_statements_spec()[i as int],
{
    if i == 0 {
        proof {
            reveal_strlit("DROP TABLE IF EXISTS count_save;");
        }
        "DROP TABLE IF EXISTS count_save;"
    } else if i == 1 {
        proof {
            reveal_strlit(
                "CREATE TABLE IF NOT EXISTS count_save (id INTEGER PRIMARY KEY UNIQUE, total_count INTEGER NOT null);",
            );
        }
        "CREATE TABLE IF NOT EXISTS count_save (id INTEGER PRIMARY KEY UNIQUE, total_count INTEGER NOT null);"
    } else {
        proof {
            reveal_strlit("INSERT INTO count_save VALUES (1, 0);");
        }
        "INSERT INTO count_save VALUES (1, 0);"
    }
}

/// What follows the outcome of schema statement `i`: an error when the
/// engine rejected it, else whether another statement remains.
pub fn init_step(i: usize, accepted: bool) -> (r: Result<bool, StoreError>)
    requires
        i < INIT_STATEMENT_COUNT,
    ensures
        r == (if accepted {
            Ok::<bool, StoreError>(i + 1 < INIT_STATEMENT_COUNT)
        } else {
            Err::<bool, StoreError>(StoreError::Init)
        }),
{
    if accepted {
        Ok(i + 1 < INIT_STATEMENT_COUNT)
    } else {
        Err(StoreError::Init)
    }
}

/// Drops any earlier table, creates the single-row table and inserts the row
/// with value 0. The result is `Ok` or `Err(StoreError::Init)`; which one
/// depends on the database. What is sent is fixed by verified code: the
/// statements are `init_statement(0)`, `init_statement(1)` and
/// `init_statement(2)` in turn, and `init_step`, whose contract is exact,
/// decides after each one whether to stop with an error or go on.
pub fn initialize_database(conn: &sqlite::ConnectionThreadSafe) -> (r: Result<(), StoreError>)
    ensures
        r == Ok::<(), StoreError>(()) || r == Err::<(), StoreError>(StoreError::Init),
{
    let mut i: usize = 0;
    loop
        invariant
            i < INIT_STATEMENT_COUNT,
        decreases INIT_STATEMENT_COUNT - i,
    {
        let sql = init_statement(i);
        assert(init_statements_spec()[i as int] == sql@);
        let ok = execute(conn, sql).is_ok();
        match init_step(i, ok) {
            Err(e) => {
                return Err(e);
            },
            Ok(false) => {
                return Ok(());
            },
            Ok(true) => {
                i = i + 1;
            },
        }
    }
}

/// The lookup of the stored counter value, with its one parameter the row id.
pub open spec fn select_statement_spec() -> Seq<char> {
    "SELECT total_count FROM count_save WHERE id = ?;"@
}

/// The update of the stored counter value, with its one parameter the value.
pub open spec fn update_statement_spec() -> Seq<char> {
    "UPDATE count_save SET total_count = ? WHERE id = 1;"@
}

/// The column that holds the counter value.
pub open spec fn count_column_spec() -> Seq<char> {
    "total_count"@
}

/// The id of the one row that holds the counter value.
pub const COUNTER_ROW_ID: i64 = 1;

/// The lookup statement, see `select_statement_spec`.
pub fn select_statement() -> (r: &'static str)
    ensures
        r@ == select_statement_spec(),
{
    proof {
        reveal_strlit("SELECT total_count FROM count_save WHERE id = ?;");
    }
    "SELECT total_count FROM count_save WHERE id = ?;"
}

/// The update statement, see `update_statement_spec`.
pub fn update_statement() -> (r: &'static str)
    ensures
        r@ == update_statement_spec(),
{
    proof {
        reveal_strlit("UPDATE count_save SET total_count = ? WHERE id = 1;");
    }
    "UPDATE count_save SET total_count = ? WHERE id = 1;"
}

/// The name of the counter column, see `count_column_spec`.
pub fn count_column() -> (r: &'static str)
    ensures
        r@ == count_column_spec(),
{
    proof {
        reveal_strlit("total_count");
    }
    "total_count"
}

/// The counter value a startup lookup yields: the stored value, or 0 when the
/// table holds no row.
pub open spec fn initial_count_spec(row: Option<i64>) -> Result<i64, StoreError> {
    match row {
        None => Ok(0),
        Some(v) => if v >= 0 { Ok(v) } else { Err(StoreError::Corrupt) },
    }
}

/// Decides the starting counter value from what the lookup of row 1 found.
/// An empty table counts as 0; a negative value is refused.
pub fn initial_count(row: Option<i64>) -> (r: Result<i64, StoreError>)
    ensures
        r == initial_count_spec(row),
{
    match row {
        None => Ok(0),
        Some(v) => if v >= 0 { Ok(v) } else { Err(StoreError::Corrupt) },
    }
}

/// Looks up the value of row 1, if the table holds it: prepares
/// `select_statement()`, binds `COUNTER_ROW_ID` to its parameter, and reads
/// `count_column()` of the first row.
pub fn read_stored_row(conn: &sqlite::ConnectionThreadSafe) -> (r: Result<Option<i64>, StoreError>)
    ensures
        r is Err ==> r == Err::<Option<i64>, StoreError>(StoreError::Read),
{
    let mut stmt = match prepare(conn, select_statement()) {
        Ok(s) => s,
        Err(_) => return Err(StoreError::Read),
    };
    if bind_int(&mut stmt, 1, COUNTER_ROW_ID).is_err() {
        return Err(StoreError::Read);
    }
    match step(&mut stmt) {
        Ok(true) => match read_int(&stmt, count_column()) {
            Ok(v) => Ok(Some(v)),
            Err(_) => Err(StoreError::Read),
        },
        Ok(false) => Ok(None),
        Err(_) => Err(StoreError::Read),
    }
}

/// Reads the value the counter starts from: the stored value of row 1, or 0
/// when the table holds no row. A negative stored value is refused with
/// `StoreError::Corrupt`, since a counter never holds one; a failed lookup
/// gives `StoreError::Read`.
pub fn read_initial_value(conn: &sqlite::ConnectionThreadSafe) -> (r: Result<i64, StoreError>)
    ensures
        r matches Ok(v) ==> v >= 0,
        r is Err ==> r == Err::<i64, StoreError>(StoreError::Read)
            || r == Err::<i64, StoreError>(StoreError::Corrupt),
{
    match read_stored_row(conn) {
        Ok(row) => initial_count(row),
        Err(e) => Err(e),
    }
}

/// Sets `total_count` of row 1 to `value`: prepares `update_statement()`,
/// binds `value` to its parameter and runs it; `true` when the engine
/// accepted the update.
pub fn write_value(conn: &sqlite::ConnectionThreadSafe, value: i64) -> (r: bool) {
    let mut stmt = match prepare(conn, update_statement()) {
        Ok(s) => s,
        Err(_) => return false,
    };
    if bind_int(&mut stmt, 1, value).is_err() {
        return false;
    }
    step(&mut stmt).is_ok()
}

} // verus!
