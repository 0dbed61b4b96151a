use crate::conn::DatasetConn;
use vstd::prelude::*;

verus! {

/// Number of rows that `head` shows when no limit is given.
pub const DEFAULT_HEAD_ROWS: usize = 5;

/// Registers a dataset source under a name.
#[derive(Clone, Debug)]
pub struct ConnectOps {
    pub conn: DatasetConn,
    /// For a relational source, the table to pull.
    pub table: Option<String>,
    pub name: String,
}

impl ConnectOps {
    pub fn new(conn: DatasetConn, table: Option<String>, name: String) -> (r: Self)
        ensures
            r.conn == conn,
            r.table == table,
            r.name == name,
    {
        ConnectOps { conn, table, name }
    }
}

/// Lists the registered datasets.
#[derive(Clone, Copy, Debug)]
pub struct ListOps;

impl ListOps {
    pub fn new() -> (r: Self)
        ensures
            r == ListOps,
    {
        ListOps
    }
}

impl Default for ListOps {
    fn default() -> (r: Self)
        ensures
            r == ListOps,
    {
        ListOps::new()
    }
}

/// Shows the schema of a dataset.
#[derive(Clone, Debug)]
pub struct SchemaOps {
    pub name: String,
}

impl SchemaOps {
    pub fn new(name: String) -> (r: Self)
        ensures
            r.name == name,
    {
        SchemaOps { name }
    }
}

/// Computes the statistics table of a dataset.
#[derive(Clone, Debug)]
pub struct DescribeOps {
    pub name: String,
}

impl DescribeOps {
    pub fn new(name: String) -> (r: Self)
        ensures
            r.name == name,
    {
        DescribeOps { name }
    }
}

/// The row limit of `head`: the one given, else the default of five.
pub open spec fn head_limit(n: Option<usize>) -> usize {
    match n {
        Some(k) => k,
        None => DEFAULT_HEAD_ROWS,
    }
}

/// Shows the first rows of a dataset.
#[derive(Clone, Debug)]
pub struct HeadOps {
    pub name: String,
    pub n: Option<usize>,
}

impl HeadOps {
    pub fn new(name: String, n: Option<usize>) -> (r: Self)
        ensures
            r.name == name,
            r.n == n,
    {
        HeadOps { name, n }
    }

    /// The number of rows to show.
    pub fn limit(&self) -> (r: usize)
        ensures
            r == head_limit(self.n),
    {
        match self.n {
            Some(k) => k,
            None => DEFAULT_HEAD_ROWS,
        }
    }
}

/// Runs query text against the engine.
#[derive(Clone, Debug)]
pub struct SqlOps {
    pub query: String,
}

impl SqlOps {
    pub fn new(query: String) -> (r: Self)
        ensures
            r.query == query,
    {
        SqlOps { query }
    }
}

/// One request to the session.
#[derive(Clone, Debug)]
pub enum ReplCommand {
    Connect(ConnectOps),
    List(ListOps),
    Schema(SchemaOps),
    Describe(DescribeOps),
    Head(HeadOps),
    Sql(SqlOps),
}

impl From<ConnectOps> for ReplCommand {
    fn from(value: ConnectOps) -> (r: Self) {
        ReplCommand::Connect(value)
    }
}

impl vstd::std_specs::convert::FromSpecImpl<ConnectOps> for ReplCommand {
    open spec fn obeys_from_spec() -> bool {
        true
    }

    open spec fn from_spec(v: ConnectOps) -> Self {
        ReplCommand::Connect(v)
    }
}

impl From<ListOps> for ReplCommand {
    fn from(value: ListOps) -> (r: Self) {
        ReplCommand::List(value)
    }
}

impl vstd::std_specs::convert::FromSpecImpl<ListOps> for ReplCommand {
    open spec fn obeys_from_spec() -> bool {
        true
    }

    open spec fn from_spec(v: ListOps) -> Self {
        ReplCommand::List(v)
    }
}

impl From<SchemaOps> for ReplCommand {
    fn from(value: SchemaOps) -> (r: Self) {
        ReplCommand::Schema(value)
    }
}

impl vstd::std_specs::convert::FromSpecImpl<SchemaOps> for ReplCommand {
    open spec fn obeys_from_spec() -> bool {
        true
    }

    open spec fn from_spec(v: SchemaOps) -> Self {
        ReplCommand::Schema(v)
    }
}

impl From<DescribeOps> for ReplCommand {
    fn from(value: DescribeOps) -> (r: Self) {
        ReplCommand::Describe(value)
    }
}

impl vstd::std_specs::convert::FromSpecImpl<DescribeOps> for ReplCommand {
    open spec fn obeys_from_spec() -> bool {
        true
    }

    open spec fn from_spec(v: DescribeOps) -> Self {
        ReplCommand::Describe(v)
    }
}

impl From<HeadOps> for ReplCommand {
    fn from(value: HeadOps) -> (r: Self) {
        ReplCommand::Head(value)
    }
}

impl vstd::std_specs::convert::FromSpecImpl<HeadOps> for ReplCommand {
    open spec fn obeys_from_spec() -> bool {
        true
    }

    open spec fn from_spec(v: HeadOps) -> Self {
        ReplCommand::Head(v)
    }
}

impl From<SqlOps> for ReplCommand {
    fn from(value: SqlOps) -> (r: Self) {
        ReplCommand::Sql(value)
    }
}

impl vstd::std_specs::convert::FromSpecImpl<SqlOps> for ReplCommand {
    open spec fn obeys_from_spec() -> bool {
        true
    }

    open spec fn from_spec(v: SqlOps) -> Self {
        ReplCommand::Sql(v)
    }
}

} // verus!
