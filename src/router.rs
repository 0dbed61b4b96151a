use crate::command::{head_limit, ConnectOps, HeadOps, ReplCommand};
use crate::conn::DatasetConn;
use crate::session::Session;
use vstd::prelude::*;
use vstd::string::*;

verus! {

/// Why a command produced no result.
#[derive(Clone, Copy, Debug, PartialEq, Eq, Structural)]
pub enum CommandError {
    DuplicateName,
    UnknownDataset,
    SourceUnavailable,
    UnsupportedFormat,
    QuerySyntaxError,
    QueryExecutionError,
    EmptyStatisticSet,
    StatisticEvaluationError,
}

/// How the query engine failed to carry out an action.
#[derive(Clone, Copy, Debug, PartialEq, Eq, Structural)]
pub enum EngineFailure {
    SourceUnavailable,
    QuerySyntax,
    QueryExecution,
    EmptyStatisticSet,
    StatisticEvaluation,
}

/// The engine work that a command asks for.
#[derive(Debug)]
pub enum Action {
    /// Open the source and register it under the command's name.
    Register(ConnectOps),
    /// Run query text and show its result.
    Query(String),
    /// Run query text and show the statistics table of its result.
    Describe(String),
}

pub open spec fn digit_char(d: int) -> char {
    if d == 0 {
        '0'
    } else if d == 1 {
        '1'
    } else if d == 2 {
        '2'
    } else if d == 3 {
        '3'
    } else if d == 4 {
        '4'
    } else if d == 5 {
        '5'
    } else if d == 6 {
        '6'
    } else if d == 7 {
        '7'
    } else if d == 8 {
        '8'
    } else {
        '9'
    }
}

/// The decimal numeral of `n`.
pub open spec fn decimal(n: nat) -> Seq<char>
    decreases n,
{
    if n < 10 {
        seq![digit_char(n as int)]
    } else {
        decimal(n / 10).push(digit_char((n % 10) as int))
    }
}

pub open spec fn list_query() -> Seq<char> {
    "select table_name, table_type from information_schema.tables where table_schema = 'public'"@
}

pub open spec fn schema_query(name: Seq<char>) -> Seq<char> {
    "DESCRIBE "@ + name
}

pub open spec fn select_all_query(name: Seq<char>) -> Seq<char> {
    "select * from "@ + name
}

pub open spec fn head_query(name: Seq<char>, n: nat) -> Seq<char> {
    "SELECT * FROM "@ + name + " LIMIT "@ + decimal(n)
}

pub open spec fn connected_reply(name: Seq<char>) -> Seq<char> {
    "Connected to dataset: "@ + name
}

/// The dataset name that a command reads, if any.
pub open spec fn target_of(cmd: ReplCommand) -> Option<Seq<char>> {
    match cmd {
        ReplCommand::Schema(o) => Some(o.name@),
        ReplCommand::Describe(o) => Some(o.name@),
        ReplCommand::Head(o) => Some(o.name@),
        _ => None,
    }
}

/// The error with which the session refuses `cmd`, if it does.
pub open spec fn rejection(m: Map<Seq<char>, DatasetConn>, cmd: ReplCommand) -> Option<
    CommandError,
> {
    match cmd {
        ReplCommand::Connect(o) => if m.dom().contains(o.name@) {
            Some(CommandError::DuplicateName)
        } else {
            None
        },
        _ => match target_of(cmd) {
            Some(n) => if m.dom().contains(n) {
                None
            } else {
                Some(CommandError::UnknownDataset)
            },
            None => None,
        },
    }
}

/// `a` is the engine work that an accepted `cmd` asks for.
pub open spec fn action_for(cmd: ReplCommand, a: Action) -> bool {
    match cmd {
        ReplCommand::Connect(o) => a == Action::Register(o),
        ReplCommand::List(_) => a matches Action::Query(q) && q@ == list_query(),
        ReplCommand::Schema(o) => a matches Action::Query(q) && q@ == schema_query(o.name@),
        ReplCommand::Describe(o) => a matches Action::Describe(q) && q@ == select_all_query(
            o.name@,
        ),
        ReplCommand::Head(o) => a matches Action::Query(q) && q@ == head_query(
            o.name@,
            head_limit(o.n) as nat,
        ),
        ReplCommand::Sql(o) => a == Action::Query(o.query),
    }
}

/// The bindings after the engine carried out `a` (`done`) or failed it.
pub open spec fn effect(m: Map<Seq<char>, DatasetConn>, a: Action, done: bool) -> Map<
    Seq<char>,
    DatasetConn,
> {
    match a {
        Action::Register(o) => if done && !m.dom().contains(o.name@) {
            m.insert(o.name@, o.conn)
        } else {
            m
        },
        _ => m,
    }
}

pub open spec fn error_of(f: EngineFailure) -> CommandError {
    match f {
        EngineFailure::SourceUnavailable => CommandError::SourceUnavailable,
        EngineFailure::QuerySyntax => CommandError::QuerySyntaxError,
        EngineFailure::QueryExecution => CommandError::QueryExecutionError,
        EngineFailure::EmptyStatisticSet => CommandError::EmptyStatisticSet,
        EngineFailure::StatisticEvaluation => CommandError::StatisticEvaluationError,
    }
}

fn digit_str(d: usize) -> (r: &'static str)
    requires
        d < 10,
    ensures
        r@ == seq![digit_char(d as int)],
{
    if d == 0 {
        proof {
            reveal_strlit("0");
        }
        "0"
    } else if d == 1 {
        proof {
            reveal_strlit("1");
        }
        "1"
    } else if d == 2 {
        proof {
            reveal_strlit("2");
        }
        "2"
    } else if d == 3 {
        proof {
            reveal_strlit("3");
        }
        "3"
    } else if d == 4 {
        proof {
            reveal_strlit("4");
        }
        "4"
    } else if d == 5 {
        proof {
            reveal_strlit("5");
        }
        "5"
    } else if d == 6 {
        proof {
            reveal_strlit("6");
        }
        "6"
    } else if d == 7 {
        proof {
            reveal_strlit("7");
        }
        "7"
    } else if d == 8 {
        proof {
            reveal_strlit("8");
        }
        "8"
    } else {
        proof {
            reveal_strlit("9");
        }
        "9"
    }
}

/// The decimal numeral of `n`.
pub fn decimal_string(n: usize) -> (r: String)
    ensures
        r@ == decimal(n as nat),
    decreases n,
{
    if n < 10 {
        String::from_str(digit_str(n))
    } else {
        let mut s = decimal_string(n / 10);
        s.append(digit_str(n % 10));
        s
    }
}

/// Commands take effect in the order submitted: once the engine has carried
/// out a connect of a name, a following schema, describe or head of that name
/// is accepted, and the name is bound to the connected source.
pub proof fn lemma_connect_then_read(
    m: Map<Seq<char>, DatasetConn>,
    connect: ConnectOps,
    next: ReplCommand,
)
    requires
        rejection(m, ReplCommand::Connect(connect)) is None,
        target_of(next) == Some(connect.name@),
    ensures
        rejection(effect(m, Action::Register(connect), true), next) is None,
        effect(m, Action::Register(connect), true)[connect.name@] == connect.conn,
{
}

/// A schema, describe or head of an unbound name fails with
/// `UnknownDataset`; refused commands leave the session as it was.
pub proof fn lemma_unknown_dataset(m: Map<Seq<char>, DatasetConn>, cmd: ReplCommand)
    requires
        target_of(cmd) matches Some(n) && !m.dom().contains(n),
    ensures
        rejection(m, cmd) == Some(CommandError::UnknownDataset),
{
}

/// Connecting a second source under a bound name fails with `DuplicateName`,
/// and the first binding stays as it was, even if the registration is applied.
pub proof fn lemma_duplicate_registration(
    m: Map<Seq<char>, DatasetConn>,
    first: ConnectOps,
    second: ConnectOps,
    done: bool,
)
    requires
        rejection(m, ReplCommand::Connect(first)) is None,
        second.name@ == first.name@,
    ensures
        ({
            let m1 = effect(m, Action::Register(first), true);
            &&& rejection(m1, ReplCommand::Connect(second)) == Some(CommandError::DuplicateName)
            &&& effect(m1, Action::Register(second), done) == m1
            &&& m1[first.name@] == first.conn
        }),
{
}

/// A head without a row limit asks the engine for at most five rows.
pub proof fn lemma_head_default(head: HeadOps, a: Action)
    requires
        head.n is None,
        action_for(ReplCommand::Head(head), a),
    ensures
        a matches Action::Query(q) && q@ == head_query(head.name@, 5),
{
}

/// The owner of the session: decides what each command asks of the engine
/// and applies what the engine did.
pub struct Router {
    session: Session,
}

impl View for Router {
    type V = Map<Seq<char>, DatasetConn>;

    closed spec fn view(&self) -> Map<Seq<char>, DatasetConn> {
        self.session@
    }
}

impl Router {
    pub fn new() -> (r: Self)
        ensures
            r@ == Map::<Seq<char>, DatasetConn>::empty(),
    {
        Router { session: Session::new() }
    }

    /// Whether a dataset is bound to `name`.
    pub fn contains(&self, name: &str) -> (r: bool)
        ensures
            r == self@.dom().contains(name@),
    {
        self.session.contains(name)
    }

    /// Decides the engine work for `cmd`, or refuses it: a connect to a bound
    /// name, or a schema, describe or head of an unbound one. The session is
    /// not changed.
    pub fn plan(&self, cmd: ReplCommand) -> (r: Result<Action, CommandError>)
        ensures
            r is Err <==> rejection(self@, cmd) is Some,
            r matches Err(e) ==> rejection(self@, cmd) == Some(e),
            r matches Ok(a) ==> action_for(cmd, a),
    {
        match cmd {
            ReplCommand::Connect(o) => {
                if self.session.contains(o.name.as_str()) {
                    Err(CommandError::DuplicateName)
                } else {
                    Ok(Action::Register(o))
                }
            },
            ReplCommand::List(_) => Ok(
                Action::Query(
                    String::from_str(
                        "select table_name, table_type from information_schema.tables where table_schema = 'public'",
                    ),
                ),
            ),
            ReplCommand::Schema(o) => {
                if !self.session.contains(o.name.as_str()) {
                    return Err(CommandError::UnknownDataset);
                }
                let mut q = String::from_str("DESCRIBE ");
                q.append(o.name.as_str());
                Ok(Action::Query(q))
            },
            ReplCommand::Describe(o) => {
                if !self.session.contains(o.name.as_str()) {
                    return Err(CommandError::UnknownDataset);
                }
                let mut q = String::from_str("select * from ");
                q.append(o.name.as_str());
                Ok(Action::Describe(q))
            },
            ReplCommand::Head(o) => {
                if !self.session.contains(o.name.as_str()) {
                    return Err(CommandError::UnknownDataset);
                }
                let limit = o.limit();
                let mut q = String::from_str("SELECT * FROM ");
                q.append(o.name.as_str());
                q.append(" LIMIT ");
                let digits = decimal_string(limit);
                q.append(digits.as_str());
                Ok(Action::Query(q))
            },
            ReplCommand::Sql(o) => Ok(Action::Query(o.query)),
        }
    }

    /// Applies what the engine did with `action`: a carried-out registration
    /// binds its name (refused if the name got bound meanwhile), a failure
    /// changes nothing and becomes the command's error, and any other result
    /// is handed on as the reply.
    pub fn finish(&mut self, action: Action, outcome: Result<String, EngineFailure>) -> (r: Result<
        String,
        CommandError,
    >)
        ensures
            final(self)@ == effect(old(self)@, action, outcome is Ok),
            match outcome {
                Err(f) => r == Err::<String, CommandError>(error_of(f)),
                Ok(t) => match action {
                    Action::Register(o) => if old(self)@.dom().contains(o.name@) {
                        r == Err::<String, CommandError>(CommandError::DuplicateName)
                    } else {
                        r matches Ok(x) && x@ == connected_reply(o.name@)
                    },
                    _ => r == Ok::<String, CommandError>(t),
                },
            },
    {
        match outcome {
            Err(f) => Err(match f {
                EngineFailure::SourceUnavailable => CommandError::SourceUnavailable,
                EngineFailure::QuerySyntax => CommandError::QuerySyntaxError,
                EngineFailure::QueryExecution => CommandError::QueryExecutionError,
                EngineFailure::EmptyStatisticSet => CommandError::EmptyStatisticSet,
                EngineFailure::StatisticEvaluation => CommandError::StatisticEvaluationError,
            }),
            Ok(t) => match action {
                Action::Register(o) => {
                    let mut reply = String::from_str("Connected to dataset: ");
                    reply.append(o.name.as_str());
                    match self.session.register(o.name, o.conn) {
                        Ok(()) => Ok(reply),
                        Err(e) => Err(e),
                    }
                },
                _ => Ok(t),
            },
        }
    }
}

} // verus!
