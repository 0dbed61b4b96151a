use taotie::command::{
    ConnectOps, DescribeOps, HeadOps, ListOps, ReplCommand, SchemaOps, SqlOps,
};
use taotie::conn::verify_conn;
use taotie::router::{decimal_string, Action, CommandError, EngineFailure, Router};
use taotie::session::Session;

fn connect_cmd(src: &str, name: &str) -> ReplCommand {
    ConnectOps::new(verify_conn(src).unwrap(), None, name.to_string()).into()
}

fn connected(router: &mut Router, src: &str, name: &str) {
    let action = router.plan(connect_cmd(src, name)).unwrap();
    let reply = router.finish(action, Ok(String::new())).unwrap();
    assert_eq!(reply, format!("Connected to dataset: {}", name));
}

fn query_of(r: Result<Action, CommandError>) -> String {
    match r {
        Ok(Action::Query(q)) => q,
        other => panic!("expected a query: {:?}", other),
    }
}

#[test]
fn taotie_test() {}

#[test]
fn connect_then_describe_sees_the_binding() {
    let mut router = Router::new();
    assert!(!router.contains("people"));
    connected(&mut router, "people.csv", "people");
    assert!(router.contains("people"));
    match router.plan(DescribeOps::new("people".to_string()).into()) {
        Ok(Action::Describe(q)) => assert_eq!(q, "select * from people"),
        other => panic!("{:?}", other),
    }
}

#[test]
fn reads_of_unknown_dataset_fail() {
    let router = Router::new();
    let cmds: Vec<ReplCommand> = vec![
        SchemaOps::new("ghost".to_string()).into(),
        DescribeOps::new("ghost".to_string()).into(),
        HeadOps::new("ghost".to_string(), None).into(),
    ];
    for cmd in cmds {
        assert!(matches!(router.plan(cmd), Err(CommandError::UnknownDataset)));
    }
    assert!(!router.contains("ghost"));
}

#[test]
fn duplicate_registration_keeps_first_binding() {
    let mut router = Router::new();
    connected(&mut router, "people.csv", "t");
    assert!(matches!(
        router.plan(connect_cmd("other.parquet", "t")),
        Err(CommandError::DuplicateName)
    ));
    let late = ConnectOps::new(verify_conn("other.parquet").unwrap(), None, "t".to_string());
    assert_eq!(
        router.finish(Action::Register(late), Ok(String::new())),
        Err(CommandError::DuplicateName)
    );
    assert!(router.contains("t"));
}

#[test]
fn head_defaults_to_five_rows() {
    let mut router = Router::new();
    connected(&mut router, "people.csv", "people");
    let q = query_of(router.plan(HeadOps::new("people".to_string(), None).into()));
    assert_eq!(q, "SELECT * FROM people LIMIT 5");
    let q = query_of(router.plan(HeadOps::new("people".to_string(), Some(120)).into()));
    assert_eq!(q, "SELECT * FROM people LIMIT 120");
    assert_eq!(HeadOps::new("x".to_string(), None).limit(), 5);
    assert_eq!(HeadOps::new("x".to_string(), Some(0)).limit(), 0);
}

#[test]
fn schema_list_and_sql_queries() {
    let mut router = Router::new();
    connected(&mut router, "people.csv", "people");
    assert_eq!(
        query_of(router.plan(SchemaOps::new("people".to_string()).into())),
        "DESCRIBE people"
    );
    assert_eq!(
        query_of(router.plan(ListOps::new().into())),
        "select table_name, table_type from information_schema.tables where table_schema = 'public'"
    );
    assert_eq!(
        query_of(router.plan(SqlOps::new("select 1".to_string()).into())),
        "select 1"
    );
}

#[test]
fn failed_registration_binds_nothing() {
    let mut router = Router::new();
    let action = router.plan(connect_cmd("missing.csv", "m")).unwrap();
    assert_eq!(
        router.finish(action, Err(EngineFailure::SourceUnavailable)),
        Err(CommandError::SourceUnavailable)
    );
    assert!(!router.contains("m"));
}

#[test]
fn engine_failures_map_to_errors() {
    let mut router = Router::new();
    let cases = [
        (EngineFailure::QuerySyntax, CommandError::QuerySyntaxError),
        (EngineFailure::QueryExecution, CommandError::QueryExecutionError),
        (EngineFailure::EmptyStatisticSet, CommandError::EmptyStatisticSet),
        (EngineFailure::StatisticEvaluation, CommandError::StatisticEvaluationError),
    ];
    for (f, e) in cases {
        let r = router.finish(Action::Query("select".to_string()), Err(f));
        assert_eq!(r, Err(e));
    }
    let r = router.finish(Action::Query("select 1".to_string()), Ok("table".to_string()));
    assert_eq!(r, Ok("table".to_string()));
}

#[test]
fn session_register_refuses_bound_name() {
    let mut s = Session::new();
    let conn = verify_conn("a.csv").unwrap();
    assert_eq!(s.register("a".to_string(), conn.clone()), Ok(()));
    assert!(s.contains("a"));
    assert!(!s.contains("b"));
    assert_eq!(s.register("a".to_string(), conn), Err(CommandError::DuplicateName));
}

#[test]
fn decimal_numerals() {
    assert_eq!(decimal_string(0), "0");
    assert_eq!(decimal_string(7), "7");
    assert_eq!(decimal_string(10), "10");
    assert_eq!(decimal_string(1234509), "1234509");
    assert_eq!(decimal_string(usize::MAX), usize::MAX.to_string());
}
