use taotie::describe::{
    Aggregate, CastBack, Column, ColumnKind, DataFrameDescriber, DescribeMethod, Normalization,
};
use taotie::router::CommandError;

fn col(name: &str, kind: ColumnKind) -> Column {
    Column { name: name.to_string(), kind }
}

#[test]
fn data_frame_describer_should_work() {
    let dfd = DataFrameDescriber::try_new(vec![
        col("name", ColumnKind::Other),
        col("age", ColumnKind::Numeric),
        col("created_at", ColumnKind::Temporal),
    ]);
    assert!(dfd.describe().is_ok());
}

#[test]
fn cross_type_columns_get_uniform_statistics() {
    let dfd = DataFrameDescriber::try_new(vec![
        col("n", ColumnKind::Numeric),
        col("ts", ColumnKind::Temporal),
        col("txt", ColumnKind::Other),
        col("tags", ColumnKind::List),
    ]);
    let plan = dfd.describe().unwrap();
    assert_eq!(plan.rows.len(), 7);
    let norm: Vec<(String, Normalization)> = plan
        .projections
        .iter()
        .map(|p| (p.name.clone(), p.normalization))
        .collect();
    assert_eq!(
        norm,
        vec![
            ("n".to_string(), Normalization::Keep),
            ("ts".to_string(), Normalization::CastToFloat),
            ("txt".to_string(), Normalization::CharLength),
            ("tags".to_string(), Normalization::ElementCount),
        ]
    );
    let out: Vec<(String, CastBack)> = plan.output.iter().map(|o| (o.name.clone(), o.cast)).collect();
    assert_eq!(
        out,
        vec![
            ("describe".to_string(), CastBack::Keep),
            ("n".to_string(), CastBack::Keep),
            ("ts".to_string(), CastBack::ToDeclared),
            ("txt".to_string(), CastBack::Keep),
            ("tags".to_string(), CastBack::ToInteger),
        ]
    );
    assert_eq!(plan.sort_by, "describe");
}

#[test]
fn rows_follow_declaration_order() {
    let dfd = DataFrameDescriber::try_new(vec![col("v", ColumnKind::Numeric)]);
    let rows = dfd.do_describe().unwrap();
    let got: Vec<(String, Aggregate)> = rows.iter().map(|r| (r.label.clone(), r.aggregate)).collect();
    assert_eq!(
        got,
        vec![
            ("Count".to_string(), Aggregate::CountNonNull),
            ("NullCount".to_string(), Aggregate::SumNullIndicator),
            ("Min".to_string(), Aggregate::Min),
            ("Max".to_string(), Aggregate::Max),
            ("Mean".to_string(), Aggregate::Mean),
            ("Stddev".to_string(), Aggregate::Stddev),
            ("Median".to_string(), Aggregate::Median),
        ]
    );
}

#[test]
fn display_order_is_sorted_by_label() {
    let labels: Vec<&str> = DescribeMethod::display_order().iter().map(|m| m.label()).collect();
    assert_eq!(labels, vec!["Count", "Max", "Mean", "Median", "Min", "NullCount", "Stddev"]);
    let mut sorted = labels.clone();
    sorted.sort();
    assert_eq!(labels, sorted);
}

#[test]
fn describe_twice_gives_the_same_plan() {
    let dfd = DataFrameDescriber::try_new(vec![col("a", ColumnKind::List), col("b", ColumnKind::Other)]);
    let first = dfd.describe().unwrap();
    let second = dfd.describe().unwrap();
    assert_eq!(format!("{:?}", first), format!("{:?}", second));
}

#[test]
fn empty_statistic_list_is_refused() {
    let dfd = DataFrameDescriber::with_methods(vec![col("a", ColumnKind::Numeric)], vec![]);
    assert_eq!(dfd.do_describe().err(), Some(CommandError::EmptyStatisticSet));
    assert_eq!(dfd.describe().err(), Some(CommandError::EmptyStatisticSet));
}

#[test]
fn empty_dataset_still_has_label_column() {
    let dfd = DataFrameDescriber::try_new(vec![]);
    let plan = dfd.describe().unwrap();
    assert!(plan.projections.is_empty());
    assert_eq!(plan.output.len(), 1);
    assert_eq!(plan.rows.len(), 7);
}
