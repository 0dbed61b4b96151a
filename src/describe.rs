use crate::router::CommandError;
use vstd::prelude::*;
use vstd::string::*;

verus! {

/// The class of a column's declared type, which decides how the column is
/// summarised.
#[derive(Clone, Copy, Debug, PartialEq, Eq, Structural)]
pub enum ColumnKind {
    Numeric,
    Temporal,
    List,
    Other,
}

/// A column of the dataset to describe.
#[derive(Clone, Debug)]
pub struct Column {
    pub name: String,
    pub kind: ColumnKind,
}

/// How a column is rewritten before aggregation.
#[derive(Clone, Copy, Debug, PartialEq, Eq, Structural)]
pub enum Normalization {
    /// Cast to a 64-bit float.
    CastToFloat,
    /// Used as it is.
    Keep,
    /// Replaced by its element count.
    ElementCount,
    /// Cast to text, then replaced by its character length.
    CharLength,
}

/// How a statistics column is re-expressed for display.
#[derive(Clone, Copy, Debug, PartialEq, Eq, Structural)]
pub enum CastBack {
    /// Cast back to the column's declared type.
    ToDeclared,
    /// Cast to a plain integer.
    ToInteger,
    /// Left as it is.
    Keep,
}

/// The aggregate that computes a statistic over a normalized column.
#[derive(Clone, Copy, Debug, PartialEq, Eq, Structural)]
pub enum Aggregate {
    /// Count of non-null values.
    CountNonNull,
    /// Sum of an indicator that is 1 on a null value and 0 otherwise.
    SumNullIndicator,
    Min,
    Max,
    Mean,
    Stddev,
    Median,
}

/// One statistic of the describe table.
#[derive(Clone, Copy, Debug, PartialEq, Eq, Structural)]
pub enum DescribeMethod {
    Count,
    NullCount,
    Min,
    Max,
    Mean,
    Stddev,
    Median,
}

pub open spec fn normalization_of(k: ColumnKind) -> Normalization {
    match k {
        ColumnKind::Temporal => Normalization::CastToFloat,
        ColumnKind::Numeric => Normalization::Keep,
        ColumnKind::List => Normalization::ElementCount,
        ColumnKind::Other => Normalization::CharLength,
    }
}

pub open spec fn cast_back_of(k: ColumnKind) -> CastBack {
    match k {
        ColumnKind::Temporal => CastBack::ToDeclared,
        ColumnKind::List => CastBack::ToInteger,
        _ => CastBack::Keep,
    }
}

pub open spec fn aggregate_of(m: DescribeMethod) -> Aggregate {
    match m {
        DescribeMethod::Count => Aggregate::CountNonNull,
        DescribeMethod::NullCount => Aggregate::SumNullIndicator,
        DescribeMethod::Min => Aggregate::Min,
        DescribeMethod::Max => Aggregate::Max,
        DescribeMethod::Mean => Aggregate::Mean,
        DescribeMethod::Stddev => Aggregate::Stddev,
        DescribeMethod::Median => Aggregate::Median,
    }
}

pub open spec fn label_of(m: DescribeMethod) -> Seq<char> {
    match m {
        DescribeMethod::Count => seq!['C', 'o', 'u', 'n', 't'],
        DescribeMethod::NullCount => seq!['N', 'u', 'l', 'l', 'C', 'o', 'u', 'n', 't'],
        DescribeMethod::Min => seq!['M', 'i', 'n'],
        DescribeMethod::Max => seq!['M', 'a', 'x'],
        DescribeMethod::Mean => seq!['M', 'e', 'a', 'n'],
        DescribeMethod::Stddev => seq!['S', 't', 'd', 'd', 'e', 'v'],
        DescribeMethod::Median => seq!['M', 'e', 'd', 'i', 'a', 'n'],
    }
}

/// The seven statistics in the order they are computed.
pub open spec fn all_methods() -> Seq<DescribeMethod> {
    seq![
        DescribeMethod::Count,
        DescribeMethod::NullCount,
        DescribeMethod::Min,
        DescribeMethod::Max,
        DescribeMethod::Mean,
        DescribeMethod::Stddev,
        DescribeMethod::Median,
    ]
}

/// The statistics in the order of their labels, as the final table shows them.
pub open spec fn display_methods() -> Seq<DescribeMethod> {
    seq![
        DescribeMethod::Count,
        DescribeMethod::Max,
        DescribeMethod::Mean,
        DescribeMethod::Median,
        DescribeMethod::Min,
        DescribeMethod::NullCount,
        DescribeMethod::Stddev,
    ]
}

/// Strict lexicographic order of strings, character by character.
pub open spec fn lex_lt(a: Seq<char>, b: Seq<char>) -> bool
    decreases a.len(),
{
    if b.len() == 0 {
        false
    } else if a.len() == 0 {
        true
    } else if a[0] != b[0] {
        (a[0] as u32) < (b[0] as u32)
    } else {
        lex_lt(a.drop_first(), b.drop_first())
    }
}

/// The name of the column that holds the statistic labels.
pub open spec fn label_column() -> Seq<char> {
    "describe"@
}

impl DescribeMethod {
    /// The label of this statistic in the describe table.
    pub fn label(&self) -> (r: &'static str)
        ensures
            r@ == label_of(*self),
    {
        match self {
            DescribeMethod::Count => {
                proof {
                    reveal_strlit("Count");
                }
                assert("Count"@ =~= label_of(*self));
                "Count"
            },
            DescribeMethod::NullCount => {
                proof {
                    reveal_strlit("NullCount");
                }
                assert("NullCount"@ =~= label_of(*self));
                "NullCount"
            },
            DescribeMethod::Min => {
                proof {
                    reveal_strlit("Min");
                }
                assert("Min"@ =~= label_of(*self));
                "Min"
            },
            DescribeMethod::Max => {
                proof {
                    reveal_strlit("Max");
                }
                assert("Max"@ =~= label_of(*self));
                "Max"
            },
            DescribeMethod::Mean => {
                proof {
                    reveal_strlit("Mean");
                }
                assert("Mean"@ =~= label_of(*self));
                "Mean"
            },
            DescribeMethod::Stddev => {
                proof {
                    reveal_strlit("Stddev");
                }
                assert("Stddev"@ =~= label_of(*self));
                "Stddev"
            },
            DescribeMethod::Median => {
                proof {
                    reveal_strlit("Median");
                }
                assert("Median"@ =~= label_of(*self));
                "Median"
            },
        }
    }

    /// The aggregate that computes this statistic.
    pub fn aggregate(&self) -> (r: Aggregate)
        ensures
            r == aggregate_of(*self),
    {
        match self {
            DescribeMethod::Count => Aggregate::CountNonNull,
            DescribeMethod::NullCount => Aggregate::SumNullIndicator,
            DescribeMethod::Min => Aggregate::Min,
            DescribeMethod::Max => Aggregate::Max,
            DescribeMethod::Mean => Aggregate::Mean,
            DescribeMethod::Stddev => Aggregate::Stddev,
            DescribeMethod::Median => Aggregate::Median,
        }
    }

    /// The seven statistics in the order they are computed.
    pub fn all() -> (r: Vec<DescribeMethod>)
        ensures
            r@ == all_methods(),
    {
        let mut v: Vec<DescribeMethod> = Vec::new();
        v.push(DescribeMethod::Count);
        v.push(DescribeMethod::NullCount);
        v.push(DescribeMethod::Min);
        v.push(DescribeMethod::Max);
        v.push(DescribeMethod::Mean);
        v.push(DescribeMethod::Stddev);
        v.push(DescribeMethod::Median);
        assert(v@ =~= all_methods());
        v
    }

    /// The statistics in the order the final table shows them: ascending by
    /// label.
    pub fn display_order() -> (r: Vec<DescribeMethod>)
        ensures
            r@ == display_methods(),
            forall|i: int|
                0 <= i < r@.len() - 1 ==> lex_lt(label_of(#[trigger] r@[i]), label_of(r@[i + 1])),
            forall|m: DescribeMethod| all_methods().contains(m) <==> r@.contains(m),
    {
        let mut v: Vec<DescribeMethod> = Vec::new();
        v.push(DescribeMethod::Count);
        v.push(DescribeMethod::Max);
        v.push(DescribeMethod::Mean);
        v.push(DescribeMethod::Median);
        v.push(DescribeMethod::Min);
        v.push(DescribeMethod::NullCount);
        v.push(DescribeMethod::Stddev);
        assert(v@ =~= display_methods());
        proof {
            lemma_display_order_sorted();
            assert forall|m: DescribeMethod| all_methods().contains(m) <==> v@.contains(m) by {
                match m {
                    DescribeMethod::Count => {
                        assert(all_methods()[0] == m && v@[0] == m);
                    },
                    DescribeMethod::NullCount => {
                        assert(all_methods()[1] == m && v@[5] == m);
                    },
                    DescribeMethod::Min => {
                        assert(all_methods()[2] == m && v@[4] == m);
                    },
                    DescribeMethod::Max => {
                        assert(all_methods()[3] == m && v@[1] == m);
                    },
                    DescribeMethod::Mean => {
                        assert(all_methods()[4] == m && v@[2] == m);
                    },
                    DescribeMethod::Stddev => {
                        assert(all_methods()[5] == m && v@[6] == m);
                    },
                    DescribeMethod::Median => {
                        assert(all_methods()[6] == m && v@[3] == m);
                    },
                }
            }
        }
        v
    }
}

/// Each label sorts strictly before the next one in display order.
pub proof fn lemma_display_order_sorted()
    ensures
        forall|i: int|
            0 <= i < display_methods().len() - 1 ==> lex_lt(
                label_of(#[trigger] display_methods()[i]),
                label_of(display_methods()[i + 1]),
            ),
{
    reveal_with_fuel(lex_lt, 4);
    let d = display_methods();
    assert(lex_lt(label_of(d[0]), label_of(d[1])));
    assert(lex_lt(label_of(d[1]), label_of(d[2])));
    assert(label_of(d[2]).drop_first().drop_first() =~= seq!['a', 'n']);
    assert(label_of(d[3]).drop_first().drop_first() =~= seq!['d', 'i', 'a', 'n']);
    assert(lex_lt(label_of(d[2]), label_of(d[3])));
    assert(lex_lt(label_of(d[3]), label_of(d[4])));
    assert(lex_lt(label_of(d[4]), label_of(d[5])));
    assert(lex_lt(label_of(d[5]), label_of(d[6])));
    assert forall|i: int| 0 <= i < d.len() - 1 implies lex_lt(
        label_of(#[trigger] d[i]),
        label_of(d[i + 1]),
    ) by {
        if i == 0 {
        } else if i == 1 {
        } else if i == 2 {
        } else if i == 3 {
        } else if i == 4 {
        } else {
        }
    }
}

/// A column of the normalized view: its own name and its rewrite.
#[derive(Clone, Debug)]
pub struct Projection {
    pub name: String,
    pub normalization: Normalization,
}

/// One row of the statistics table before sorting: its label and the
/// aggregate computed for every column.
#[derive(Clone, Debug)]
pub struct StatisticRow {
    pub label: String,
    pub aggregate: Aggregate,
}

/// A column of the final table and how it is re-expressed.
#[derive(Clone, Debug)]
pub struct OutputColumn {
    pub name: String,
    pub cast: CastBack,
}

/// The whole statistics query: normalize, aggregate each statistic and union
/// the rows, cast back, then sort ascending by the label column.
#[derive(Clone, Debug)]
pub struct DescribePlan {
    pub projections: Vec<Projection>,
    pub rows: Vec<StatisticRow>,
    pub output: Vec<OutputColumn>,
    pub sort_by: String,
}

pub open spec fn projections_for(cols: Seq<Column>, p: Seq<Projection>) -> bool {
    &&& p.len() == cols.len()
    &&& forall|i: int|
        0 <= i < p.len() ==> (#[trigger] p[i]).name@ == cols[i].name@ && p[i].normalization
            == normalization_of(cols[i].kind)
}

pub open spec fn rows_for(ms: Seq<DescribeMethod>, r: Seq<StatisticRow>) -> bool {
    &&& r.len() == ms.len()
    &&& forall|i: int|
        0 <= i < r.len() ==> (#[trigger] r[i]).label@ == label_of(ms[i]) && r[i].aggregate
            == aggregate_of(ms[i])
}

pub open spec fn output_for(cols: Seq<Column>, o: Seq<OutputColumn>) -> bool {
    &&& o.len() == cols.len() + 1
    &&& o[0].name@ == label_column()
    &&& o[0].cast == CastBack::Keep
    &&& forall|i: int|
        0 <= i < cols.len() ==> (#[trigger] o[i + 1]).name@ == cols[i].name@ && o[i + 1].cast
            == cast_back_of(cols[i].kind)
}

pub open spec fn plan_for(cols: Seq<Column>, ms: Seq<DescribeMethod>, p: DescribePlan) -> bool {
    &&& projections_for(cols, p.projections@)
    &&& rows_for(ms, p.rows@)
    &&& output_for(cols, p.output@)
    &&& p.sort_by@ == label_column()
}

/// Plans the statistics table of a dataset from its columns.
pub struct DataFrameDescriber {
    columns: Vec<Column>,
    methods: Vec<DescribeMethod>,
}

impl DataFrameDescriber {
    pub closed spec fn columns(&self) -> Seq<Column> {
        self.columns@
    }

    pub closed spec fn methods(&self) -> Seq<DescribeMethod> {
        self.methods@
    }

    /// A describer over `columns` with the seven statistics.
    pub fn try_new(columns: Vec<Column>) -> (r: Self)
        ensures
            r.columns() == columns@,
            r.methods() == all_methods(),
    {
        DataFrameDescriber { columns, methods: DescribeMethod::all() }
    }

    /// A describer over `columns` with the given statistics.
    pub fn with_methods(columns: Vec<Column>, methods: Vec<DescribeMethod>) -> (r: Self)
        ensures
            r.columns() == columns@,
            r.methods() == methods@,
    {
        DataFrameDescriber { columns, methods }
    }

    /// The normalized view: each column under its own name, rewritten by its
    /// kind.
    pub fn normalize(&self) -> (r: Vec<Projection>)
        ensures
            projections_for(self.columns(), r@),
    {
        let mut out: Vec<Projection> = Vec::new();
        let mut i: usize = 0;
        while i < self.columns.len()
            invariant
                i <= self.columns@.len(),
                projections_for(self.columns@.subrange(0, i as int), out@),
            decreases self.columns@.len() - i,
        {
            let c = &self.columns[i];
            let normalization = match c.kind {
                ColumnKind::Temporal => Normalization::CastToFloat,
                ColumnKind::Numeric => Normalization::Keep,
                ColumnKind::List => Normalization::ElementCount,
                ColumnKind::Other => Normalization::CharLength,
            };
            out.push(Projection { name: c.name.clone(), normalization });
            i = i + 1;
        }
        assert(self.columns@.subrange(0, i as int) =~= self.columns@);
        out
    }

    /// One row per statistic, in the order the statistics are listed; fails
    /// when there is no statistic.
    pub fn do_describe(&self) -> (r: Result<Vec<StatisticRow>, CommandError>)
        ensures
            r is Err <==> self.methods().len() == 0,
            r matches Err(e) ==> e == CommandError::EmptyStatisticSet,
            r matches Ok(rows) ==> rows_for(self.methods(), rows@),
    {
        if self.methods.len() == 0 {
            return Err(CommandError::EmptyStatisticSet);
        }
        let mut rows: Vec<StatisticRow> = Vec::new();
        let mut i: usize = 0;
        while i < self.methods.len()
            invariant
                i <= self.methods@.len(),
                rows_for(self.methods@.subrange(0, i as int), rows@),
            decreases self.methods@.len() - i,
        {
            let m = self.methods[i];
            rows.push(StatisticRow { label: String::from_str(m.label()), aggregate: m.aggregate() });
            i = i + 1;
        }
        assert(self.methods@.subrange(0, i as int) =~= self.methods@);
        Ok(rows)
    }

    /// The final columns: the label column, then each dataset column cast
    /// back by its kind.
    pub fn cast_back(&self) -> (r: Vec<OutputColumn>)
        ensures
            output_for(self.columns(), r@),
    {
        let mut out: Vec<OutputColumn> = Vec::new();
        proof {
            reveal_strlit("describe");
        }
        out.push(OutputColumn { name: String::from_str("describe"), cast: CastBack::Keep });
        let mut i: usize = 0;
        while i < self.columns.len()
            invariant
                i <= self.columns@.len(),
                out@.len() == i + 1,
                out@[0].name@ == label_column(),
                out@[0].cast == CastBack::Keep,
                forall|j: int|
                    0 <= j < i ==> (#[trigger] out@[j + 1]).name@ == self.columns@[j].name@
                        && out@[j + 1].cast == cast_back_of(self.columns@[j].kind),
            decreases self.columns@.len() - i,
        {
            let c = &self.columns[i];
            let cast = match c.kind {
                ColumnKind::Temporal => CastBack::ToDeclared,
                ColumnKind::List => CastBack::ToInteger,
                _ => CastBack::Keep,
            };
            out.push(OutputColumn { name: c.name.clone(), cast });
            i = i + 1;
        }
        out
    }

    /// The whole statistics query; fails when there is no statistic.
    pub fn describe(&self) -> (r: Result<DescribePlan, CommandError>)
        ensures
            r is Err <==> self.methods().len() == 0,
            r matches Err(e) ==> e == CommandError::EmptyStatisticSet,
            r matches Ok(p) ==> plan_for(self.columns(), self.methods(), p),
    {
        let rows = match self.do_describe() {
            Ok(rows) => rows,
            Err(e) => return Err(e),
        };
        proof {
            reveal_strlit("describe");
        }
        Ok(
            DescribePlan {
                projections: self.normalize(),
                rows,
                output: self.cast_back(),
                sort_by: String::from_str("describe"),
            },
        )
    }
}

/// Describing the same columns twice gives the same plan.
pub proof fn lemma_describe_deterministic(
    cols: Seq<Column>,
    ms: Seq<DescribeMethod>,
    first: DescribePlan,
    second: DescribePlan,
)
    requires
        plan_for(cols, ms, first),
        plan_for(cols, ms, second),
    ensures
        first.projections@.len() == second.projections@.len(),
        forall|i: int|
            0 <= i < first.projections@.len() ==> (#[trigger] first.projections@[i]).name@
                == second.projections@[i].name@ && first.projections@[i].normalization
                == second.projections@[i].normalization,
        first.rows@.len() == second.rows@.len(),
        forall|i: int|
            0 <= i < first.rows@.len() ==> (#[trigger] first.rows@[i]).label@ == second.rows@[i].label@
                && first.rows@[i].aggregate == second.rows@[i].aggregate,
        first.output@.len() == second.output@.len(),
        forall|i: int|
            0 <= i < first.output@.len() ==> (#[trigger] first.output@[i]).name@ == second.output@[i].name@
                && first.output@[i].cast == second.output@[i].cast,
        first.sort_by@ == second.sort_by@,
{
    assert forall|i: int| 0 <= i < first.output@.len() implies (#[trigger] first.output@[i]).name@
        == second.output@[i].name@ && first.output@[i].cast == second.output@[i].cast by {
        if i > 0 {
            assert(first.output@[(i - 1) + 1] == first.output@[i]);
            assert(second.output@[(i - 1) + 1] == second.output@[i]);
        }
    }
}

/// Columns of every kind get a statistic-friendly rewrite and every
/// statistic: text is summarised by its character length, lists by their
/// element count, timestamps as floats cast back to their type afterwards.
pub proof fn lemma_cross_type_uniformity(cols: Seq<Column>, p: DescribePlan)
    requires
        plan_for(cols, all_methods(), p),
    ensures
        p.rows@.len() == 7,
        forall|i: int|
            0 <= i < cols.len() ==> (cols[i].kind == ColumnKind::Other ==> (
            #[trigger] p.projections@[i]).normalization == Normalization::CharLength) && (
            cols[i].kind == ColumnKind::List ==> p.projections@[i].normalization
                == Normalization::ElementCount && p.output@[i + 1].cast == CastBack::ToInteger) && (
            cols[i].kind == ColumnKind::Temporal ==> p.projections@[i].normalization
                == Normalization::CastToFloat && p.output@[i + 1].cast == CastBack::ToDeclared) && (
            cols[i].kind == ColumnKind::Numeric ==> p.projections@[i].normalization
                == Normalization::Keep && p.output@[i + 1].cast == CastBack::Keep),
{
}

} // verus!
