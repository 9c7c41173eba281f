//! Options of the nodes of a logical plan.

use crate::error::HostError;
use crate::text::str_eq;
use std::sync::Arc;
use vstd::prelude::*;

verus! {

/// How the bytes of a CSV file are read as text.
#[derive(Copy, Clone, Debug, PartialEq, Eq, Structural)]
pub enum CsvEncoding {
    /// Utf8 encoding.
    Utf8,
    /// Utf8 encoding; unknown bytes are replaced.
    LossyUtf8,
}

/// The strings of a CSV file that stand for a null value.
#[derive(Debug, PartialEq)]
pub enum NullValues {
    /// A single value that is used for all columns.
    AllColumns(String),
    /// One value per column, in the order of the columns.
    Columns(Vec<String>),
    /// Pairs of a column's name and its value.
    Named(Vec<(String, String)>),
}

/// A column that counts the rows, to be added in front.
#[derive(Debug, PartialEq)]
pub struct RowCount {
    pub name: String,
    pub offset: u32,
}

/// How a CSV file is parsed.
#[derive(Debug, PartialEq)]
pub struct CsvParserOptions {
    pub delimiter: u8,
    pub comment_char: Option<u8>,
    pub quote_char: Option<u8>,
    pub has_header: bool,
    pub skip_rows: usize,
    pub n_rows: Option<usize>,
    pub with_columns: Option<Vec<String>>,
    pub low_memory: bool,
    pub ignore_errors: bool,
    pub cache: bool,
    pub null_values: Option<NullValues>,
    pub rechunk: bool,
    pub encoding: CsvEncoding,
    pub row_count: Option<RowCount>,
}

/// How a Parquet file is scanned.
#[derive(Debug, PartialEq)]
pub struct ParquetOptions {
    pub n_rows: Option<usize>,
    pub with_columns: Option<Vec<String>>,
    pub cache: bool,
    pub parallel: bool,
}

/// How an IPC file is scanned.
#[derive(Debug, PartialEq)]
pub struct LpScanOptions {
    pub n_rows: Option<usize>,
    pub with_columns: Option<Vec<String>>,
    pub cache: bool,
}

/// Which ends of a time window belong to it.
#[derive(Copy, Clone, Debug, PartialEq, Eq, Structural)]
pub enum ClosedWindow {
    Left,
    Right,
    Neither,
}

/// A span of time: calendar months and nanoseconds, forwards or backwards.
#[derive(Copy, Clone, Debug, PartialEq, Eq, Structural)]
pub struct Duration {
    pub months: i64,
    pub nsecs: i64,
    pub negative: bool,
}

/// Grouping by windows that start at regular intervals.
#[derive(Debug, PartialEq)]
pub struct DynamicGroupOptions {
    pub index_column: String,
    pub every: Duration,
    pub period: Duration,
    pub offset: Duration,
    pub truncate: bool,
    pub include_boundaries: bool,
    pub closed_window: ClosedWindow,
}

/// Grouping by one window per row.
#[derive(Debug, PartialEq)]
pub struct RollingGroupOptions {
    pub index_column: String,
    pub period: Duration,
    pub offset: Duration,
    pub closed_window: ClosedWindow,
}

/// The time windows of a grouping, if it has any.
#[derive(Debug, PartialEq)]
pub struct GroupbyOptions {
    pub dynamic: Option<DynamicGroupOptions>,
    pub rolling: Option<RollingGroupOptions>,
}

/// The kind of a join.
#[derive(Copy, Clone, Debug, PartialEq, Eq, Structural)]
pub enum JoinType {
    Left,
    Inner,
    Outer,
    AsOf,
    Cross,
}

/// How two frames are joined.
#[derive(Debug, PartialEq)]
pub struct JoinOptions {
    pub allow_parallel: bool,
    pub force_parallel: bool,
    pub how: JoinType,
    /// What is appended to the name of a column of the right frame whose
    /// name the left frame has too.
    pub suffix: String,
    pub asof_by_left: Vec<String>,
    pub asof_by_right: Vec<String>,
}

/// Which of several equal rows is kept.
#[derive(Copy, Clone, Debug, PartialEq, Eq, Structural)]
pub enum DistinctKeepStrategy {
    First,
    Last,
}

/// How duplicate rows are dropped.
#[derive(Debug, PartialEq)]
pub struct DistinctOptions {
    pub subset: Option<Arc<Vec<String>>>,
    pub maintain_order: bool,
    pub keep_strategy: DistinctKeepStrategy,
}

/// The optimizations that a user-defined function permits.
#[derive(Copy, Clone, Debug, PartialEq, Eq, Structural)]
pub struct AllowedOptimizations {
    pub projection_pushdown: bool,
    pub predicate_pushdown: bool,
    pub type_coercion: bool,
    pub simplify_expr: bool,
    pub aggregate_pushdown: bool,
    pub slice_pushdown: bool,
}

impl Default for AllowedOptimizations {
    /// All optimizations are permitted.
    fn default() -> (r: Self)
        ensures
            r == (AllowedOptimizations {
                projection_pushdown: true,
                predicate_pushdown: true,
                type_coercion: true,
                simplify_expr: true,
                aggregate_pushdown: true,
                slice_pushdown: true,
            }),
    {
        AllowedOptimizations {
            projection_pushdown: true,
            predicate_pushdown: true,
            type_coercion: true,
            simplify_expr: true,
            aggregate_pushdown: true,
            slice_pushdown: true,
        }
    }
}

/// What the optimizer may do around a user-defined function, and the text
/// that stands for the function in a description of the plan.
#[derive(Copy, Clone, Debug, PartialEq, Eq)]
pub struct LogicalPlanUdfOptions {
    /// Whether predicates may be moved past the function.
    pub predicate_pd: bool,
    /// Whether projections may be moved past the function.
    pub projection_pd: bool,
    pub fmt_str: &'static str,
}

/// How a quantile between two values is computed.
#[derive(Copy, Clone, Debug, PartialEq, Eq, Structural)]
pub enum QuantileInterpolOptions {
    Nearest,
    Lower,
    Higher,
    Midpoint,
    Linear,
}

impl CsvEncoding {
    /// The encoding with the given name: `utf8` or `utf8-lossy`.
    pub fn parse(name: &str) -> (r: Result<CsvEncoding, HostError>)
        ensures
            match r {
                Ok(e) => if name@ == "utf8"@ {
                    e is Utf8
                } else {
                    name@ == "utf8-lossy"@ && e is LossyUtf8
                },
                Err(e) => {
                    &&& name@ != "utf8"@
                    &&& name@ != "utf8-lossy"@
                    &&& e matches HostError::Other(m)
                    &&& m@ == "encoding not "@ + name@ + " not implemented."@
                },
            },
    {
        if str_eq(name, "utf8") {
            Ok(CsvEncoding::Utf8)
        } else if str_eq(name, "utf8-lossy") {
            Ok(CsvEncoding::LossyUtf8)
        } else {
            let mut msg = String::from_str("encoding not ");
            msg.append(name);
            msg.append(" not implemented.");
            Err(HostError::Other(msg))
        }
    }
}

impl JoinType {
    /// The kind of join that the name stands for.
    pub open spec fn named(name: Seq<char>) -> Option<JoinType> {
        if name == "left"@ {
            Some(JoinType::Left)
        } else if name == "inner"@ {
            Some(JoinType::Inner)
        } else if name == "outer"@ {
            Some(JoinType::Outer)
        } else if name == "asof"@ {
            Some(JoinType::AsOf)
        } else if name == "cross"@ {
            Some(JoinType::Cross)
        } else {
            None
        }
    }

    /// The kind of join with the given name: `left`, `inner`, `outer`,
    /// `asof` or `cross`. Any other name stands for none.
    pub fn parse(name: &str) -> (r: Option<JoinType>)
        ensures
            r == JoinType::named(name@),
    {
        if str_eq(name, "left") {
            Some(JoinType::Left)
        } else if str_eq(name, "inner") {
            Some(JoinType::Inner)
        } else if str_eq(name, "outer") {
            Some(JoinType::Outer)
        } else if str_eq(name, "asof") {
            Some(JoinType::AsOf)
        } else if str_eq(name, "cross") {
            Some(JoinType::Cross)
        } else {
            None
        }
    }
}

impl ClosedWindow {
    /// The ends that the name stands for.
    pub open spec fn named(name: Seq<char>) -> Option<ClosedWindow> {
        if name == "left"@ {
            Some(ClosedWindow::Left)
        } else if name == "right"@ {
            Some(ClosedWindow::Right)
        } else if name == "none"@ {
            Some(ClosedWindow::Neither)
        } else {
            None
        }
    }

    /// The closed ends of a window by name: `left`, `right` or `none`. Any
    /// other name stands for nothing.
    pub fn parse(name: &str) -> (r: Option<ClosedWindow>)
        ensures
            r == ClosedWindow::named(name@),
    {
        if str_eq(name, "left") {
            Some(ClosedWindow::Left)
        } else if str_eq(name, "right") {
            Some(ClosedWindow::Right)
        } else if str_eq(name, "none") {
            Some(ClosedWindow::Neither)
        } else {
            None
        }
    }
}

impl DistinctKeepStrategy {
    /// The strategy that the name stands for.
    pub open spec fn named(name: Seq<char>) -> Option<DistinctKeepStrategy> {
        if name == "first"@ {
            Some(DistinctKeepStrategy::First)
        } else if name == "last"@ {
            Some(DistinctKeepStrategy::Last)
        } else {
            None
        }
    }

    /// The strategy with the given name: `first` or `last`. Any other name
    /// stands for none.
    pub fn parse(name: &str) -> (r: Option<DistinctKeepStrategy>)
        ensures
            r == DistinctKeepStrategy::named(name@),
    {
        if str_eq(name, "first") {
            Some(DistinctKeepStrategy::First)
        } else if str_eq(name, "last") {
            Some(DistinctKeepStrategy::Last)
        } else {
            None
        }
    }
}

impl QuantileInterpolOptions {
    /// The interpolation that the name stands for, where `midpoint` is the
    /// name of the interpolation half way between two values.
    pub open spec fn named(name: Seq<char>, midpoint: Seq<char>) -> Option<
        QuantileInterpolOptions,
    > {
        if name == "nearest"@ {
            Some(QuantileInterpolOptions::Nearest)
        } else if name == "lower"@ {
            Some(QuantileInterpolOptions::Lower)
        } else if name == "higher"@ {
            Some(QuantileInterpolOptions::Higher)
        } else if name == midpoint {
            Some(QuantileInterpolOptions::Midpoint)
        } else if name == "linear"@ {
            Some(QuantileInterpolOptions::Linear)
        } else {
            None
        }
    }

    fn parse_with(name: &str, midpoint: &str) -> (r: Option<QuantileInterpolOptions>)
        ensures
            r == QuantileInterpolOptions::named(name@, midpoint@),
    {
        if str_eq(name, "nearest") {
            Some(QuantileInterpolOptions::Nearest)
        } else if str_eq(name, "lower") {
            Some(QuantileInterpolOptions::Lower)
        } else if str_eq(name, "higher") {
            Some(QuantileInterpolOptions::Higher)
        } else if str_eq(name, midpoint) {
            Some(QuantileInterpolOptions::Midpoint)
        } else if str_eq(name, "linear") {
            Some(QuantileInterpolOptions::Linear)
        } else {
            None
        }
    }

    /// The interpolation with the given name: `nearest`, `lower`, `higher`,
    /// `midpoint` or `linear`. Any other name stands for none.
    pub fn parse(name: &str) -> (r: Option<QuantileInterpolOptions>)
        ensures
            r == QuantileInterpolOptions::named(name@, "midpoint"@),
    {
        QuantileInterpolOptions::parse_with(name, "midpoint")
    }

    /// The interpolation with the given name as the JavaScript interface
    /// spells it: `nearest`, `lower`, `higher`, `midpoinp` or `linear`. Any
    /// other name stands for none.
    pub fn parse_js(name: &str) -> (r: Option<QuantileInterpolOptions>)
        ensures
            r == QuantileInterpolOptions::named(name@, "midpoinp"@),
    {
        QuantileInterpolOptions::parse_with(name, "midpoinp")
    }
}

} // verus!
