//! The logical plan: a tree of operators that describes a deferred query.

use crate::datatypes::field::{fields_view, Field, FieldView};
use crate::datatypes::schema::Schema;
use crate::error::Result;
use crate::lazy::dsl::Expr;
use crate::lazy::options::{
    CsvParserOptions, DistinctOptions, GroupbyOptions, JoinOptions, LogicalPlanUdfOptions,
    LpScanOptions, ParquetOptions,
};
use crate::series::Series;
use std::sync::Arc;
use vstd::prelude::*;

verus! {

/// A schema that several plan nodes may share.
pub type SchemaRef = Arc<Schema>;

/// A table: columns of equal length.
#[derive(Debug)]
pub struct DataFrame {
    columns: Vec<Series>,
}

/// The fields of the columns, in order.
pub open spec fn series_fields(columns: Seq<Series>) -> Seq<FieldView> {
    Seq::new(columns.len(), |i: int| columns[i].spec_field())
}

impl Clone for DataFrame {
    fn clone(&self) -> (r: Self)
        ensures
            r.spec_columns().len() == self.spec_columns().len(),
            forall|i: int|
                0 <= i < self.spec_columns().len() ==> {
                    let copy = #[trigger] r.spec_columns()[i];
                    let column = self.spec_columns()[i];
                    &&& copy.values() == column.values()
                    &&& copy.spec_chunks() == column.spec_chunks()
                    &&& copy.spec_field() == column.spec_field()
                },
    {
        let n = self.columns.len();
        let mut columns: Vec<Series> = Vec::new();
        let mut i: usize = 0;
        while i < n
            invariant
                i <= n,
                n == self.columns@.len(),
                columns@.len() == i,
                forall|j: int|
                    0 <= j < i ==> {
                        let copy = #[trigger] columns@[j];
                        let column = self.columns@[j];
                        &&& copy.values() == column.values()
                        &&& copy.spec_chunks() == column.spec_chunks()
                        &&& copy.spec_field() == column.spec_field()
                    },
            decreases n - i,
        {
            columns.push(self.columns[i].clone());
            i += 1;
        }
        DataFrame { columns }
    }
}

impl DataFrame {
    /// The columns of the frame, in order.
    pub closed spec fn spec_columns(self) -> Seq<Series> {
        self.columns@
    }

    /// Creates a frame from its columns. That the columns have equal length
    /// and different names is not checked.
    pub fn new_no_checks(columns: Vec<Series>) -> (r: DataFrame)
        ensures
            r.spec_columns() == columns@,
    {
        DataFrame { columns }
    }

    /// The columns of the frame.
    pub fn get_columns(&self) -> (r: &Vec<Series>)
        ensures
            r@ == self.spec_columns(),
    {
        &self.columns
    }

    /// The schema of the frame: the field of each column, in order.
    pub fn schema(&self) -> (r: Schema)
        ensures
            r@ == series_fields(self.spec_columns()),
    {
        let n = self.columns.len();
        let mut fields: Vec<Field> = Vec::new();
        let mut i: usize = 0;
        while i < n
            invariant
                i <= n,
                n == self.columns@.len(),
                fields@.len() == i,
                forall|j: int| 0 <= j < i ==> (#[trigger] fields@[j])@ == self.columns@[j].spec_field(),
            decreases n - i,
        {
            fields.push(self.columns[i].field());
            i += 1;
        }
        assert(fields_view(fields@) =~= series_fields(self.spec_columns()));
        Schema::new(fields)
    }
}

/// A function on frames that the user supplies. The plan carries it without
/// looking into it.
pub trait DataFrameUdf: Send + Sync {
    fn call_udf(&self, df: DataFrame) -> Result<DataFrame>;
}

/// A user-supplied function that plan nodes may share.
pub struct SharedUdf(pub Arc<dyn DataFrameUdf>);

/// The function of a plan node.
pub enum UdfRef {
    /// Gives a frame without columns for any input.
    EmptyFrame,
    /// A function that the user supplies.
    Shared(SharedUdf),
}

/// A node of a logical plan, which owns the plans of its inputs.
#[allow(inconsistent_fields)]
pub enum LogicalPlan {
    /// Filter on a boolean mask.
    Selection { input: Box<LogicalPlan>, predicate: Expr },
    /// Cache the input at this point in the plan.
    Cache { input: Box<LogicalPlan> },
    /// Scan a CSV file.
    CsvScan {
        path: String,
        schema: SchemaRef,
        options: CsvParserOptions,
        /// Filters at the scan level.
        predicate: Option<Expr>,
        /// Aggregations at the scan level.
        aggregate: Vec<Expr>,
    },
    /// Scan a Parquet file.
    ParquetScan {
        path: String,
        schema: SchemaRef,
        predicate: Option<Expr>,
        aggregate: Vec<Expr>,
        options: ParquetOptions,
    },
    /// Scan an IPC file.
    IpcScan {
        path: String,
        schema: SchemaRef,
        options: LpScanOptions,
        predicate: Option<Expr>,
        aggregate: Vec<Expr>,
    },
    /// A frame in memory.
    DataFrameScan {
        df: Arc<DataFrame>,
        schema: SchemaRef,
        projection: Option<Arc<Vec<Expr>>>,
        selection: Option<Expr>,
    },
    /// A projection that does not change the schema beyond the types.
    LocalProjection { expr: Vec<Expr>, input: Box<LogicalPlan>, schema: SchemaRef },
    /// Column selection.
    Projection { expr: Vec<Expr>, input: Box<LogicalPlan>, schema: SchemaRef },
    /// Groupby aggregation.
    Aggregate {
        input: Box<LogicalPlan>,
        keys: Arc<Vec<Expr>>,
        aggs: Vec<Expr>,
        schema: SchemaRef,
        apply: Option<UdfRef>,
        maintain_order: bool,
        options: GroupbyOptions,
    },
    /// Join operation.
    Join {
        input_left: Box<LogicalPlan>,
        input_right: Box<LogicalPlan>,
        schema: SchemaRef,
        left_on: Vec<Expr>,
        right_on: Vec<Expr>,
        options: JoinOptions,
    },
    /// Adding columns to the table without a join.
    HStack { input: Box<LogicalPlan>, exprs: Vec<Expr>, schema: SchemaRef },
    /// Remove duplicates from the table.
    Distinct { input: Box<LogicalPlan>, options: DistinctOptions },
    /// Sort the table.
    Sort { input: Box<LogicalPlan>, by_column: Vec<Expr>, reverse: Vec<bool> },
    /// An explode operation.
    Explode { input: Box<LogicalPlan>, columns: Vec<String> },
    /// Slice the table.
    Slice { input: Box<LogicalPlan>, offset: i64, len: u32 },
    /// A melt operation.
    Melt {
        input: Box<LogicalPlan>,
        id_vars: Arc<Vec<String>>,
        value_vars: Arc<Vec<String>>,
        schema: SchemaRef,
    },
    /// A user-defined function.
    Udf {
        input: Box<LogicalPlan>,
        function: UdfRef,
        options: LogicalPlanUdfOptions,
        schema: Option<SchemaRef>,
    },
}

impl LogicalPlan {
    /// The schema of the frame that the plan produces.
    pub open spec fn spec_schema(self) -> Schema
        decreases self,
    {
        match self {
            LogicalPlan::Selection { input, .. } => input.spec_schema(),
            LogicalPlan::Cache { input } => input.spec_schema(),
            LogicalPlan::CsvScan { schema, .. } => *schema,
            LogicalPlan::ParquetScan { schema, .. } => *schema,
            LogicalPlan::IpcScan { schema, .. } => *schema,
            LogicalPlan::DataFrameScan { schema, .. } => *schema,
            LogicalPlan::LocalProjection { schema, .. } => *schema,
            LogicalPlan::Projection { schema, .. } => *schema,
            LogicalPlan::Aggregate { schema, .. } => *schema,
            LogicalPlan::Join { schema, .. } => *schema,
            LogicalPlan::HStack { schema, .. } => *schema,
            LogicalPlan::Distinct { input, .. } => input.spec_schema(),
            LogicalPlan::Sort { input, .. } => input.spec_schema(),
            LogicalPlan::Explode { input, .. } => input.spec_schema(),
            LogicalPlan::Slice { input, .. } => input.spec_schema(),
            LogicalPlan::Melt { schema, .. } => *schema,
            LogicalPlan::Udf { input, schema, .. } => match schema {
                Some(s) => *s,
                None => input.spec_schema(),
            },
        }
    }

    /// The schema of the frame that the plan produces: that of the node
    /// where it carries one, and else that of its input.
    pub fn schema(&self) -> (r: &Schema)
        ensures
            *r == self.spec_schema(),
        decreases self,
    {
        match self {
            LogicalPlan::Selection { input, .. } => (&**input).schema(),
            LogicalPlan::Cache { input } => (&**input).schema(),
            LogicalPlan::CsvScan { schema, .. } => &**schema,
            LogicalPlan::ParquetScan { schema, .. } => &**schema,
            LogicalPlan::IpcScan { schema, .. } => &**schema,
            LogicalPlan::DataFrameScan { schema, .. } => &**schema,
            LogicalPlan::LocalProjection { schema, .. } => &**schema,
            LogicalPlan::Projection { schema, .. } => &**schema,
            LogicalPlan::Aggregate { schema, .. } => &**schema,
            LogicalPlan::Join { schema, .. } => &**schema,
            LogicalPlan::HStack { schema, .. } => &**schema,
            LogicalPlan::Distinct { input, .. } => (&**input).schema(),
            LogicalPlan::Sort { input, .. } => (&**input).schema(),
            LogicalPlan::Explode { input, .. } => (&**input).schema(),
            LogicalPlan::Slice { input, .. } => (&**input).schema(),
            LogicalPlan::Melt { schema, .. } => &**schema,
            LogicalPlan::Udf { input, schema, .. } => match schema {
                Some(s) => &**s,
                None => (&**input).schema(),
            },
        }
    }
}

} // verus!
