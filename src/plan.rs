//! The logical plan: a tree of relational operators, each node carrying the
//! output schema that the analyzer inferred for it.
use std::sync::Arc;
use vstd::prelude::*;

verus! {

#[derive(Clone, Copy, Debug, PartialEq, Eq, Hash)]
pub enum DataType {
    Null,
    Boolean,
    Int32,
    Int64,
    UInt64,
    Utf8,
    Binary,
    Date,
}

#[derive(Clone, Debug, PartialEq, Eq, Hash)]
pub struct Field {
    pub name: String,
    pub dtype: DataType,
}

#[derive(Clone, Debug, PartialEq, Eq, Hash)]
pub struct Schema {
    pub fields: Vec<Field>,
}

pub type SchemaRef = Arc<Schema>;

#[derive(Clone, Copy, Debug, PartialEq, Eq, Hash)]
pub enum Operator {
    Eq,
    EqNullSafe,
    NotEq,
    Lt,
    LtEq,
    Gt,
    GtEq,
    And,
    Or,
    Plus,
    Minus,
}

#[derive(Clone, Debug, PartialEq, Eq, Hash)]
pub enum Expr {
    Column(String),
    Literal(i64),
    Alias { expr: ExprRef, name: String },
    BinaryOp { op: Operator, left: ExprRef, right: ExprRef },
}

pub type ExprRef = Arc<Expr>;

/// A join condition, held as the list of its conjuncts.
#[derive(Clone, Debug, PartialEq, Eq, Hash)]
pub struct JoinPredicate {
    pub conjuncts: Vec<ExprRef>,
}

#[derive(Clone, Copy, Debug, PartialEq, Eq, Hash)]
pub enum JoinType {
    Inner,
    Left,
    Right,
    Outer,
    Anti,
    Semi,
}

#[derive(Clone, Copy, Debug, PartialEq, Eq, Hash)]
pub enum ClusteringSpec {
    Unknown,
    Hash { num_partitions: usize },
    Range { num_partitions: usize },
    Random { num_partitions: usize },
}

#[derive(Clone, Debug, PartialEq, Eq, Hash)]
pub enum RepartitionSpec {
    Hash { num_partitions: Option<usize>, by: Vec<ExprRef> },
    Random { num_partitions: Option<usize> },
    IntoPartitions { num_partitions: usize },
    Range { num_partitions: Option<usize>, by: Vec<ExprRef> },
}

#[derive(Clone, Debug, PartialEq, Eq, Hash)]
pub enum SourceInfo {
    /// A scan of a named table.
    Scan { table: String },
    /// Stands where a sub-plan was cut out; the data comes from another stage.
    PlaceHolder { clustering_spec: ClusteringSpec },
}

#[derive(Clone, Debug, PartialEq, Eq, Hash)]
pub enum UnaryOp {
    Project { projection: Vec<ExprRef> },
    Filter { predicate: ExprRef },
    Sink { target: String },
    Sample { with_replacement: bool, seed: Option<u64> },
    Explode { to_explode: Vec<ExprRef> },
    ActorPoolProject { projection: Vec<ExprRef> },
    Unpivot { ids: Vec<ExprRef>, values: Vec<ExprRef> },
    MonotonicallyIncreasingId { column_name: String },
    Distinct,
    Limit { limit: u64 },
    Repartition { spec: RepartitionSpec },
    Aggregate { aggregations: Vec<ExprRef>, group_by: Vec<ExprRef> },
    Window { partition_by: Vec<ExprRef>, order_by: Vec<ExprRef> },
    Sort { sort_by: Vec<ExprRef> },
    TopN { sort_by: Vec<ExprRef>, limit: u64 },
    Pivot { group_by: Vec<ExprRef>, pivot_column: ExprRef },
    SubqueryAlias { name: String },
    Shard { world_size: usize, rank: usize },
}

/// The binary operators other than a join.
#[derive(Clone, Copy, Debug, PartialEq, Eq, Hash)]
pub enum SetOp {
    Concat,
    Union,
    Intersect,
}

#[derive(Debug, PartialEq, Eq)]
pub enum LogicalPlan {
    Source { schema: SchemaRef, source_info: SourceInfo },
    Unary { op: UnaryOp, schema: SchemaRef, input: Box<LogicalPlan> },
    Join {
        on: JoinPredicate,
        join_type: JoinType,
        schema: SchemaRef,
        left: Box<LogicalPlan>,
        right: Box<LogicalPlan>,
    },
    SetOperation { op: SetOp, schema: SchemaRef, left: Box<LogicalPlan>, right: Box<LogicalPlan> },
}

/// The output schema of a plan node.
pub open spec fn schema_of(p: LogicalPlan) -> SchemaRef {
    match p {
        LogicalPlan::Source { schema, .. } => schema,
        LogicalPlan::Unary { schema, .. } => schema,
        LogicalPlan::Join { schema, .. } => schema,
        LogicalPlan::SetOperation { schema, .. } => schema,
    }
}

/// A source node with the given schema whose data arrives over a channel.
pub open spec fn placeholder(schema: SchemaRef) -> LogicalPlan {
    LogicalPlan::Source {
        schema,
        source_info: SourceInfo::PlaceHolder { clustering_spec: ClusteringSpec::Unknown },
    }
}

/// The number of nodes of a plan.
pub open spec fn plan_size(p: LogicalPlan) -> nat
    decreases p,
{
    match p {
        LogicalPlan::Source { .. } => 1,
        LogicalPlan::Unary { input, .. } => 1 + plan_size(*input),
        LogicalPlan::Join { left, right, .. } => 1 + plan_size(*left) + plan_size(*right),
        LogicalPlan::SetOperation { left, right, .. } => 1 + plan_size(*left) + plan_size(*right),
    }
}

/// Whether this one operator can be placed into a stage, regardless of what lies below it.
/// A join is a stage boundary and passes; its own condition is judged when its stage is built.
pub open spec fn node_translatable(p: LogicalPlan) -> bool {
    match p {
        LogicalPlan::Source { .. } => true,
        LogicalPlan::Join { .. } => true,
        LogicalPlan::SetOperation { .. } => false,
        LogicalPlan::Unary { op, .. } => match op {
            UnaryOp::Repartition { spec } => spec is Hash,
            UnaryOp::Aggregate { group_by, .. } => group_by@.len() > 0,
            UnaryOp::Window { partition_by, .. } => partition_by@.len() > 0,
            UnaryOp::Sort { .. } | UnaryOp::TopN { .. } | UnaryOp::Pivot { .. } => false,
            UnaryOp::SubqueryAlias { .. } | UnaryOp::Shard { .. } => false,
            _ => true,
        },
    }
}

/// Whether every node of the plan can be placed into a stage.
pub open spec fn translatable(p: LogicalPlan) -> bool
    decreases p,
{
    node_translatable(p) && match p {
        LogicalPlan::Source { .. } => true,
        LogicalPlan::Unary { input, .. } => translatable(*input),
        LogicalPlan::Join { left, right, .. } => translatable(*left) && translatable(*right),
        LogicalPlan::SetOperation { left, right, .. } => translatable(*left) && translatable(*right),
    }
}

/// Operators that an earlier optimization pass removes: union, intersect, subquery alias, shard.
pub open spec fn node_excluded(p: LogicalPlan) -> bool {
    match p {
        LogicalPlan::SetOperation { op, .. } => !(op is Concat),
        LogicalPlan::Unary { op, .. } => op is SubqueryAlias || op is Shard,
        _ => false,
    }
}

/// Whether some node of the plan is one that must have been optimized away.
pub open spec fn has_excluded(p: LogicalPlan) -> bool
    decreases p,
{
    node_excluded(p) || match p {
        LogicalPlan::Source { .. } => false,
        LogicalPlan::Unary { input, .. } => has_excluded(*input),
        LogicalPlan::Join { left, right, .. } => has_excluded(*left) || has_excluded(*right),
        LogicalPlan::SetOperation { left, right, .. } => has_excluded(*left) || has_excluded(*right),
    }
}

/// Whether an expression compares a left key with a right key for equality.
pub open spec fn is_equality(e: ExprRef) -> bool {
    *e matches Expr::BinaryOp { op, .. } && (op is Eq || op is EqNullSafe)
}

/// The conjuncts of a join condition that are not equalities, in order.
pub open spec fn residue(cs: Seq<ExprRef>) -> Seq<ExprRef>
    decreases cs.len(),
{
    if cs.len() == 0 {
        seq![]
    } else if is_equality(cs.last()) {
        residue(cs.drop_last())
    } else {
        residue(cs.drop_last()).push(cs.last())
    }
}

/// The equality conjuncts of a join condition, in order.
pub open spec fn equalities(cs: Seq<ExprRef>) -> Seq<ExprRef>
    decreases cs.len(),
{
    if cs.len() == 0 {
        seq![]
    } else if is_equality(cs.last()) {
        equalities(cs.drop_last()).push(cs.last())
    } else {
        equalities(cs.drop_last())
    }
}

pub open spec fn eq_left(e: ExprRef) -> ExprRef {
    match *e {
        Expr::BinaryOp { left, .. } => left,
        _ => e,
    }
}

pub open spec fn eq_right(e: ExprRef) -> ExprRef {
    match *e {
        Expr::BinaryOp { right, .. } => right,
        _ => e,
    }
}

pub open spec fn eq_null_safe(e: ExprRef) -> bool {
    *e matches Expr::BinaryOp { op, .. } && op is EqNullSafe
}

/// Whether some join of the plan has a condition that is not made of equalities alone.
pub open spec fn has_non_equi_join(p: LogicalPlan) -> bool
    decreases p,
{
    match p {
        LogicalPlan::Source { .. } => false,
        LogicalPlan::Unary { input, .. } => has_non_equi_join(*input),
        LogicalPlan::Join { on, left, right, .. } => residue(on.conjuncts@).len() > 0
            || has_non_equi_join(*left) || has_non_equi_join(*right),
        LogicalPlan::SetOperation { left, right, .. } => has_non_equi_join(*left)
            || has_non_equi_join(*right),
    }
}

/// Whether the plan holds a join anywhere.
pub open spec fn has_join(p: LogicalPlan) -> bool
    decreases p,
{
    match p {
        LogicalPlan::Source { .. } => false,
        LogicalPlan::Unary { input, .. } => has_join(*input),
        LogicalPlan::Join { .. } => true,
        LogicalPlan::SetOperation { left, right, .. } => has_join(*left) || has_join(*right),
    }
}

/// `1 + a + b`, or `usize::MAX` where that does not fit.
fn saturating_sum(a: usize, b: usize) -> (r: usize)
    ensures
        r == (if 1 + a + b < usize::MAX {
            1 + a + b
        } else {
            usize::MAX as int
        }),
{
    if a >= usize::MAX - 1 || b >= usize::MAX - 1 - a {
        usize::MAX
    } else {
        1 + a + b
    }
}

impl JoinPredicate {
    /// Splits the condition into the conjuncts that are not equalities, the left and
    /// right keys of the equalities, and whether each equality also matches nulls.
    pub fn split_eq_preds(&self) -> (r: (Vec<ExprRef>, Vec<ExprRef>, Vec<ExprRef>, Vec<bool>))
        ensures
            r.0@ == residue(self.conjuncts@),
            r.1@ == equalities(self.conjuncts@).map_values(|e: ExprRef| eq_left(e)),
            r.2@ == equalities(self.conjuncts@).map_values(|e: ExprRef| eq_right(e)),
            r.3@ == equalities(self.conjuncts@).map_values(|e: ExprRef| eq_null_safe(e)),
    {
        let mut remaining: Vec<ExprRef> = Vec::new();
        let mut left_on: Vec<ExprRef> = Vec::new();
        let mut right_on: Vec<ExprRef> = Vec::new();
        let mut null_equals_null: Vec<bool> = Vec::new();
        let n = self.conjuncts.len();
        let mut i: usize = 0;
        while i < n
            invariant
                n == self.conjuncts@.len(),
                i <= n,
                remaining@ == residue(self.conjuncts@.subrange(0, i as int)),
                left_on@ == equalities(self.conjuncts@.subrange(0, i as int)).map_values(
                    |e: ExprRef| eq_left(e),
                ),
                right_on@ == equalities(self.conjuncts@.subrange(0, i as int)).map_values(
                    |e: ExprRef| eq_right(e),
                ),
                null_equals_null@ == equalities(self.conjuncts@.subrange(0, i as int)).map_values(
                    |e: ExprRef| eq_null_safe(e),
                ),
            decreases n - i,
        {
            let c = &self.conjuncts[i];
            let ghost pre = self.conjuncts@.subrange(0, i as int);
            proof {
                assert(self.conjuncts@.subrange(0, i + 1).drop_last() == pre);
            }
            match &**c {
                Expr::BinaryOp { op: Operator::Eq, left, right } => {
                    left_on.push(left.clone());
                    right_on.push(right.clone());
                    null_equals_null.push(false);
                },
                Expr::BinaryOp { op: Operator::EqNullSafe, left, right } => {
                    left_on.push(left.clone());
                    right_on.push(right.clone());
                    null_equals_null.push(true);
                },
                _ => {
                    remaining.push(c.clone());
                },
            }
            proof {
                let next = self.conjuncts@.subrange(0, i + 1);
                assert(equalities(next) == (if is_equality(next.last()) {
                    equalities(pre).push(next.last())
                } else {
                    equalities(pre)
                }));
                assert(left_on@ =~= equalities(next).map_values(|e: ExprRef| eq_left(e)));
                assert(right_on@ =~= equalities(next).map_values(|e: ExprRef| eq_right(e)));
                assert(null_equals_null@ =~= equalities(next).map_values(
                    |e: ExprRef| eq_null_safe(e),
                ));
            }
            i = i + 1;
        }
        proof {
            assert(self.conjuncts@.subrange(0, n as int) == self.conjuncts@);
        }
        (remaining, left_on, right_on, null_equals_null)
    }
}

impl LogicalPlan {
    /// The output schema of this node.
    pub fn schema(&self) -> (r: SchemaRef)
        ensures
            r == schema_of(*self),
    {
        match self {
            LogicalPlan::Source { schema, .. } => schema.clone(),
            LogicalPlan::Unary { schema, .. } => schema.clone(),
            LogicalPlan::Join { schema, .. } => schema.clone(),
            LogicalPlan::SetOperation { schema, .. } => schema.clone(),
        }
    }

    /// The number of nodes of the plan, or `usize::MAX` where there are that many or more.
    pub fn node_count(&self) -> (r: usize)
        ensures
            r == (if plan_size(*self) < usize::MAX {
                plan_size(*self)
            } else {
                usize::MAX as nat
            }),
        decreases self,
    {
        match self {
            LogicalPlan::Source { .. } => 1,
            LogicalPlan::Unary { input, .. } => {
                let n = input.node_count();
                if n == usize::MAX {
                    usize::MAX
                } else {
                    n + 1
                }
            },
            LogicalPlan::Join { left, right, .. } => saturating_sum(left.node_count(), right.node_count()),
            LogicalPlan::SetOperation { left, right, .. } => saturating_sum(left.node_count(), right.node_count()),
        }
    }

    /// A source node standing for data of the given schema that another stage produces.
    pub fn placeholder(schema: SchemaRef) -> (r: LogicalPlan)
        ensures
            r == placeholder(schema),
    {
        LogicalPlan::Source {
            schema,
            source_info: SourceInfo::PlaceHolder { clustering_spec: ClusteringSpec::Unknown },
        }
    }
}

} // verus!
