use stage_planner::builder::{PlanError, StagePlanBuilder};
use stage_planner::plan::{
    DataType, Expr, ExprRef, Field, JoinPredicate, JoinType, LogicalPlan, Operator,
    RepartitionSpec, Schema, SchemaRef, SetOp, SourceInfo, UnaryOp, ClusteringSpec,
};
use stage_planner::stage::{ChannelID, ExecutionConfig, StagePlan, StageType};
use std::sync::Arc;

fn schema(names: &[&str]) -> SchemaRef {
    Arc::new(Schema {
        fields: names
            .iter()
            .map(|n| Field { name: n.to_string(), dtype: DataType::Int64 })
            .collect(),
    })
}

fn col(name: &str) -> ExprRef {
    Arc::new(Expr::Column(name.to_string()))
}

fn cmp(op: Operator, l: &str, r: &str) -> ExprRef {
    Arc::new(Expr::BinaryOp { op, left: col(l), right: col(r) })
}

fn scan(table: &str, s: SchemaRef) -> LogicalPlan {
    LogicalPlan::Source { schema: s, source_info: SourceInfo::Scan { table: table.to_string() } }
}

fn unary(op: UnaryOp, s: SchemaRef, input: LogicalPlan) -> LogicalPlan {
    LogicalPlan::Unary { op, schema: s, input: Box::new(input) }
}

fn join(conjuncts: Vec<ExprRef>, s: SchemaRef, left: LogicalPlan, right: LogicalPlan) -> LogicalPlan {
    LogicalPlan::Join {
        on: JoinPredicate { conjuncts },
        join_type: JoinType::Inner,
        schema: s,
        left: Box::new(left),
        right: Box::new(right),
    }
}

fn placeholder(s: SchemaRef) -> LogicalPlan {
    LogicalPlan::Source {
        schema: s,
        source_info: SourceInfo::PlaceHolder { clustering_spec: ClusteringSpec::Unknown },
    }
}

fn config() -> Arc<ExecutionConfig> {
    Arc::new(ExecutionConfig { default_num_partitions: 8, shuffle_partition_bytes: 1 << 20 })
}

fn build(plan: LogicalPlan) -> Result<StagePlan, PlanError> {
    StagePlanBuilder::new().build_stage_plan(plan, config())
}

fn a_schema() -> SchemaRef {
    schema(&["x", "a"])
}

fn b_schema() -> SchemaRef {
    schema(&["y", "b"])
}

fn ab_schema() -> SchemaRef {
    schema(&["x", "a", "y", "b"])
}

fn filter_gt(input: LogicalPlan) -> LogicalPlan {
    unary(
        UnaryOp::Filter { predicate: Arc::new(Expr::BinaryOp {
            op: Operator::Gt,
            left: col("a"),
            right: Arc::new(Expr::Literal(3)),
        }) },
        a_schema(),
        input,
    )
}

/// scan A -> filter -> join with scan B on A.x = B.y -> project.
fn scenario_plan() -> LogicalPlan {
    let j = join(
        vec![cmp(Operator::Eq, "x", "y")],
        ab_schema(),
        filter_gt(scan("A", a_schema())),
        scan("B", b_schema()),
    );
    unary(UnaryOp::Project { projection: vec![col("x"), col("b")] }, schema(&["x", "b"]), j)
}

fn check_graph(sp: &StagePlan) {
    assert!(sp.root_stage < sp.stages.len());
    for (i, s) in sp.stages.iter().enumerate() {
        assert_eq!(s.id, i);
        assert_eq!(s.output_channels.len(), 1);
        assert!(s.output_channels[0].to_stages.is_empty());
        assert_eq!(s.output_channels[0].data_channel.stats, None);
        assert_eq!(s.output_channels[0].data_channel.clustering_spec, None);
        let plan = match &s.type_ {
            StageType::MapPipeline { plan } => plan,
            StageType::HashJoin { plan, .. } => plan,
        };
        assert_eq!(s.output_channels[0].data_channel.schema, plan.schema());
        for c in &s.input_channels {
            assert!(c.from_stage < s.id);
            let producer = &sp.stages[c.from_stage];
            assert_eq!(producer.output_channels[c.channel_id.0].data_channel, c.data_channel);
        }
    }
}

#[test]
fn scenario_scan_filter_join_project() {
    let sp = build(scenario_plan()).unwrap();
    check_graph(&sp);
    // The project stays above the join in a pipeline of its own.
    assert_eq!(sp.stages.len(), 4);
    assert_eq!(sp.root_stage, 3);

    assert_eq!(sp.stages[0].type_, StageType::MapPipeline { plan: filter_gt(scan("A", a_schema())) });
    assert!(sp.stages[0].input_channels.is_empty());
    assert_eq!(sp.stages[1].type_, StageType::MapPipeline { plan: scan("B", b_schema()) });
    assert!(sp.stages[1].input_channels.is_empty());

    let expected_join = StageType::HashJoin {
        plan: join(
            vec![cmp(Operator::Eq, "x", "y")],
            ab_schema(),
            placeholder(a_schema()),
            placeholder(b_schema()),
        ),
        left_on: vec![col("x")],
        right_on: vec![col("y")],
        null_equals_null: Some(vec![false]),
        join_type: JoinType::Inner,
    };
    assert_eq!(sp.stages[2].type_, expected_join);
    let inputs: Vec<_> = sp.stages[2].input_channels.iter().map(|c| (c.from_stage, c.channel_id)).collect();
    assert_eq!(inputs, vec![(0, ChannelID(0)), (1, ChannelID(0))]);
    assert_eq!(sp.stages[2].input_channels[0].data_channel.schema, a_schema());
    assert_eq!(sp.stages[2].input_channels[1].data_channel.schema, b_schema());

    assert_eq!(
        sp.stages[3].type_,
        StageType::MapPipeline {
            plan: unary(
                UnaryOp::Project { projection: vec![col("x"), col("b")] },
                schema(&["x", "b"]),
                placeholder(ab_schema()),
            )
        }
    );
    assert_eq!(sp.stages[3].input_channels.len(), 1);
    assert_eq!(sp.stages[3].input_channels[0].from_stage, 2);
    assert_eq!(sp.stages[3].input_channels[0].data_channel.schema, ab_schema());
    assert_eq!(sp.stages[3].output_channels[0].data_channel.schema, schema(&["x", "b"]));
    assert_eq!(*sp.config, *config());
}

#[test]
fn single_join_over_two_scans_is_translatable() {
    let plan = join(vec![cmp(Operator::Eq, "x", "y")], ab_schema(), scan("A", a_schema()), scan("B", b_schema()));
    assert!(StagePlanBuilder::can_translate_logical_plan(&plan));
    let sp = build(plan).unwrap();
    check_graph(&sp);
    assert_eq!(sp.stages.len(), 3);
    assert_eq!(sp.root_stage, 2);
    assert!(matches!(sp.stages[2].type_, StageType::HashJoin { .. }));
    assert_eq!(sp.stages[2].input_channels.len(), 2);
}

#[test]
fn project_filter_limit_is_one_pipeline() {
    let make = || {
        unary(
            UnaryOp::Limit { limit: 10 },
            a_schema(),
            filter_gt(unary(UnaryOp::Project { projection: vec![col("x"), col("a")] }, a_schema(), scan("A", a_schema()))),
        )
    };
    let sp = build(make()).unwrap();
    check_graph(&sp);
    assert_eq!(sp.stages.len(), 1);
    assert_eq!(sp.root_stage, 0);
    assert_eq!(sp.stages[0].type_, StageType::MapPipeline { plan: make() });
    assert!(sp.stages[0].input_channels.is_empty());
}

#[test]
fn global_aggregate_is_rejected() {
    let plan = unary(
        UnaryOp::Aggregate { aggregations: vec![col("a")], group_by: vec![] },
        schema(&["a"]),
        scan("A", a_schema()),
    );
    assert!(!StagePlanBuilder::can_translate_logical_plan(&plan));
    assert_eq!(build(plan).unwrap_err(), PlanError::NotTranslatable);
}

#[test]
fn grouped_aggregate_is_accepted() {
    let plan = unary(
        UnaryOp::Aggregate { aggregations: vec![col("a")], group_by: vec![col("x")] },
        a_schema(),
        scan("A", a_schema()),
    );
    let sp = build(plan).unwrap();
    assert_eq!(sp.stages.len(), 1);
}

#[test]
fn range_repartition_is_rejected() {
    let plan = unary(
        UnaryOp::Repartition { spec: RepartitionSpec::Range { num_partitions: Some(4), by: vec![col("x")] } },
        a_schema(),
        scan("A", a_schema()),
    );
    assert_eq!(build(plan).unwrap_err(), PlanError::NotTranslatable);
}

#[test]
fn random_repartition_is_rejected() {
    let plan = unary(
        UnaryOp::Repartition { spec: RepartitionSpec::Random { num_partitions: None } },
        a_schema(),
        scan("A", a_schema()),
    );
    assert_eq!(build(plan).unwrap_err(), PlanError::NotTranslatable);
}

#[test]
fn hash_repartition_is_accepted() {
    let plan = unary(
        UnaryOp::Repartition { spec: RepartitionSpec::Hash { num_partitions: Some(4), by: vec![col("x")] } },
        a_schema(),
        scan("A", a_schema()),
    );
    assert_eq!(build(plan).unwrap().stages.len(), 1);
}

#[test]
fn unpartitioned_window_is_rejected() {
    let plan = unary(UnaryOp::Window { partition_by: vec![], order_by: vec![col("a")] }, a_schema(), scan("A", a_schema()));
    assert_eq!(build(plan).unwrap_err(), PlanError::NotTranslatable);
    let plan = unary(UnaryOp::Window { partition_by: vec![col("x")], order_by: vec![] }, a_schema(), scan("A", a_schema()));
    assert!(build(plan).is_ok());
}

#[test]
fn sort_below_join_is_rejected() {
    let left = unary(UnaryOp::Sort { sort_by: vec![col("x")] }, a_schema(), scan("A", a_schema()));
    let plan = join(vec![cmp(Operator::Eq, "x", "y")], ab_schema(), left, scan("B", b_schema()));
    assert_eq!(build(plan).unwrap_err(), PlanError::NotTranslatable);
}

#[test]
fn non_equality_join_is_rejected() {
    let plan = join(vec![cmp(Operator::Lt, "x", "y")], ab_schema(), scan("A", a_schema()), scan("B", b_schema()));
    assert!(StagePlanBuilder::can_translate_logical_plan(&plan));
    assert_eq!(build(plan).unwrap_err(), PlanError::NonEqualityJoin);
}

#[test]
fn mixed_join_condition_is_rejected() {
    let plan = join(
        vec![cmp(Operator::Eq, "x", "y"), cmp(Operator::Lt, "a", "b")],
        ab_schema(),
        scan("A", a_schema()),
        scan("B", b_schema()),
    );
    let plan = unary(UnaryOp::Limit { limit: 5 }, ab_schema(), plan);
    assert_eq!(build(plan).unwrap_err(), PlanError::NonEqualityJoin);
}

#[test]
fn union_is_an_internal_error() {
    let plan = LogicalPlan::SetOperation {
        op: SetOp::Union,
        schema: a_schema(),
        left: Box::new(scan("A", a_schema())),
        right: Box::new(scan("C", a_schema())),
    };
    assert!(StagePlanBuilder::contains_excluded_operator(&plan));
    assert_eq!(build(plan).unwrap_err(), PlanError::UnexpectedOperator);
}

#[test]
fn concat_is_rejected() {
    let plan = LogicalPlan::SetOperation {
        op: SetOp::Concat,
        schema: a_schema(),
        left: Box::new(scan("A", a_schema())),
        right: Box::new(scan("C", a_schema())),
    };
    assert!(!StagePlanBuilder::contains_excluded_operator(&plan));
    assert_eq!(build(plan).unwrap_err(), PlanError::NotTranslatable);
}

#[test]
fn null_safe_keys_are_recorded() {
    let plan = join(
        vec![cmp(Operator::EqNullSafe, "x", "y"), cmp(Operator::Eq, "a", "b")],
        ab_schema(),
        scan("A", a_schema()),
        scan("B", b_schema()),
    );
    let sp = build(plan).unwrap();
    match &sp.stages[2].type_ {
        StageType::HashJoin { left_on, right_on, null_equals_null, .. } => {
            assert_eq!(*left_on, vec![col("x"), col("a")]);
            assert_eq!(*right_on, vec![col("y"), col("b")]);
            assert_eq!(*null_equals_null, Some(vec![true, false]));
        }
        _ => panic!("expected a hash join stage"),
    }
}

#[test]
fn nested_joins_are_ordered() {
    let c_schema = schema(&["z"]);
    let inner = join(vec![cmp(Operator::Eq, "x", "y")], ab_schema(), scan("A", a_schema()), scan("B", b_schema()));
    let outer_schema = schema(&["x", "a", "y", "b", "z"]);
    let outer = join(
        vec![cmp(Operator::Eq, "x", "z")],
        outer_schema.clone(),
        unary(UnaryOp::Distinct, ab_schema(), inner),
        scan("C", c_schema.clone()),
    );
    let sp = build(outer).unwrap();
    check_graph(&sp);
    // A, B, inner join, distinct, C, outer join.
    assert_eq!(sp.stages.len(), 6);
    assert_eq!(sp.root_stage, 5);
    let kinds: Vec<bool> = sp.stages.iter().map(|s| matches!(s.type_, StageType::HashJoin { .. })).collect();
    assert_eq!(kinds, vec![false, false, true, false, false, true]);
    assert_eq!(sp.stages[3].input_channels[0].from_stage, 2);
    let outer_inputs: Vec<_> = sp.stages[5].input_channels.iter().map(|c| c.from_stage).collect();
    assert_eq!(outer_inputs, vec![3, 4]);
    assert_eq!(sp.stages[5].output_channels[0].data_channel.schema, outer_schema);
}

#[test]
fn rebuilding_gives_the_same_graph() {
    let a = build(scenario_plan()).unwrap();
    let b = build(scenario_plan()).unwrap();
    assert_eq!(a.stages, b.stages);
    assert_eq!(a.root_stage, b.root_stage);
}

#[test]
fn split_eq_preds_separates_residue() {
    let p = JoinPredicate {
        conjuncts: vec![cmp(Operator::Lt, "a", "b"), cmp(Operator::Eq, "x", "y"), cmp(Operator::NotEq, "a", "y")],
    };
    let (rest, l, r, nulls) = p.split_eq_preds();
    assert_eq!(rest, vec![cmp(Operator::Lt, "a", "b"), cmp(Operator::NotEq, "a", "y")]);
    assert_eq!(l, vec![col("x")]);
    assert_eq!(r, vec![col("y")]);
    assert_eq!(nulls, vec![false]);
}

#[test]
fn join_schema_and_placeholder() {
    let plan = scan("A", a_schema());
    assert_eq!(plan.schema(), a_schema());
    assert_eq!(LogicalPlan::placeholder(b_schema()), placeholder(b_schema()));
}
