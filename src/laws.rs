//! Properties of every stage plan that the builder produces.
use crate::builder::{
    built_from, pipeline_plan, plan_buildable, plan_error, stage_realizes, stages_of,
    upstream_stages, PlanError, StageSpec,
};
use crate::plan::{
    has_excluded, has_join, has_non_equi_join, node_translatable, residue, schema_of,
    translatable, LogicalPlan, RepartitionSpec, UnaryOp,
};
use crate::stage::{ExecutionConfig, StagePlan, StageType};
use std::sync::Arc;
use vstd::prelude::*;

verus! {

/// Whether some node of `p` satisfies `f`.
pub open spec fn has_node(p: LogicalPlan, f: spec_fn(LogicalPlan) -> bool) -> bool
    decreases p,
{
    f(p) || match p {
        LogicalPlan::Source { .. } => false,
        LogicalPlan::Unary { input, .. } => has_node(*input, f),
        LogicalPlan::Join { left, right, .. } => has_node(*left, f) || has_node(*right, f),
        LogicalPlan::SetOperation { left, right, .. } => has_node(*left, f) || has_node(*right, f),
    }
}

/// An aggregate without group-by keys.
pub open spec fn is_global_aggregate(n: LogicalPlan) -> bool {
    n matches LogicalPlan::Unary { op: UnaryOp::Aggregate { group_by, .. }, .. } && group_by@.len()
        == 0
}

/// A repartition that is not by hash.
pub open spec fn is_non_hash_repartition(n: LogicalPlan) -> bool {
    n matches LogicalPlan::Unary { op: UnaryOp::Repartition { spec }, .. } && !(spec is Hash)
}

/// A plan holding a node that no stage can run is not translatable.
proof fn lemma_untranslatable_node(p: LogicalPlan, f: spec_fn(LogicalPlan) -> bool)
    requires
        has_node(p, f),
        forall|n: LogicalPlan| #[trigger] f(n) ==> !node_translatable(n),
    ensures
        !translatable(p),
    decreases p,
{
    if !f(p) {
        match p {
            LogicalPlan::Unary { input, .. } => lemma_untranslatable_node(*input, f),
            LogicalPlan::Join { left, right, .. } => {
                if has_node(*left, f) {
                    lemma_untranslatable_node(*left, f);
                } else {
                    lemma_untranslatable_node(*right, f);
                }
            },
            LogicalPlan::SetOperation { left, right, .. } => {
                if has_node(*left, f) {
                    lemma_untranslatable_node(*left, f);
                } else {
                    lemma_untranslatable_node(*right, f);
                }
            },
            _ => {},
        }
    }
}

/// Building fails on a plan that holds an aggregate without group-by keys, or a
/// repartition that is not by hash; and on a plan with a join whose condition is not
/// made of equalities alone, where nothing else is wrong with the plan, it fails with
/// the non-equality join error.
pub proof fn lemma_rejected_plans(p: LogicalPlan)
    ensures
        has_node(p, |n: LogicalPlan| is_global_aggregate(n)) ==> !plan_buildable(p),
        has_node(p, |n: LogicalPlan| is_non_hash_repartition(n)) ==> !plan_buildable(p),
        has_node(p, |n: LogicalPlan| is_global_aggregate(n)) && !has_excluded(p) ==> plan_error(p)
            == PlanError::NotTranslatable,
        has_node(p, |n: LogicalPlan| is_non_hash_repartition(n)) && !has_excluded(p)
            ==> plan_error(p) == PlanError::NotTranslatable,
        has_non_equi_join(p) ==> !plan_buildable(p),
        has_non_equi_join(p) && !has_excluded(p) && translatable(p) ==> plan_error(p)
            == PlanError::NonEqualityJoin,
{
    if has_node(p, |n: LogicalPlan| is_global_aggregate(n)) {
        lemma_untranslatable_node(p, |n: LogicalPlan| is_global_aggregate(n));
    }
    if has_node(p, |n: LogicalPlan| is_non_hash_repartition(n)) {
        lemma_untranslatable_node(p, |n: LogicalPlan| is_non_hash_repartition(n));
    }
}

/// Every input channel of a built plan comes from a stage with a smaller id, so the ids
/// are an order in which the stages can run.
pub proof fn lemma_inputs_precede(p: LogicalPlan, config: Arc<ExecutionConfig>, sp: StagePlan)
    requires
        built_from(p, config, sp),
    ensures
        forall|i: int, j: int|
            0 <= i < sp.stages@.len() && 0 <= j < sp.stages@[i].input_channels@.len()
                ==> #[trigger] sp.stages@[i].input_channels@[j].from_stage < sp.stages@[i].id,
{
    let d = stages_of(p, 0);
    assert forall|i: int, j: int|
        0 <= i < sp.stages@.len() && 0 <= j < sp.stages@[i].input_channels@.len()
            implies #[trigger] sp.stages@[i].input_channels@[j].from_stage
        < sp.stages@[i].id by {
        assert(stage_realizes(sp.stages@, 0 + i, d[i]));
    }
}

/// Every input channel of a built plan names an existing stage and one of its output
/// channels, and carries that output's schema.
pub proof fn lemma_channels_resolve(p: LogicalPlan, config: Arc<ExecutionConfig>, sp: StagePlan)
    requires
        built_from(p, config, sp),
    ensures
        forall|i: int, j: int|
            0 <= i < sp.stages@.len() && 0 <= j < sp.stages@[i].input_channels@.len() ==> {
                let c = #[trigger] sp.stages@[i].input_channels@[j];
                let producer = sp.stages@[c.from_stage as int];
                &&& c.from_stage < sp.stages@.len()
                &&& c.channel_id.0 < producer.output_channels@.len()
                &&& producer.output_channels@[c.channel_id.0 as int].data_channel.schema
                    == c.data_channel.schema
            },
{
    let d = stages_of(p, 0);
    assert forall|i: int, j: int|
        0 <= i < sp.stages@.len() && 0 <= j < sp.stages@[i].input_channels@.len() implies {
            let c = #[trigger] sp.stages@[i].input_channels@[j];
            let producer = sp.stages@[c.from_stage as int];
            &&& c.from_stage < sp.stages@.len()
            &&& c.channel_id.0 < producer.output_channels@.len()
            &&& producer.output_channels@[c.channel_id.0 as int].data_channel.schema
                == c.data_channel.schema
        } by {
        assert(stage_realizes(sp.stages@, 0 + i, d[i]));
    }
}

/// The output channel of every stage of a built plan carries the schema of the plan
/// that the stage runs.
pub proof fn lemma_schema_preserved(p: LogicalPlan, config: Arc<ExecutionConfig>, sp: StagePlan)
    requires
        built_from(p, config, sp),
    ensures
        forall|i: int|
            0 <= i < sp.stages@.len() ==> {
                let s = #[trigger] sp.stages@[i];
                &&& s.output_channels@.len() == 1
                &&& s.output_channels@[0].data_channel.schema == schema_of(s.type_.plan())
            },
{
    let d = stages_of(p, 0);
    assert forall|i: int| 0 <= i < sp.stages@.len() implies {
        let s = #[trigger] sp.stages@[i];
        &&& s.output_channels@.len() == 1
        &&& s.output_channels@[0].data_channel.schema == schema_of(s.type_.plan())
    } by {
        assert(stage_realizes(sp.stages@, 0 + i, d[i]));
    }
}

/// Every join stage has two producers and a condition of equalities only.
pub open spec fn join_specs_sound(d: Seq<StageSpec>) -> bool {
    forall|k: int|
        0 <= k < d.len() && (#[trigger] d[k]).is_join ==> {
            &&& d[k].inputs.len() == 2
            &&& d[k].plan matches LogicalPlan::Join { on, .. } && residue(on.conjuncts@).len() == 0
        }
}

proof fn lemma_join_specs(p: LogicalPlan, first: nat)
    requires
        !has_non_equi_join(p),
    ensures
        join_specs_sound(upstream_stages(p, first)),
        join_specs_sound(stages_of(p, first)),
    decreases p,
{
    let up = upstream_stages(p, first);
    match p {
        LogicalPlan::Unary { input, .. } => {
            lemma_join_specs(*input, first);
        },
        LogicalPlan::Join { left, right, .. } => {
            let ls = stages_of(*left, first);
            let rs = stages_of(*right, first + ls.len());
            lemma_join_specs(*left, first);
            lemma_join_specs(*right, first + ls.len());
            assert forall|k: int| 0 <= k < up.len() && (#[trigger] up[k]).is_join implies {
                &&& up[k].inputs.len() == 2
                &&& up[k].plan matches LogicalPlan::Join { on, .. } && residue(on.conjuncts@).len()
                    == 0
            } by {
                if k < ls.len() {
                    assert(up[k] == ls[k]);
                } else if k < ls.len() + rs.len() {
                    assert(up[k] == rs[k - ls.len()]);
                }
            }
        },
        _ => {},
    }
    let d = stages_of(p, first);
    if !(p is Join) {
        assert forall|k: int| 0 <= k < d.len() && (#[trigger] d[k]).is_join implies {
            &&& d[k].inputs.len() == 2
            &&& d[k].plan matches LogicalPlan::Join { on, .. } && residue(on.conjuncts@).len() == 0
        } by {
            assert(d[k] == up[k]);
        }
    }
}

/// Every hash-join stage of a built plan reads exactly two input channels, and its
/// join condition holds no conjunct other than equalities.
pub proof fn lemma_join_arity(p: LogicalPlan, config: Arc<ExecutionConfig>, sp: StagePlan)
    requires
        built_from(p, config, sp),
        plan_buildable(p),
    ensures
        forall|i: int|
            0 <= i < sp.stages@.len() && (#[trigger] sp.stages@[i]).type_ is HashJoin ==> {
                let s = sp.stages@[i];
                &&& s.input_channels@.len() == 2
                &&& s.type_.plan() matches LogicalPlan::Join { on, .. } && residue(
                    on.conjuncts@,
                ).len() == 0
            },
{
    let d = stages_of(p, 0);
    lemma_join_specs(p, 0);
    assert forall|i: int|
        0 <= i < sp.stages@.len() && (#[trigger] sp.stages@[i]).type_ is HashJoin implies {
            let s = sp.stages@[i];
            &&& s.input_channels@.len() == 2
            &&& s.type_.plan() matches LogicalPlan::Join { on, .. } && residue(
                on.conjuncts@,
            ).len() == 0
        } by {
        assert(stage_realizes(sp.stages@, 0 + i, d[i]));
    }
}

proof fn lemma_no_join_fuses(p: LogicalPlan, first: nat)
    requires
        !has_join(p),
    ensures
        upstream_stages(p, first).len() == 0,
        pipeline_plan(p) == p,
    decreases p,
{
    if let LogicalPlan::Unary { input, .. } = p {
        lemma_no_join_fuses(*input, first);
    }
}

/// A plan without joins becomes a single map-pipeline stage that runs the whole plan
/// and reads no channel.
pub proof fn lemma_fusion_maximal(p: LogicalPlan, config: Arc<ExecutionConfig>, sp: StagePlan)
    requires
        built_from(p, config, sp),
        !has_join(p),
    ensures
        sp.stages@.len() == 1,
        sp.root_stage == 0,
        sp.stages@[0].type_ == (StageType::MapPipeline { plan: p }),
        sp.stages@[0].input_channels@.len() == 0,
{
    lemma_no_join_fuses(p, 0);
    let d = stages_of(p, 0);
    assert(stage_realizes(sp.stages@, 0int + 0, d[0]));
}

/// Two plans built from the same logical plan have the same stages: the same kinds,
/// the same embedded plans, and the same channels between them.
pub proof fn lemma_rebuild_same_graph(
    p: LogicalPlan,
    config: Arc<ExecutionConfig>,
    a: StagePlan,
    b: StagePlan,
)
    requires
        built_from(p, config, a),
        built_from(p, config, b),
    ensures
        a.stages@.len() == b.stages@.len(),
        a.root_stage == b.root_stage,
        forall|i: int|
            0 <= i < a.stages@.len() ==> {
                let sa = #[trigger] a.stages@[i];
                let sb = b.stages@[i];
                &&& sa.id == sb.id
                &&& sa.type_.plan() == sb.type_.plan()
                &&& (sa.type_ is HashJoin) == (sb.type_ is HashJoin)
                &&& sa.input_channels@.len() == sb.input_channels@.len()
                &&& forall|j: int|
                    0 <= j < sa.input_channels@.len() ==> #[trigger] sa.input_channels@[j]
                        == sb.input_channels@[j]
                &&& sa.output_channels@[0].data_channel == sb.output_channels@[0].data_channel
            },
{
    let d = stages_of(p, 0);
    assert forall|i: int| 0 <= i < a.stages@.len() implies {
        let sa = #[trigger] a.stages@[i];
        let sb = b.stages@[i];
        &&& sa.id == sb.id
        &&& sa.type_.plan() == sb.type_.plan()
        &&& (sa.type_ is HashJoin) == (sb.type_ is HashJoin)
        &&& sa.input_channels@.len() == sb.input_channels@.len()
        &&& forall|j: int|
            0 <= j < sa.input_channels@.len() ==> #[trigger] sa.input_channels@[j]
                == sb.input_channels@[j]
        &&& sa.output_channels@[0].data_channel == sb.output_channels@[0].data_channel
    } by {
        assert(stage_realizes(a.stages@, 0 + i, d[i]));
        assert(stage_realizes(b.stages@, 0 + i, d[i]));
        let sa = a.stages@[i];
        let sb = b.stages@[i];
        assert forall|j: int| 0 <= j < sa.input_channels@.len() implies #[trigger] sa.input_channels@[j]
            == sb.input_channels@[j] by {
            let f = sa.input_channels@[j].from_stage as int;
            assert(stage_realizes(a.stages@, 0 + f, d[f]));
            assert(stage_realizes(b.stages@, 0 + f, d[f]));
        }
    }
}

} // verus!
