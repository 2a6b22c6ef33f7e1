//! Cuts a logical plan into stages: equality joins become hash-join stages, and
//! everything between them is fused into map pipelines.
use crate::plan::{
    eq_left, eq_null_safe, eq_right, equalities, has_excluded, has_non_equi_join, placeholder,
    plan_size, schema_of, translatable, ClusteringSpec, ExprRef, LogicalPlan, RepartitionSpec,
    SchemaRef, SetOp, UnaryOp,
};
use crate::stage::{
    ChannelID, DataChannel, ExecutionConfig, InputChannel, OutputChannel, Stage, StageID,
    StagePlan, StageType,
};
use std::sync::Arc;
use vstd::prelude::*;

verus! {

/// Why a plan could not be cut into stages.
#[derive(Clone, Copy, Debug, PartialEq, Eq, Hash)]
pub enum PlanError {
    /// The plan holds an operator that no stage can run (a value error).
    NotTranslatable,
    /// A join whose condition is not made of equalities alone.
    NonEqualityJoin,
    /// A union, intersect, subquery alias or shard, which an earlier pass removes
    /// (an internal error).
    UnexpectedOperator,
    /// A channel names a stage that was not built (an internal error).
    StageNotFound { stage_id: StageID },
    /// The plan has `usize::MAX` nodes or more, more than stage ids can number.
    PlanTooLarge,
    /// A channel names an output that its stage does not have (an internal error).
    ChannelNotFound { stage_id: StageID, channel_id: usize },
}

/// What a stage holds, up to the contents of its channels.
pub struct StageSpec {
    pub plan: LogicalPlan,
    pub is_join: bool,
    /// The ids of the producer stages, in the order of the input channels.
    pub inputs: Seq<nat>,
}

/// The plan with the topmost join below its pipeline replaced by a placeholder.
pub open spec fn pipeline_plan(p: LogicalPlan) -> LogicalPlan
    decreases p,
{
    match p {
        LogicalPlan::Unary { op, schema, input } => LogicalPlan::Unary {
            op,
            schema,
            input: Box::new(pipeline_plan(*input)),
        },
        LogicalPlan::Join { schema, .. } => placeholder(schema),
        _ => p,
    }
}

/// The plan of a join stage: the join over two placeholders with its children's schemas.
pub open spec fn join_stage_plan(p: LogicalPlan) -> LogicalPlan {
    match p {
        LogicalPlan::Join { on, join_type, schema, left, right } => LogicalPlan::Join {
            on,
            join_type,
            schema,
            left: Box::new(placeholder(schema_of(*left))),
            right: Box::new(placeholder(schema_of(*right))),
        },
        _ => p,
    }
}

/// The stages of a plan, in the order of their ids, the first of them numbered `first`.
/// The last one produces the plan's output.
pub open spec fn stages_of(p: LogicalPlan, first: nat) -> Seq<StageSpec>
    decreases p, 1nat,
{
    if p is Join {
        upstream_stages(p, first)
    } else {
        let up = upstream_stages(p, first);
        up.push(
            StageSpec {
                plan: pipeline_plan(p),
                is_join: false,
                inputs: if up.len() == 0 {
                    seq![]
                } else {
                    seq![(first + up.len() - 1) as nat]
                },
            },
        )
    }
}

/// The stages that feed the pipeline at the top of `p`: those of the topmost join
/// below it, ending with the join stage itself.
pub open spec fn upstream_stages(p: LogicalPlan, first: nat) -> Seq<StageSpec>
    decreases p, 0nat,
{
    match p {
        LogicalPlan::Unary { input, .. } => upstream_stages(*input, first),
        LogicalPlan::Join { left, right, .. } => {
            let ls = stages_of(*left, first);
            let rs = stages_of(*right, first + ls.len());
            (ls + rs).push(
                StageSpec {
                    plan: join_stage_plan(p),
                    is_join: true,
                    inputs: seq![(first + ls.len() - 1) as nat, (first + ls.len() + rs.len() - 1) as nat],
                },
            )
        },
        _ => seq![],
    }
}

/// The data channel that a stage running `p` produces.
pub open spec fn output_data(p: LogicalPlan) -> DataChannel {
    DataChannel { schema: schema_of(p), clustering_spec: None, stats: None }
}

/// The keys of a hash-join stage are those of its join's equality conjuncts.
pub open spec fn join_keys_match(t: StageType) -> bool {
    match t {
        StageType::HashJoin { plan, left_on, right_on, null_equals_null, join_type } => match plan {
            LogicalPlan::Join { on, join_type: jt, .. } => {
                let eqs = equalities(on.conjuncts@);
                &&& left_on@ == eqs.map_values(|e: ExprRef| eq_left(e))
                &&& right_on@ == eqs.map_values(|e: ExprRef| eq_right(e))
                &&& null_equals_null matches Some(v) && v@ == eqs.map_values(
                    |e: ExprRef| eq_null_safe(e),
                )
                &&& join_type == jt
            },
            _ => false,
        },
        _ => true,
    }
}

/// Stage `i` of `stages` is the one that `e` describes, and each of its input channels
/// copies output channel 0 of an earlier stage.
pub open spec fn stage_realizes(stages: Seq<Stage>, i: int, e: StageSpec) -> bool {
    let s = stages[i];
    &&& s.id == i
    &&& s.type_.plan() == e.plan
    &&& (s.type_ is HashJoin) == e.is_join
    &&& join_keys_match(s.type_)
    &&& s.input_channels@.len() == e.inputs.len()
    &&& forall|j: int|
        0 <= j < e.inputs.len() ==> {
            let c = #[trigger] s.input_channels@[j];
            &&& c.from_stage == e.inputs[j]
            &&& c.from_stage < i
            &&& c.channel_id == ChannelID(0)
            &&& stages[c.from_stage as int].output_channels@.len() > 0
            &&& c.data_channel == stages[c.from_stage as int].output_channels@[0].data_channel
        }
    &&& s.output_channels@.len() == 1
    &&& s.output_channels@[0].to_stages@.len() == 0
    &&& s.output_channels@[0].data_channel == output_data(e.plan)
}

/// Stages `first ..` of `stages` are those that `d` describes.
pub open spec fn realized(stages: Seq<Stage>, first: nat, d: Seq<StageSpec>) -> bool {
    &&& first + d.len() <= stages.len()
    &&& forall|k: int| 0 <= k < d.len() ==> stage_realizes(stages, first + k, #[trigger] d[k])
}

/// The error that building stages for `p` ends with, where it fails.
pub open spec fn plan_error(p: LogicalPlan) -> PlanError {
    if has_excluded(p) {
        PlanError::UnexpectedOperator
    } else if !translatable(p) {
        PlanError::NotTranslatable
    } else {
        PlanError::NonEqualityJoin
    }
}

/// Whether stages can be built for `p`.
pub open spec fn plan_buildable(p: LogicalPlan) -> bool {
    !has_excluded(p) && translatable(p) && !has_non_equi_join(p)
}

/// `sp` is the stage plan built from `p` with `config`.
pub open spec fn built_from(p: LogicalPlan, config: Arc<ExecutionConfig>, sp: StagePlan) -> bool {
    let d = stages_of(p, 0);
    &&& sp.stages@.len() == d.len()
    &&& realized(sp.stages@, 0, d)
    &&& sp.root_stage == d.len() - 1
    &&& sp.config == config
}

pub proof fn lemma_stage_counts(p: LogicalPlan, first: nat)
    ensures
        1 <= stages_of(p, first).len() <= plan_size(p),
        upstream_stages(p, first).len() <= plan_size(p),
        !(p is Join) ==> upstream_stages(p, first).len() < plan_size(p),
        p is Join ==> upstream_stages(p, first).len() >= 3,
    decreases p,
{
    match p {
        LogicalPlan::Unary { input, .. } => {
            lemma_stage_counts(*input, first);
            assert(upstream_stages(p, first) == upstream_stages(*input, first));
            assert(plan_size(p) == 1 + plan_size(*input));
        },
        LogicalPlan::Join { left, right, .. } => {
            let ls = stages_of(*left, first);
            lemma_stage_counts(*left, first);
            lemma_stage_counts(*right, first + ls.len());
        },
        _ => {},
    }
}

/// Stages realized in a sequence stay realized in any extension of it.
pub proof fn lemma_realized_frame(s1: Seq<Stage>, s2: Seq<Stage>, first: nat, d: Seq<StageSpec>)
    requires
        realized(s1, first, d),
        s1.len() <= s2.len(),
        forall|i: int| 0 <= i < s1.len() ==> s2[i] == s1[i],
    ensures
        realized(s2, first, d),
{
    assert forall|k: int| 0 <= k < d.len() implies stage_realizes(s2, first + k, #[trigger] d[k]) by {
        assert(stage_realizes(s1, first + k, d[k]));
        let s = s1[first + k];
        assert forall|j: int| 0 <= j < d[k].inputs.len() implies {
            let c = #[trigger] s.input_channels@[j];
            s2[c.from_stage as int] == s1[c.from_stage as int]
        } by {
            let c = s.input_channels@[j];
            assert(c.from_stage < first + k);
        }
    }
}

pub proof fn lemma_realized_concat(s: Seq<Stage>, first: nat, a: Seq<StageSpec>, b: Seq<StageSpec>)
    requires
        realized(s, first, a),
        realized(s, first + a.len(), b),
    ensures
        realized(s, first, a + b),
{
    assert forall|k: int| 0 <= k < (a + b).len() implies stage_realizes(
        s,
        first + k,
        #[trigger] (a + b)[k],
    ) by {
        if k < a.len() {
            assert(stage_realizes(s, first + k, a[k]));
        } else {
            assert(stage_realizes(s, first + a.len() + (k - a.len()), b[k - a.len()]));
        }
    }
}

pub proof fn lemma_realized_push(s: Seq<Stage>, first: nat, a: Seq<StageSpec>, e: StageSpec)
    requires
        realized(s, first, a),
        first + a.len() < s.len(),
        stage_realizes(s, (first + a.len()) as int, e),
    ensures
        realized(s, first, a.push(e)),
{
    assert forall|k: int| 0 <= k < a.push(e).len() implies stage_realizes(
        s,
        first + k,
        #[trigger] a.push(e)[k],
    ) by {
        if k < a.len() {
            assert(stage_realizes(s, first + k, a[k]));
        }
    }
}

/// Builds the stage graph of a plan, one stage at a time.
pub struct StagePlanBuilder {
    stages: Vec<Stage>,
    stage_id_counter: StageID,
}

impl StagePlanBuilder {
    /// The stages are exactly those numbered below the counter, each at its own index.
    pub closed spec fn wf(&self) -> bool {
        &&& self.stages@.len() == self.stage_id_counter
        &&& forall|i: int| 0 <= i < self.stages@.len() ==> (#[trigger] self.stages@[i]).id == i
    }

    pub closed spec fn spec_stages(&self) -> Seq<Stage> {
        self.stages@
    }

    pub closed spec fn spec_counter(&self) -> StageID {
        self.stage_id_counter
    }

    /// A builder with no stages.
    pub fn new() -> (r: Self)
        ensures
            r.wf(),
            r.spec_stages().len() == 0,
            r.spec_counter() == 0,
    {
        StagePlanBuilder { stages: Vec::new(), stage_id_counter: 0 }
    }

    fn next_stage_id(&mut self) -> (r: StageID)
        requires
            old(self).stage_id_counter < usize::MAX,
        ensures
            r == old(self).stage_id_counter,
            final(self).stage_id_counter == old(self).stage_id_counter + 1,
            final(self).stages == old(self).stages,
    {
        let curr = self.stage_id_counter;
        self.stage_id_counter = self.stage_id_counter + 1;
        curr
    }

    /// Whether every operator of the plan can be placed into a stage. A join counts as
    /// a stage boundary: it passes, and its children are judged like the rest.
    pub fn can_translate_logical_plan(plan: &LogicalPlan) -> (r: bool)
        ensures
            r == translatable(*plan),
        decreases plan,
    {
        match plan {
            LogicalPlan::Source { .. } => true,
            LogicalPlan::Unary { op, input, .. } => {
                let here = match op {
                    UnaryOp::Project { .. }
                    | UnaryOp::Filter { .. }
                    | UnaryOp::Sink { .. }
                    | UnaryOp::Sample { .. }
                    | UnaryOp::Explode { .. }
                    | UnaryOp::ActorPoolProject { .. }
                    | UnaryOp::Unpivot { .. }
                    | UnaryOp::MonotonicallyIncreasingId { .. }
                    | UnaryOp::Distinct
                    | UnaryOp::Limit { .. } => true,
                    UnaryOp::Repartition { spec } => matches!(spec, RepartitionSpec::Hash { .. }),
                    UnaryOp::Aggregate { group_by, .. } => group_by.len() > 0,
                    UnaryOp::Window { partition_by, .. } => partition_by.len() > 0,
                    UnaryOp::Sort { .. }
                    | UnaryOp::TopN { .. }
                    | UnaryOp::Pivot { .. }
                    | UnaryOp::SubqueryAlias { .. }
                    | UnaryOp::Shard { .. } => false,
                };
                here && Self::can_translate_logical_plan(&**input)
            },
            LogicalPlan::Join { left, right, .. } => {
                Self::can_translate_logical_plan(&**left) && Self::can_translate_logical_plan(
                    &**right,
                )
            },
            LogicalPlan::SetOperation { .. } => false,
        }
    }

    /// Whether the plan holds an operator that an earlier optimization pass removes.
    pub fn contains_excluded_operator(plan: &LogicalPlan) -> (r: bool)
        ensures
            r == has_excluded(*plan),
        decreases plan,
    {
        match plan {
            LogicalPlan::Source { .. } => false,
            LogicalPlan::Unary { op, input, .. } => {
                match op {
                    UnaryOp::SubqueryAlias { .. } | UnaryOp::Shard { .. } => true,
                    _ => Self::contains_excluded_operator(&**input),
                }
            },
            LogicalPlan::Join { left, right, .. } => {
                Self::contains_excluded_operator(&**left) || Self::contains_excluded_operator(
                    &**right,
                )
            },
            LogicalPlan::SetOperation { op, left, right, .. } => {
                match op {
                    SetOp::Concat => Self::contains_excluded_operator(&**left)
                        || Self::contains_excluded_operator(&**right),
                    _ => true,
                }
            },
        }
    }

    /// Replaces the topmost join below the pipeline at the top of `plan` by a placeholder
    /// with the join's schema, and hands back the join that was cut out.
    fn cut_at_join(plan: LogicalPlan) -> (r: (LogicalPlan, Option<LogicalPlan>))
        ensures
            r.0 == pipeline_plan(plan),
            match r.1 {
                Some(j) => {
                    &&& j is Join
                    &&& plan_size(j) <= plan_size(plan)
                    &&& !(plan is Join) ==> plan_size(j) < plan_size(plan)
                    &&& forall|f: nat| #[trigger] upstream_stages(plan, f) == upstream_stages(j, f)
                    &&& translatable(plan) ==> translatable(j)
                    &&& has_excluded(j) ==> has_excluded(plan)
                    &&& translatable(plan) ==> has_non_equi_join(j) == has_non_equi_join(plan)
                },
                None => {
                    &&& forall|f: nat| #[trigger] upstream_stages(plan, f).len() == 0
                    &&& translatable(plan) ==> !has_non_equi_join(plan)
                },
            },
        decreases plan,
    {
        if matches!(plan, LogicalPlan::Join { .. }) {
            let schema = plan.schema();
            return (LogicalPlan::placeholder(schema), Some(plan));
        }
        let ghost p = plan;
        match plan {
            LogicalPlan::Unary { op, schema, input } => {
                let ghost inner = *input;
                let (cut, remaining) = Self::cut_at_join(*input);
                proof {
                    assert(plan_size(p) == 1 + plan_size(inner));
                    assert forall|f: nat| #[trigger]
                        upstream_stages(p, f) == upstream_stages(inner, f) by {}
                }
                (LogicalPlan::Unary { op, schema, input: Box::new(cut) }, remaining)
            },
            other => (other, None),
        }
    }

    /// Builds the stages of `plan` after those already built and returns the id of the
    /// stage that produces the plan's output.
    #[verifier::rlimit(50)]
    fn build_stages_from_plan(&mut self, plan: LogicalPlan) -> (r: Result<StageID, PlanError>)
        requires
            old(self).wf(),
            old(self).stage_id_counter + plan_size(plan) <= usize::MAX,
        ensures
            r is Ok <==> plan_buildable(plan),
            match r {
                Ok(id) => {
                    let first = old(self).stages@.len();
                    let d = stages_of(plan, first);
                    &&& final(self).wf()
                    &&& final(self).stages@.len() == first + d.len()
                    &&& forall|i: int|
                        0 <= i < first ==> final(self).stages@[i] == old(self).stages@[i]
                    &&& realized(final(self).stages@, first, d)
                    &&& id == final(self).stages@.len() - 1
                },
                Err(e) => e == plan_error(plan),
            },
        decreases plan_size(plan),
    {
        if Self::contains_excluded_operator(&plan) {
            return Err(PlanError::UnexpectedOperator);
        }
        if !Self::can_translate_logical_plan(&plan) {
            return Err(PlanError::NotTranslatable);
        }
        let ghost p = plan;
        let ghost first = self.stages@.len();
        proof {
            lemma_stage_counts(p, first);
        }
        match plan {
            LogicalPlan::Join { on, join_type, schema, left, right } => {
                let ghost lp = *left;
                let ghost rp = *right;
                let ghost ls = stages_of(lp, first);
                let ghost rs = stages_of(rp, first + ls.len());
                proof {
                    lemma_stage_counts(lp, first);
                    lemma_stage_counts(rp, first + ls.len());
                }
                let left_schema = left.schema();
                let right_schema = right.schema();
                let ghost s0 = self.stages@;
                let left_stage_id = match self.build_stages_from_plan(*left) {
                    Ok(id) => id,
                    Err(e) => return Err(e),
                };
                let ghost s1 = self.stages@;
                let right_stage_id = match self.build_stages_from_plan(*right) {
                    Ok(id) => id,
                    Err(e) => return Err(e),
                };
                let ghost s2 = self.stages@;
                proof {
                    let kl = ls.len() - 1;
                    let kr = rs.len() - 1;
                    assert(stage_realizes(s1, first + kl, ls[kl]));
                    assert(s2[first + kl] == s1[first + kl]);
                    assert(stage_realizes(s2, first + ls.len() + kr, rs[kr]));
                }
                let stage_id = self.next_stage_id();
                let (remaining_on, left_on, right_on, null_equals_null) = on.split_eq_preds();
                if remaining_on.len() > 0 {
                    return Err(PlanError::NonEqualityJoin);
                }
                let plan = LogicalPlan::Join {
                    on,
                    join_type,
                    schema,
                    left: Box::new(LogicalPlan::placeholder(left_schema)),
                    right: Box::new(LogicalPlan::placeholder(right_schema)),
                };
                let out_schema = plan.schema();
                let left_input = match self.create_input_channel(left_stage_id, 0) {
                    Ok(c) => c,
                    Err(e) => return Err(e),
                };
                let right_input = match self.create_input_channel(right_stage_id, 0) {
                    Ok(c) => c,
                    Err(e) => return Err(e),
                };
                let output = self.create_output_channel(out_schema, None);
                let stage = Stage {
                    id: stage_id,
                    type_: StageType::HashJoin {
                        plan,
                        left_on,
                        right_on,
                        null_equals_null: Some(null_equals_null),
                        join_type,
                    },
                    input_channels: vec![left_input, right_input],
                    output_channels: vec![output],
                };
                self.stages.push(stage);
                proof {
                    let s3 = self.stages@;
                    let e = StageSpec {
                        plan: join_stage_plan(p),
                        is_join: true,
                        inputs: seq![(first + ls.len() - 1) as nat, (first + ls.len() + rs.len() - 1) as nat],
                    };
                    assert(upstream_stages(p, first) == (ls + rs).push(e));
                    lemma_realized_frame(s1, s3, first, ls);
                    lemma_realized_frame(s2, s3, first + ls.len(), rs);
                    lemma_realized_concat(s3, first, ls, rs);
                    assert(stage_realizes(s3, (first + (ls + rs).len()) as int, e));
                    lemma_realized_push(s3, first, ls + rs, e);
                }
                Ok(stage_id)
            },
            other => {
                let (new_plan, remaining) = Self::cut_at_join(other);
                let ghost up = upstream_stages(p, first);
                let input_channels = match remaining {
                    Some(j) => {
                        let child_stage = match self.build_stages_from_plan(j) {
                            Ok(id) => id,
                            Err(e) => return Err(e),
                        };
                        proof {
                            let d = stages_of(j, first);
                            let k = d.len() - 1;
                            assert(stage_realizes(self.stages@, first + k, d[k]));
                        }
                        let c = match self.create_input_channel(child_stage, 0) {
                            Ok(c) => c,
                            Err(e) => return Err(e),
                        };
                        vec![c]
                    },
                    None => Vec::new(),
                };
                let ghost s1 = self.stages@;
                let schema = new_plan.schema();
                let stage_id = self.next_stage_id();
                let output = self.create_output_channel(schema, None);
                let stage = Stage {
                    id: stage_id,
                    type_: StageType::MapPipeline { plan: new_plan },
                    input_channels,
                    output_channels: vec![output],
                };
                self.stages.push(stage);
                proof {
                    let s3 = self.stages@;
                    let e = StageSpec {
                        plan: pipeline_plan(p),
                        is_join: false,
                        inputs: if up.len() == 0 {
                            seq![]
                        } else {
                            seq![(first + up.len() - 1) as nat]
                        },
                    };
                    assert(stages_of(p, first) == up.push(e));
                    lemma_realized_frame(s1, s3, first, up);
                    assert(stage_realizes(s3, (first + up.len()) as int, e));
                    lemma_realized_push(s3, first, up, e);
                }
                Ok(stage_id)
            },
        }
    }

    /// Cuts `plan` into stages and hands back the finished graph, whose root stage
    /// produces the plan's output.
    pub fn build_stage_plan(self, plan: LogicalPlan, config: Arc<ExecutionConfig>) -> (r:
        Result<StagePlan, PlanError>)
        requires
            self.wf(),
            self.spec_counter() == 0,
        ensures
            r is Ok <==> plan_buildable(plan) && plan_size(plan) < usize::MAX,
            match r {
                Ok(sp) => built_from(plan, config, sp),
                Err(e) => e == if plan_size(plan) < usize::MAX {
                    plan_error(plan)
                } else {
                    PlanError::PlanTooLarge
                },
            },
    {
        if plan.node_count() == usize::MAX {
            return Err(PlanError::PlanTooLarge);
        }
        let mut builder = self;
        let root_stage_id = match builder.build_stages_from_plan(plan) {
            Ok(id) => id,
            Err(e) => return Err(e),
        };
        Ok(StagePlan { stages: builder.stages, root_stage: root_stage_id, config })
    }

    fn create_input_channel(&self, from_stage: StageID, channel_idx: usize) -> (r: Result<
        InputChannel,
        PlanError,
    >)
        ensures
            from_stage >= self.stages@.len() ==> r == Err::<InputChannel, PlanError>(
                PlanError::StageNotFound { stage_id: from_stage },
            ),
            from_stage < self.stages@.len() && channel_idx
                >= self.stages@[from_stage as int].output_channels@.len() ==> r == Err::<
                InputChannel,
                PlanError,
            >(PlanError::ChannelNotFound { stage_id: from_stage, channel_id: channel_idx }),
            from_stage < self.stages@.len() && channel_idx
                < self.stages@[from_stage as int].output_channels@.len() ==> r == Ok::<
                InputChannel,
                PlanError,
            >(
                InputChannel {
                    from_stage,
                    channel_id: ChannelID(channel_idx),
                    data_channel: self.stages@[from_stage as int].output_channels@[channel_idx as int].data_channel,
                },
            ),
    {
        if from_stage >= self.stages.len() {
            return Err(PlanError::StageNotFound { stage_id: from_stage });
        }
        let stage = &self.stages[from_stage];
        if channel_idx >= stage.output_channels.len() {
            return Err(PlanError::ChannelNotFound { stage_id: from_stage, channel_id: channel_idx });
        }
        let output_channel = &stage.output_channels[channel_idx];
        Ok(
            InputChannel {
                from_stage,
                channel_id: ChannelID(channel_idx),
                data_channel: output_channel.data_channel.clone(),
            },
        )
    }

    fn create_output_channel(&self, schema: SchemaRef, clustering_spec: Option<ClusteringSpec>) -> (r:
        OutputChannel)
        ensures
            r.to_stages@.len() == 0,
            r.data_channel == (DataChannel { schema, clustering_spec, stats: None }),
    {
        OutputChannel {
            to_stages: Vec::new(),
            data_channel: DataChannel { schema, clustering_spec, stats: None },
        }
    }
}

} // verus!
