//! The stage graph: stages, the channels between them, and the finished plan.
use crate::plan::{ClusteringSpec, ExprRef, JoinType, LogicalPlan, SchemaRef};
use std::sync::Arc;
use vstd::prelude::*;

verus! {

/// Identifies a stage; stages are numbered in the order they are created.
pub type StageID = usize;

/// Which of a producer's output channels a consumer reads.
#[derive(Clone, Copy, Debug, PartialEq, Eq, Hash)]
pub struct ChannelID(pub usize);

#[derive(Clone, Copy, Debug, PartialEq, Eq, Hash)]
pub struct Stats {
    pub num_rows: u64,
    pub size_bytes: u64,
}

/// What flows across a channel.
#[derive(Debug, PartialEq, Eq)]
pub struct DataChannel {
    pub schema: SchemaRef,
    pub clustering_spec: Option<ClusteringSpec>,
    pub stats: Option<Stats>,
}

impl Clone for DataChannel {
    fn clone(&self) -> (r: Self)
        ensures
            r == *self,
    {
        DataChannel {
            schema: self.schema.clone(),
            clustering_spec: self.clustering_spec,
            stats: self.stats,
        }
    }
}

#[derive(Debug, PartialEq, Eq)]
pub struct OutputChannel {
    /// The consumers of this channel; left empty while the plan is built.
    pub to_stages: Vec<StageID>,
    pub data_channel: DataChannel,
}

#[derive(Debug, PartialEq, Eq)]
pub struct InputChannel {
    pub from_stage: StageID,
    pub channel_id: ChannelID,
    pub data_channel: DataChannel,
}

#[derive(Debug, PartialEq, Eq)]
pub enum StageType {
    /// A fused chain of operators that need no shuffle.
    MapPipeline { plan: LogicalPlan },
    /// A shuffle join of two upstream stages on equality keys.
    HashJoin {
        plan: LogicalPlan,
        left_on: Vec<ExprRef>,
        right_on: Vec<ExprRef>,
        null_equals_null: Option<Vec<bool>>,
        join_type: JoinType,
    },
}

#[derive(Debug, PartialEq, Eq)]
pub struct Stage {
    pub id: StageID,
    pub type_: StageType,
    pub input_channels: Vec<InputChannel>,
    pub output_channels: Vec<OutputChannel>,
}

/// Settings handed through to the execution layer.
#[derive(Clone, Copy, Debug, PartialEq, Eq, Hash)]
pub struct ExecutionConfig {
    pub default_num_partitions: usize,
    pub shuffle_partition_bytes: u64,
}

/// The finished graph. `stages[i]` is the stage whose id is `i`.
#[derive(Debug)]
pub struct StagePlan {
    pub stages: Vec<Stage>,
    pub root_stage: StageID,
    pub config: Arc<ExecutionConfig>,
}

impl StageType {
    pub open spec fn plan(self) -> LogicalPlan {
        match self {
            StageType::MapPipeline { plan } => plan,
            StageType::HashJoin { plan, .. } => plan,
        }
    }
}

} // verus!
