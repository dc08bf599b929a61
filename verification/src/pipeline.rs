//! A cache write as a pipeline of `redis`, ready to be sent.

use redis::Pipeline;
use vstd::prelude::*;
use crate::cache::{ops_of, CacheCommand, CacheOp};

verus! {

/// The pipeline of `redis`: a list of commands that is sent in one go.
#[verifier::external_type_specification]
#[verifier::external_body]
pub struct ExPipeline(redis::Pipeline);

/// The commands that a pipeline holds, in the order in which they were
/// added.
pub uninterp spec fn pipeline_ops(pipeline: Pipeline) -> Seq<CacheOp>;

/// Whether a pipeline is sent as one transaction.
pub uninterp spec fn pipeline_atomic(pipeline: Pipeline) -> bool;

/// `redis::pipe`: a pipeline without commands that is no transaction.
#[verifier::external_body]
fn empty_pipeline() -> (pipeline: Pipeline)
    ensures
        pipeline_ops(pipeline) == Seq::<CacheOp>::empty(),
        !pipeline_atomic(pipeline),
{
    redis::pipe()
}

/// `Pipeline::atomic`: makes the pipeline a transaction and leaves its
/// commands as they are.
#[verifier::external_body]
fn make_atomic(pipeline: &mut Pipeline)
    ensures
        pipeline_ops(*final(pipeline)) == pipeline_ops(*old(pipeline)),
        pipeline_atomic(*final(pipeline)),
{
    pipeline.atomic();
}

/// `Pipeline::set`: adds the command that stores `value` under `key`.
#[verifier::external_body]
fn add_set(pipeline: &mut Pipeline, key: &str, value: &str)
    ensures
        pipeline_ops(*final(pipeline)) == pipeline_ops(*old(pipeline)).push(
            CacheOp::Put { key: key@, value: value@ },
        ),
        pipeline_atomic(*final(pipeline)) == pipeline_atomic(*old(pipeline)),
{
    pipeline.set(key, value);
}

/// `Pipeline::expire`: adds the command that lets `key` expire after
/// `seconds`.
#[verifier::external_body]
fn add_expire(pipeline: &mut Pipeline, key: &str, seconds: i64)
    ensures
        pipeline_ops(*final(pipeline)) == pipeline_ops(*old(pipeline)).push(
            CacheOp::Expire { key: key@, seconds: seconds as int },
        ),
        pipeline_atomic(*final(pipeline)) == pipeline_atomic(*old(pipeline)),
{
    pipeline.expire(key, seconds);
}

/// `Pipeline::del`: adds the command that removes `key`.
#[verifier::external_body]
fn add_del(pipeline: &mut Pipeline, key: &str)
    ensures
        pipeline_ops(*final(pipeline)) == pipeline_ops(*old(pipeline)).push(
            CacheOp::Del { key: key@ },
        ),
        pipeline_atomic(*final(pipeline)) == pipeline_atomic(*old(pipeline)),
{
    pipeline.del(key);
}

/// The pipeline that holds `commands`, in their order, as a transaction
/// where `atomic`.
pub fn to_pipeline(commands: &Vec<CacheCommand>, atomic: bool) -> (pipeline: Pipeline)
    ensures
        pipeline_ops(pipeline) == ops_of(commands@),
        pipeline_atomic(pipeline) == atomic,
{
    let mut pipeline = empty_pipeline();
    if atomic {
        make_atomic(&mut pipeline);
    }
    let mut i: usize = 0;
    while i < commands.len()
        invariant
            i <= commands.len(),
            pipeline_ops(pipeline) == ops_of(commands@).subrange(0, i as int),
            pipeline_atomic(pipeline) == atomic,
        decreases commands.len() - i,
    {
        match &commands[i] {
            CacheCommand::Put { key, value } => add_set(
                &mut pipeline,
                key.as_str(),
                value.as_str(),
            ),
            CacheCommand::Expire { key, seconds } => add_expire(
                &mut pipeline,
                key.as_str(),
                *seconds,
            ),
            CacheCommand::Del { key } => add_del(&mut pipeline, key.as_str()),
        }
        assert(ops_of(commands@).subrange(0, i + 1) =~= ops_of(commands@).subrange(
            0,
            i as int,
        ).push(commands[i as int]@));
        i += 1;
    }
    assert(ops_of(commands@).subrange(0, i as int) =~= ops_of(commands@));
    pipeline
}

} // verus!
