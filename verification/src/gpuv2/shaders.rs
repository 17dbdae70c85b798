//! Shader stages: compiled bytecode blobs arrive from the excluded
//! shader-loading collaborator as native module handles; this wraps each
//! into a pipeline stage description with the fixed entry point `main`.
use vstd::prelude::*;
use crate::gpu::types::DestroyAction;
use crate::gpuv2::Cleanup;

verus! {

/// One shader stage: the stage bit and the native module the shell built
/// from the stage's bytecode. The entry point is always `main`.
#[derive(Clone, Copy, Debug, PartialEq, Eq, Structural)]
pub struct Stage {
    pub stage: u32,
    pub module: u64,
}

impl Stage {
    pub fn new(stage: u32, module: u64) -> (r: Self)
        ensures
            r.stage == stage,
            r.module == module,
    {
        Stage { stage, module }
    }
}

impl Cleanup for Stage {
    open spec fn cleanup_plan(&self) -> Seq<DestroyAction> {
        seq![DestroyAction::ShaderModule(self.module)]
    }

    fn cleanup(&self) -> (r: Vec<DestroyAction>) {
        let mut r: Vec<DestroyAction> = Vec::new();
        r.push(DestroyAction::ShaderModule(self.module));
        proof {
            assert(r@ =~= self.cleanup_plan());
        }
        r
    }
}

/// What one pipeline stage is created with; the entry-point name is the
/// fixed `main`.
#[derive(Clone, Copy, Debug, PartialEq, Eq, Structural)]
pub struct PipelineShaderStageCreateInfo {
    pub module: u64,
    pub stage: u32,
}

/// The stage list a pipeline is created from.
#[derive(Clone, Debug)]
pub struct Stages {
    pub stages: Vec<PipelineShaderStageCreateInfo>,
}

impl Stages {
    /// Collects the given stages, in order.
    pub fn new(stages: &Vec<Stage>) -> (r: Self)
        ensures
            r.stages@.len() == stages@.len(),
            forall|k: int| 0 <= k < stages@.len() ==> r.stages@[k]
                == (PipelineShaderStageCreateInfo {
                module: stages@[k].module,
                stage: stages@[k].stage,
            }),
    {
        let mut new_stages = Stages { stages: Vec::new() };
        let n = stages.len();
        let mut i: usize = 0;
        while i < n
            invariant
                n == stages@.len(),
                i <= n,
                new_stages.stages@.len() == i,
                forall|k: int| 0 <= k < i ==> new_stages.stages@[k]
                    == (PipelineShaderStageCreateInfo {
                    module: stages@[k].module,
                    stage: stages@[k].stage,
                }),
            decreases n - i,
        {
            let s = stages[i];
            new_stages.add(&s);
            i += 1;
        }
        new_stages
    }

    /// Appends one stage's description.
    pub fn add(&mut self, stage: &Stage)
        ensures
            final(self).stages@ == old(self).stages@.push(
                PipelineShaderStageCreateInfo { module: stage.module, stage: stage.stage },
            ),
    {
        self.stages.push(
            PipelineShaderStageCreateInfo { module: stage.module, stage: stage.stage },
        );
    }

    /// The collected stage descriptions, in collected order.
    pub fn build(&self) -> (r: &[PipelineShaderStageCreateInfo])
        ensures
            r@ == self.stages@,
    {
        self.stages.as_slice()
    }
}

impl Cleanup for Stages {
    /// Each stage's module, in stage order.
    open spec fn cleanup_plan(&self) -> Seq<DestroyAction> {
        self.stages@.map_values(|s: PipelineShaderStageCreateInfo| DestroyAction::ShaderModule(
            s.module,
        ))
    }

    fn cleanup(&self) -> (r: Vec<DestroyAction>) {
        let mut r: Vec<DestroyAction> = Vec::new();
        let n = self.stages.len();
        let mut i: usize = 0;
        while i < n
            invariant
                n == self.stages@.len(),
                i <= n,
                r@ == self.stages@.take(i as int).map_values(
                    |s: PipelineShaderStageCreateInfo| DestroyAction::ShaderModule(s.module),
                ),
            decreases n - i,
        {
            let m = self.stages[i].module;
            r.push(DestroyAction::ShaderModule(m));
            proof {
                assert(r@ =~= self.stages@.take(i + 1).map_values(
                    |s: PipelineShaderStageCreateInfo| DestroyAction::ShaderModule(s.module),
                ));
            }
            i += 1;
        }
        proof {
            assert(self.stages@.take(n as int) =~= self.stages@);
        }
        r
    }
}

} // verus!
