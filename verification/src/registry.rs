//! Pipeline registry and frame dispatch.
//!
//! The registry owns one pipeline instance per registered command type,
//! keyed by the type's stable tag. Registration happens during application
//! setup; at render time `dispatch_frame` resolves every entry of a frame's
//! command list to its pipeline, in exactly the order the entries were
//! emitted, producing the plan that the renderer executes against the open
//! render or compute pass. A command type without a pipeline is a fatal
//! configuration error, never a silent skip.

use vstd::prelude::*;
use crate::command::DispatchEntry;

verus! {

/// A configuration error raised during the registration phase.
#[derive(Clone, Copy, Debug, PartialEq, Eq, Structural)]
pub enum RegistryError {
    /// Two pipelines were registered for the same command type.
    DuplicateRegistration { kind: u64 },
}

/// A fatal configuration error raised while dispatching a frame.
#[derive(Clone, Copy, Debug, PartialEq, Eq, Structural)]
pub enum DispatchError {
    /// The frame entry at `index` names a command type with no pipeline.
    MissingPipeline { index: usize, kind: u64 },
}

/// One resolved step of a dispatch plan: the pipeline that must be invoked
/// and the frame entry it serves.
#[derive(Clone, Copy, Debug, PartialEq, Eq, Structural)]
pub struct Invocation {
    /// Identifier of the owning pipeline, as returned by `register`.
    pub pipeline: usize,
    /// The frame entry, unchanged.
    pub entry: DispatchEntry,
}

/// Owns one pipeline instance per registered command type. The pipeline
/// registered for `tags()[i]` is `pipelines()[i]`, and `i` is the identifier
/// that `register` returned for it. Pipelines live as long as the registry:
/// created once during startup registration, never recreated, mutated every
/// frame through `pipeline_mut`.
pub struct PipelineRegistry<P> {
    tags: Vec<u64>,
    pipelines: Vec<P>,
}

impl<P> PipelineRegistry<P> {
    /// The registered command-type tags, in registration order.
    pub closed spec fn tags(self) -> Seq<u64> {
        self.tags@
    }

    /// The owned pipeline instances, aligned with `tags()`.
    pub closed spec fn pipelines(self) -> Seq<P> {
        self.pipelines@
    }

    /// Keys are unique — every command type owns exactly one pipeline — and
    /// each registered tag has its instance.
    pub open spec fn wf(self) -> bool {
        &&& forall|i: int, j: int|
            0 <= i < j < self.tags().len() ==> self.tags()[i] != self.tags()[j]
        &&& self.pipelines().len() == self.tags().len()
    }

    /// Whether a pipeline is registered for the command type `kind`.
    pub open spec fn is_registered(self, kind: u64) -> bool {
        self.tags().contains(kind)
    }

    /// Whether every entry of a frame names a registered command type.
    pub open spec fn all_registered(self, frame: Seq<DispatchEntry>) -> bool {
        forall|i: int| 0 <= i < frame.len() ==> self.is_registered(#[trigger] frame[i].kind)
    }

    /// An empty registry, before any setup registration.
    pub fn new() -> (r: PipelineRegistry<P>)
        ensures
            r.tags() =~= Seq::<u64>::empty(),
            r.pipelines() =~= Seq::<P>::empty(),
            r.wf(),
    {
        PipelineRegistry { tags: Vec::new(), pipelines: Vec::new() }
    }

    /// Resolves the pipeline identifier registered for `kind`, if any.
    pub fn pipeline_for(&self, kind: u64) -> (r: Option<usize>)
        ensures
            match r {
                Some(i) => i < self.tags().len() && self.tags()[i as int] == kind,
                None => !self.is_registered(kind),
            },
    {
        let n = self.tags.len();
        let mut i: usize = 0;
        while i < n
            invariant
                i <= n,
                n == self.tags@.len(),
                forall|j: int| 0 <= j < i ==> self.tags@[j] != kind,
            decreases n - i,
        {
            if self.tags[i] == kind {
                return Some(i);
            }
            i += 1;
        }
        None
    }

    /// Registers `pipeline` as the owner of command type `kind` during
    /// application setup and returns its identifier. Registering two
    /// pipelines for one command type is a configuration error and leaves
    /// the registry unchanged.
    pub fn register(&mut self, kind: u64, pipeline: P) -> (r: Result<usize, RegistryError>)
        requires
            old(self).wf(),
        ensures
            final(self).wf(),
            old(self).is_registered(kind) ==> {
                &&& r == Err::<usize, RegistryError>(RegistryError::DuplicateRegistration { kind })
                &&& final(self).tags() == old(self).tags()
                &&& final(self).pipelines() == old(self).pipelines()
            },
            !old(self).is_registered(kind) ==> {
                &&& r == Ok::<usize, RegistryError>(old(self).tags().len() as usize)
                &&& final(self).tags() == old(self).tags().push(kind)
                &&& final(self).pipelines() == old(self).pipelines().push(pipeline)
            },
    {
        match self.pipeline_for(kind) {
            Some(i) => {
                proof {
                    assert(self.tags()[i as int] == kind);
                    assert(self.is_registered(kind));
                }
                Err(RegistryError::DuplicateRegistration { kind })
            },
            None => {
                let id = self.tags.len();
                let ghost t0 = self.tags@;
                self.tags.push(kind);
                self.pipelines.push(pipeline);
                proof {
                    assert forall|a: int, b: int|
                        0 <= a < b < self.tags@.len() implies self.tags@[a] != self.tags@[b] by {
                        if b < t0.len() {
                            assert(old(self).wf());
                        } else {
                            assert(self.tags@[b] == kind);
                            if self.tags@[a] == kind {
                                assert(t0[a] == kind);
                                assert(t0.contains(kind));
                            }
                        }
                    }
                }
                Ok(id)
            },
        }
    }

    /// Exclusive access to the pipeline instance with identifier `id`, for
    /// the single-threaded render path that executes a dispatch plan. Only
    /// that pipeline changes; the registry's keys never do.
    pub fn pipeline_mut(&mut self, id: usize) -> (p: &mut P)
        requires
            id < old(self).pipelines().len(),
        ensures
            *p == old(self).pipelines()[id as int],
            final(self).tags() == old(self).tags(),
            final(self).pipelines() == old(self).pipelines().update(id as int, *final(p)),
    {
        &mut self.pipelines[id]
    }

    /// Resolves a whole frame in emission order. Succeeds if and only if
    /// every entry's command type has a registered pipeline; the plan then
    /// invokes exactly one pipeline per entry, carrying the entry unchanged,
    /// in exactly the input order. Otherwise the result reports the first
    /// entry, in order, whose command type has no pipeline.
    pub fn dispatch_frame(&self, frame: &Vec<DispatchEntry>) -> (r: Result<
        Vec<Invocation>,
        DispatchError,
    >)
        ensures
            match r {
                Ok(plan) => {
                    &&& self.all_registered(frame@)
                    &&& plan@.len() == frame@.len()
                    &&& forall|i: int|
                        0 <= i < frame@.len() ==> {
                            &&& (#[trigger] plan@[i]).entry == frame@[i]
                            &&& plan@[i].pipeline < self.tags().len()
                            &&& self.tags()[plan@[i].pipeline as int] == frame@[i].kind
                        }
                },
                Err(e) => {
                    &&& !self.all_registered(frame@)
                    &&& match e {
                        DispatchError::MissingPipeline { index, kind } => {
                            &&& index < frame@.len()
                            &&& frame@[index as int].kind == kind
                            &&& !self.is_registered(kind)
                            &&& forall|j: int|
                                0 <= j < index ==> self.is_registered(
                                    (#[trigger] frame@[j]).kind,
                                )
                        },
                    }
                },
            },
    {
        let mut plan: Vec<Invocation> = Vec::new();
        let n = frame.len();
        let mut i: usize = 0;
        while i < n
            invariant
                i <= n,
                n == frame@.len(),
                plan@.len() == i,
                forall|k: int|
                    0 <= k < i ==> {
                        &&& (#[trigger] plan@[k]).entry == frame@[k]
                        &&& plan@[k].pipeline < self.tags().len()
                        &&& self.tags()[plan@[k].pipeline as int] == frame@[k].kind
                    },
                forall|k: int| 0 <= k < i ==> self.is_registered((#[trigger] frame@[k]).kind),
            decreases n - i,
        {
            match self.pipeline_for(frame[i].kind) {
                Some(p) => {
                    plan.push(Invocation { pipeline: p, entry: frame[i] });
                    proof {
                        assert(self.tags()[p as int] == frame@[i as int].kind);
                        assert(self.is_registered(frame@[i as int].kind));
                    }
                    i += 1;
                },
                None => {
                    proof {
                        assert(!self.is_registered(frame@[i as int].kind));
                        assert(!self.all_registered(frame@));
                    }
                    return Err(DispatchError::MissingPipeline { index: i, kind: frame[i].kind });
                },
            }
        }
        Ok(plan)
    }
}

/// Law: in a well-formed registry each command type owns at most one
/// pipeline — two identifiers that resolve the same tag are the same
/// identifier.
pub proof fn lemma_pipeline_unique<P>(reg: PipelineRegistry<P>, i: int, j: int)
    requires
        reg.wf(),
        0 <= i < reg.tags().len(),
        0 <= j < reg.tags().len(),
        reg.tags()[i] == reg.tags()[j],
    ensures
        i == j,
{
}

} // verus!
