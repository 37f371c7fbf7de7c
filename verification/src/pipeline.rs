//! The pipeline runner: walks a plan strictly in order, one command at
//! a time, and stops for good at the first failure, so that after a
//! failed stage no later command — no further image build, no registry
//! push, no transfer, no remote activation — is ever handed out.

use vstd::prelude::*;

use crate::context::{
    spec_full_push_plan, spec_is_push_cmd, spec_script_offset, BuildContext, Cmd,
};
use crate::manifest::ComposeDoc;

verus! {

/// The state of one run of a plan: how far it has come, and whether a
/// stage has failed.
pub struct Pipeline {
    pub cmds: Vec<Cmd>,
    pub pos: usize,
    pub failed: bool,
}

impl Pipeline {
    /// Whether the run is over: a stage failed, or every command ran.
    pub open spec fn spec_done(&self) -> bool {
        self.failed || self.pos >= self.cmds@.len()
    }

    /// The command the runner must perform next, where the run is not
    /// over.
    pub open spec fn spec_current(&self) -> Option<Cmd> {
        if self.spec_done() {
            None
        } else {
            Some(self.cmds@[self.pos as int])
        }
    }

    /// The commands that were handed out so far: always a prefix of the
    /// plan, in the plan's order.
    pub open spec fn spec_executed(&self) -> Seq<Cmd> {
        self.cmds@.take(self.pos as int)
    }

    /// Starts a run of the plan.
    pub fn new(cmds: Vec<Cmd>) -> (p: Pipeline)
        ensures
            p.cmds == cmds,
            p.pos == 0,
            !p.failed,
    {
        Pipeline { cmds, pos: 0, failed: false }
    }

    /// The next command to perform, or nothing once the run is over.
    pub fn current(&self) -> (r: Option<&Cmd>)
        ensures
            match r {
                Some(c) => self.spec_current() == Some(*c),
                None => self.spec_current() is None,
            },
    {
        if self.failed || self.pos >= self.cmds.len() {
            None
        } else {
            Some(&self.cmds[self.pos])
        }
    }

    /// Whether a stage has failed.
    pub fn has_failed(&self) -> (r: bool)
        ensures
            r == self.failed,
    {
        self.failed
    }

    /// Takes the outcome of the current command.  On success the run
    /// advances to the next command; on failure it is over for good:
    /// the position freezes and no further command is handed out.
    pub fn report(&mut self, ok: bool)
        requires
            !old(self).spec_done(),
        ensures
            final(self).cmds == old(self).cmds,
            ok ==> final(self).pos == old(self).pos + 1 && !final(self).failed,
            !ok ==> final(self).failed && final(self).pos == old(self).pos,
    {
        if ok {
            let n = self.cmds.len();
            assert(self.pos < n);
            self.pos += 1;
        } else {
            self.failed = true;
        }
    }
}

/// Once a stage has failed, the pipeline hands out no further command:
/// whatever failed — a build, a push, the transfer — nothing after it
/// in the plan is attempted.
pub proof fn lemma_failed_pipeline_halts(p: Pipeline)
    requires
        p.failed,
    ensures
        p.spec_current() is None,
{
}

/// In a full push plan every registry push and the transfer stand
/// after every image build.  So where a pipeline over such a plan
/// fails on one of the builds, its frozen prefix of executed commands
/// holds no registry push and no transfer: a failed build means that
/// no image is pushed and nothing is sent to the remote host.
pub proof fn lemma_push_waits_for_builds(
    p: Pipeline,
    ctx: BuildContext,
    doc: ComposeDoc,
    t: int,
)
    requires
        spec_full_push_plan(p.cmds@, ctx, doc),
        p.failed,
        p.pos <= spec_script_offset(ctx) + ctx.containers@.len(),
        0 <= t < p.spec_executed().len(),
    ensures
        forall|c: crate::dockerfile::DockerContainer|
            !spec_is_push_cmd(#[trigger] p.spec_executed()[t], ctx, c),
        !(p.spec_executed()[t] is Transfer),
{
    let off = spec_script_offset(ctx);
    let n = ctx.containers@.len() as int;
    let plan = p.cmds@;
    assert(plan.take(off + n + n) == plan.take(plan.len() - 1));
    assert(crate::context::spec_build_plan(
        plan.take(plan.len() - 1).take(off + n),
        ctx,
    ));
    assert(plan.take(plan.len() - 1).take(off + n) =~= plan.take(off + n));
    assert(p.spec_executed()[t] == plan[t]);
    assert(plan.take(off + n)[t] == plan[t]);
    if t < off {
        assert(ctx.config.build is Some);
        assert(crate::context::spec_is_script_cmd(plan.take(off + n)[0], ctx.config.build->0@));
        assert forall|c: crate::dockerfile::DockerContainer|
            !spec_is_push_cmd(#[trigger] p.spec_executed()[t], ctx, c) by {}
    } else {
        assert(crate::context::spec_is_build_cmd(
            plan.take(off + n)[off + (t - off)],
            ctx,
            ctx.containers@[t - off],
        ));
        assert forall|c: crate::dockerfile::DockerContainer|
            !spec_is_push_cmd(#[trigger] p.spec_executed()[t], ctx, c) by {
            if spec_is_push_cmd(p.spec_executed()[t], ctx, c) {
                let e = plan[t]->Exec_0;
                assert(crate::context::spec_args_of(e.args).len() == 2);
                assert(crate::context::spec_args_of(e.args).len() >= 6);
            }
        }
    }
}

} // verus!
