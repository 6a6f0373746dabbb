//! The release of every outstanding handle when a context is shut down.
//!
//! A context cannot issue commands itself. So the shutdown is a dialogue:
//! `Teardown::step` names the next command that releases a handle, the caller
//! issues it on the channel and hands the answer of the device to the next
//! `step`, until `step` reports that nothing is left to do.
//!
//! The handles of a context are released once. A shutdown that begins on a
//! context whose shutdown has begun before has no command to issue, so no
//! release is tried a second time.
use vstd::prelude::*;
use crate::context::{release_refusal, Context, ContextView};
use crate::error::Error;
use crate::handle_manager::{
    any_open, disposition_of, distinct_handles, handles_with, lemma_disposition_of,
    lemma_handles_with, lemma_without, without, HandleDisposition, TrackedHandle,
};
use crate::handles::ObjectHandle;

verus! {

/// A command that releases a handle.
#[derive(Clone, Copy, Debug, PartialEq, Eq, Hash, Structural)]
pub enum ReleaseCommand {
    /// Tell the device to discard the transient object or session.
    Flush(ObjectHandle),
    /// Close the reference to the object.
    Close(ObjectHandle),
}

impl ReleaseCommand {
    /// The handle that the command releases.
    pub open spec fn spec_handle(self) -> ObjectHandle {
        match self {
            ReleaseCommand::Flush(handle) => handle,
            ReleaseCommand::Close(handle) => handle,
        }
    }

    /// The disposition of the handles that the command is for.
    pub open spec fn disposition(self) -> HandleDisposition {
        match self {
            ReleaseCommand::Flush(_) => HandleDisposition::MustFlush,
            ReleaseCommand::Close(_) => HandleDisposition::MustClose,
        }
    }

    /// The handle that the command releases.
    #[verifier::when_used_as_spec(spec_handle)]
    pub fn handle(self) -> (handle: ObjectHandle)
        ensures
            handle == self.spec_handle(),
    {
        match self {
            ReleaseCommand::Flush(handle) => handle,
            ReleaseCommand::Close(handle) => handle,
        }
    }
}

/// How a shutdown ended.
#[derive(Clone, Copy, Debug, PartialEq, Eq, Hash, Structural)]
pub struct TeardownReport {
    /// The number of release commands that did not release their handle.
    pub failed_releases: usize,
    /// Whether a handle is left that should have been released.
    pub open_handles: bool,
}

/// What the caller of `Teardown::step` is to do next.
#[derive(Clone, Copy, Debug, PartialEq, Eq, Hash, Structural)]
pub enum TeardownAction {
    /// Issue the command and hand its answer to the next step.
    Release(ReleaseCommand),
    /// Nothing is left to do.
    Finish(TeardownReport),
}

/// The commands that release the handles of `handles`: first one flush for
/// each handle that must be flushed, then one close for each handle that
/// must be closed, each group in the order of registration. Permanent
/// handles get no command.
pub open spec fn release_plan(handles: Seq<TrackedHandle>) -> Seq<ReleaseCommand> {
    let flushes = handles_with(handles, HandleDisposition::MustFlush);
    let closes = handles_with(handles, HandleDisposition::MustClose);
    Seq::new(flushes.len(), |i: int| ReleaseCommand::Flush(flushes[i])) + Seq::new(
        closes.len(),
        |i: int| ReleaseCommand::Close(closes[i]),
    )
}

/// Whether the answer to `command` leaves its handle registered: there is no
/// answer, or the answer is a refusal, or the handle is not registered in the
/// way of the command.
pub open spec fn release_failed(
    handles: Seq<TrackedHandle>,
    command: ReleaseCommand,
    answer: Option<Result<(), Error>>,
) -> bool {
    match answer {
        None => true,
        Some(outcome) => release_refusal(
            handles,
            command.handle(),
            command.disposition(),
            outcome,
        ) is Some,
    }
}

/// How far a shutdown has come.
pub ghost struct TeardownView {
    /// The commands of the shutdown, in the order in which they are issued.
    pub plan: Seq<ReleaseCommand>,
    /// The number of commands that have been handed out.
    pub issued: nat,
    /// Whether the answer to the last command that was handed out is
    /// still awaited.
    pub awaiting: bool,
    /// The number of commands that did not release their handle.
    pub failed: nat,
}

/// A shutdown in progress.
#[derive(Debug)]
pub struct Teardown {
    plan: Vec<ReleaseCommand>,
    issued: usize,
    awaiting: bool,
    failed: usize,
}

impl View for Teardown {
    type V = TeardownView;

    closed spec fn view(&self) -> TeardownView {
        TeardownView {
            plan: self.plan@,
            issued: self.issued as nat,
            awaiting: self.awaiting,
            failed: self.failed as nat,
        }
    }
}

impl Teardown {
    /// Whether the value is one that the functions of this type produce.
    #[verifier::type_invariant]
    pub closed spec fn wf(self) -> bool {
        &&& self.issued <= self.plan@.len()
        &&& self.failed + (if self.awaiting { 1int } else { 0int }) <= self.issued
        &&& self.awaiting ==> self.issued > 0
    }

    /// Starts the shutdown of `context`: plans one command for each handle
    /// that is to be released, all flushes before all closes.
    ///
    /// Where the shutdown of `context` has begun before, nothing is planned:
    /// what was released is gone, and what could not be released is not
    /// tried again.
    pub fn begin<D>(context: &mut Context<D>) -> (teardown: Teardown)
        ensures
            teardown.wf(),
            final(context).spec_channel() == old(context).spec_channel(),
            final(context)@ == (ContextView { torn_down: true, ..old(context)@ }),
            teardown@ == (TeardownView {
                plan: if old(context)@.torn_down {
                    Seq::empty()
                } else {
                    release_plan(old(context)@.handles)
                },
                issued: 0,
                awaiting: false,
                failed: 0,
            }),
    {
        if !context.begin_teardown() {
            return Teardown { plan: Vec::new(), issued: 0, awaiting: false, failed: 0 };
        }
        let flushes = context.handle_manager().handles_to_flush();
        let closes = context.handle_manager().handles_to_close();
        let mut plan: Vec<ReleaseCommand> = Vec::new();
        let mut i: usize = 0;
        while i < flushes.len()
            invariant
                i <= flushes@.len(),
                plan@ == Seq::new(i as nat, |k: int| ReleaseCommand::Flush(flushes@[k])),
            decreases flushes@.len() - i,
        {
            plan.push(ReleaseCommand::Flush(flushes[i]));
            i += 1;
            assert(plan@ =~= Seq::new(i as nat, |k: int| ReleaseCommand::Flush(flushes@[k])));
        }
        let ghost first = plan@;
        let mut j: usize = 0;
        while j < closes.len()
            invariant
                j <= closes@.len(),
                plan@ == first + Seq::new(j as nat, |k: int| ReleaseCommand::Close(closes@[k])),
            decreases closes@.len() - j,
        {
            plan.push(ReleaseCommand::Close(closes[j]));
            j += 1;
            assert(plan@ =~= first + Seq::new(
                j as nat,
                |k: int| ReleaseCommand::Close(closes@[k]),
            ));
        }
        Teardown { plan, issued: 0, awaiting: false, failed: 0 }
    }

    /// Takes note of the answer to the command that the last step handed out,
    /// and says what to do next.
    ///
    /// `answer` is what the device answered to that command; it is `None`
    /// for the first step. A handle whose command succeeded is no longer
    /// registered with `context`. A command that failed is counted and its
    /// handle stays registered: the shutdown goes on with the next command.
    /// A command that is left without an answer counts as failed, and an
    /// answer that no command waits for is passed over. When every command
    /// has been handed out and answered, the step reports how many commands
    /// failed and whether a handle is left that should have been released.
    pub fn step<D>(
        &mut self,
        context: &mut Context<D>,
        answer: Option<Result<(), Error>>,
    ) -> (action: TeardownAction)
        ensures
            final(self).wf(),
            final(context).spec_channel() == old(context).spec_channel(),
            final(self)@.plan == old(self)@.plan,
            ({
                let before = old(self)@;
                let command = before.plan[before.issued - 1];
                let failed = before.awaiting && release_failed(
                    old(context)@.handles,
                    command,
                    answer,
                );
                let released = before.awaiting && !failed;
                &&& final(context)@ == (ContextView {
                    handles: if released {
                        without(old(context)@.handles, command.handle())
                    } else {
                        old(context)@.handles
                    },
                    ..old(context)@
                })
                &&& final(self)@.failed == before.failed + (if failed { 1int } else { 0int })
                &&& if before.issued < before.plan.len() {
                    &&& action == TeardownAction::Release(before.plan[before.issued as int])
                    &&& final(self)@.issued == before.issued + 1
                    &&& final(self)@.awaiting
                } else {
                    &&& action == TeardownAction::Finish(
                        TeardownReport {
                            failed_releases: final(self)@.failed as usize,
                            open_handles: any_open(final(context)@.handles),
                        },
                    )
                    &&& final(self)@.issued == before.issued
                    &&& !final(self)@.awaiting
                }
            }),
    {
        proof {
            use_type_invariant(&*self);
        }
        let mut failed = self.failed;
        if self.awaiting {
            let command = self.plan[self.issued - 1];
            let released = match answer {
                None => false,
                Some(outcome) => match command {
                    ReleaseCommand::Flush(handle) => context.flush_completed(
                        handle,
                        outcome,
                    ).is_ok(),
                    ReleaseCommand::Close(handle) => context.close_completed(
                        handle,
                        outcome,
                    ).is_ok(),
                },
            };
            if !released {
                failed = failed + 1;
            }
        }
        if self.issued < self.plan.len() {
            let command = self.plan[self.issued];
            let issued = self.issued + 1;
            self.issued = issued;
            self.awaiting = true;
            self.failed = failed;
            TeardownAction::Release(command)
        } else {
            self.awaiting = false;
            self.failed = failed;
            TeardownAction::Finish(
                TeardownReport {
                    failed_releases: failed,
                    open_handles: context.handle_manager().has_open_handles(),
                },
            )
        }
    }
}

/// The handles that are left of `handles` when the first `count` commands of
/// `plan` have each released their handle.
pub open spec fn released_upto(handles: Seq<TrackedHandle>, plan: Seq<ReleaseCommand>, count: nat)
    -> Seq<TrackedHandle>
    decreases count,
{
    if count == 0 {
        handles
    } else {
        without(released_upto(handles, plan, (count - 1) as nat), plan[count - 1].handle())
    }
}

/// In the plan of a shutdown every flush comes before every close.
pub proof fn lemma_flushes_before_closes(handles: Seq<TrackedHandle>)
    ensures
        forall|i: int, j: int|
            0 <= i < j < release_plan(handles).len() && release_plan(handles)[j] is Flush
                ==> release_plan(handles)[i] is Flush,
{
}

/// The plan of a shutdown has exactly one command for each handle that is to
/// be released, the command that its disposition asks for, and none for any
/// other handle.
pub proof fn lemma_plan_covers(handles: Seq<TrackedHandle>)
    requires
        distinct_handles(handles),
    ensures
        release_plan(handles).no_duplicates(),
        release_plan(handles).len() == handles_with(handles, HandleDisposition::MustFlush).len()
            + handles_with(handles, HandleDisposition::MustClose).len(),
        forall|command: ReleaseCommand|
            #[trigger] release_plan(handles).contains(command) <==> disposition_of(
                handles,
                command.handle(),
            ) == Some(command.disposition()),
        forall|i: int, j: int|
            0 <= i < release_plan(handles).len() && 0 <= j < release_plan(handles).len() && i != j
                ==> release_plan(handles)[i].handle() != release_plan(handles)[j].handle(),
{
    let flushes = handles_with(handles, HandleDisposition::MustFlush);
    let closes = handles_with(handles, HandleDisposition::MustClose);
    let plan = release_plan(handles);
    lemma_handles_with(handles, HandleDisposition::MustFlush);
    lemma_handles_with(handles, HandleDisposition::MustClose);
    assert forall|i: int| 0 <= i < plan.len() implies disposition_of(
        handles,
        (#[trigger] plan[i]).handle(),
    ) == Some(plan[i].disposition()) by {
        if i < flushes.len() {
            assert(flushes.contains(flushes[i]));
        } else {
            assert(closes.contains(closes[i - flushes.len()]));
        }
    }
    assert forall|i: int, j: int|
        0 <= i < plan.len() && 0 <= j < plan.len() && i != j implies plan[i].handle()
        != plan[j].handle() by {
        assert(disposition_of(handles, plan[i].handle()) == Some(plan[i].disposition()));
        assert(disposition_of(handles, plan[j].handle()) == Some(plan[j].disposition()));
    }
    assert forall|command: ReleaseCommand| #[trigger]
        plan.contains(command) <==> disposition_of(handles, command.handle()) == Some(
            command.disposition(),
        ) by {
        if plan.contains(command) {
            let i = choose|i: int| 0 <= i < plan.len() && plan[i] == command;
            assert(disposition_of(handles, plan[i].handle()) == Some(plan[i].disposition()));
        }
        if disposition_of(handles, command.handle()) == Some(command.disposition()) {
            match command {
                ReleaseCommand::Flush(handle) => {
                    assert(flushes.contains(handle));
                    let k = choose|k: int| 0 <= k < flushes.len() && flushes[k] == handle;
                    assert(plan[k] == command);
                },
                ReleaseCommand::Close(handle) => {
                    assert(closes.contains(handle));
                    let k = choose|k: int| 0 <= k < closes.len() && closes[k] == handle;
                    assert(plan[flushes.len() + k] == command);
                },
            }
        }
    }
}

/// While the commands of a shutdown succeed, the handle of the next command
/// is still registered in the way of that command, so that command can
/// succeed too; and when all have succeeded, no handle is left that should
/// have been released.
pub proof fn lemma_all_released(handles: Seq<TrackedHandle>)
    requires
        distinct_handles(handles),
    ensures
        forall|count: nat|
            count < release_plan(handles).len() ==> disposition_of(
                #[trigger] released_upto(handles, release_plan(handles), count),
                release_plan(handles)[count as int].handle(),
            ) == Some(release_plan(handles)[count as int].disposition()),
        !any_open(released_upto(handles, release_plan(handles), release_plan(handles).len())),
{
    let plan = release_plan(handles);
    lemma_plan_covers(handles);
    assert forall|count: nat| count < plan.len() implies disposition_of(
        #[trigger] released_upto(handles, plan, count),
        plan[count as int].handle(),
    ) == Some(plan[count as int].disposition()) by {
        lemma_released_upto(handles, count);
        let command = plan[count as int];
        assert(plan.contains(command));
        assert(!released_before(plan, count, command.handle())) by {
            if released_before(plan, count, command.handle()) {
                let k = choose|k: int|
                    0 <= k < count && (#[trigger] plan[k]).handle() == command.handle();
                assert(plan[k].handle() != plan[count as int].handle());
            }
        }
    }
    let left = released_upto(handles, plan, plan.len());
    lemma_released_upto(handles, plan.len());
    if any_open(left) {
        let index = choose|index: int|
            0 <= index < left.len() && (#[trigger] left[index]).disposition
                != HandleDisposition::Permanent;
        let entry = left[index];
        lemma_disposition_of(left, entry.handle, index);
        let command = match entry.disposition {
            HandleDisposition::MustFlush => ReleaseCommand::Flush(entry.handle),
            _ => ReleaseCommand::Close(entry.handle),
        };
        assert(disposition_of(left, entry.handle) == Some(entry.disposition));
        assert(!released_before(plan, plan.len(), entry.handle));
        assert(disposition_of(handles, entry.handle) == Some(entry.disposition));
        assert(command.disposition() == entry.disposition);
        assert(plan.contains(command));
        let k = choose|k: int| 0 <= k < plan.len() && plan[k] == command;
        assert(plan[k].handle() == entry.handle);
        assert(released_before(plan, plan.len(), entry.handle));
    }
}

/// Whether one of the first `count` commands of `plan` releases `handle`.
pub open spec fn released_before(
    plan: Seq<ReleaseCommand>,
    count: nat,
    handle: ObjectHandle,
) -> bool {
    exists|k: int| 0 <= k < count && (#[trigger] plan[k]).handle() == handle
}

/// After the first `count` commands of the plan have succeeded, the handles
/// of those commands are no longer registered and all others are registered
/// as before.
proof fn lemma_released_upto(handles: Seq<TrackedHandle>, count: nat)
    requires
        distinct_handles(handles),
        count <= release_plan(handles).len(),
    ensures
        distinct_handles(released_upto(handles, release_plan(handles), count)),
        forall|handle: ObjectHandle| #[trigger]
            disposition_of(released_upto(handles, release_plan(handles), count), handle) == (
            if released_before(release_plan(handles), count, handle) {
                None
            } else {
                disposition_of(handles, handle)
            }),
    decreases count,
{
    let plan = release_plan(handles);
    lemma_plan_covers(handles);
    if count > 0 {
        let before = released_upto(handles, plan, (count - 1) as nat);
        let command = plan[count - 1];
        lemma_released_upto(handles, (count - 1) as nat);
        assert(plan[count - 1] == command);
        assert(plan.contains(command));
        assert(disposition_of(handles, command.handle()) == Some(command.disposition()));
        assert(!released_before(plan, (count - 1) as nat, command.handle())) by {
            if released_before(plan, (count - 1) as nat, command.handle()) {
                let k = choose|k: int|
                    0 <= k < count - 1 && (#[trigger] plan[k]).handle() == command.handle();
                assert(plan[k].handle() != plan[count - 1].handle());
            }
        }
        assert(disposition_of(before, command.handle()) == disposition_of(
            handles,
            command.handle(),
        ));
        lemma_without(before, command.handle());
        let after = released_upto(handles, plan, count);
        assert(after == without(before, command.handle()));
        assert forall|handle: ObjectHandle| #[trigger]
            disposition_of(after, handle) == (if released_before(plan, count, handle) {
                None
            } else {
                disposition_of(handles, handle)
            }) by {
            if handle == command.handle() {
                assert(plan[count - 1].handle() == handle);
                assert(released_before(plan, count, handle));
            } else {
                assert(disposition_of(after, handle) == disposition_of(before, handle));
                if released_before(plan, (count - 1) as nat, handle) {
                    let k = choose|k: int|
                        0 <= k < count - 1 && (#[trigger] plan[k]).handle() == handle;
                    assert(0 <= k < count && plan[k].handle() == handle);
                }
                if released_before(plan, count, handle) {
                    let k = choose|k: int|
                        0 <= k < count && (#[trigger] plan[k]).handle() == handle;
                    assert(k != count - 1);
                    assert(0 <= k < count - 1 && plan[k].handle() == handle);
                }
            }
        }
    }
}

} // verus!
