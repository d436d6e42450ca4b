//! Merging a worktree's pull request and cleaning up after it.
//!
//! The pipeline has a fixed order: find the target, read its branch, merge
//! the pull request, remove the worktree, delete the local branch, delete
//! the remote branch, and move the caller if the target was where the caller
//! stood. Every piece of outside work is asked for with an [`Action`]; the
//! caller does it and adds its reply to the others. The replies so far are
//! the whole state of the pipeline: what happens next is a function of them.

use vstd::prelude::*;
use crate::context::{
    resolve_of, resolve_target, ContextView, ResolutionContext, TargetResolution, TargetView,
};
use crate::failure::{Failure, FailureView, Task};
use crate::process::{
    failure_of, Action, ActionView, Operation, OperationView, Reply, ReplyView,
};
use crate::text::{contains, contains_text, same};
use crate::utils::{answer, answer_of, cd_command, print_cd_command};

verus! {

/// How the hosting service is to merge a pull request.
#[derive(Clone, Copy, Debug, PartialEq, Eq, Structural)]
pub enum MergeStrategy {
    Squash,
    Merge,
    Rebase,
}

/// The steps of the pipeline, in their order.
#[derive(Clone, Copy, Debug, PartialEq, Eq, Structural)]
pub enum Step {
    ResolveTarget,
    CaptureBranch,
    MergePullRequest,
    RemoveWorktree,
    DeleteLocalBranch,
    DeleteRemoteBranch,
    Navigate,
}

/// How a step ended.
#[derive(Clone, Copy, Debug, PartialEq, Eq, Structural)]
pub enum StepStatus {
    Succeeded,
    /// The hosting service knows no pull request for the branch.
    SkippedNoPullRequest,
    Failed,
}

/// How loudly the end of a step is reported.
#[derive(Clone, Copy, Debug, PartialEq, Eq, Structural)]
pub enum Severity {
    Info,
    Warning,
    Error,
}

/// How one step of one run ended.
#[derive(Debug, PartialEq, Eq)]
pub struct StepResult {
    pub step: Step,
    pub status: StepStatus,
    /// The diagnostic text of a step that took outside work; else what the
    /// step found or was given.
    pub detail: String,
}

/// A [`StepResult`] with its detail as a sequence of characters.
pub struct StepResultView {
    pub step: Step,
    pub status: StepStatus,
    pub detail: Seq<char>,
}

impl View for StepResult {
    type V = StepResultView;

    open spec fn view(&self) -> StepResultView {
        StepResultView { step: self.step, status: self.status, detail: self.detail@ }
    }
}

impl DeepView for StepResult {
    type V = StepResultView;

    open spec fn deep_view(&self) -> StepResultView {
        self@
    }
}

/// The record of one run: how each step that ended has ended, in order.
#[derive(Debug, PartialEq, Eq)]
pub struct PipelineOutcome {
    pub steps: Vec<StepResult>,
}

impl View for PipelineOutcome {
    type V = Seq<StepResultView>;

    open spec fn view(&self) -> Seq<StepResultView> {
        self.steps.deep_view()
    }
}

/// Where a run stands: what has ended, and what is to be done next.
#[derive(Debug, PartialEq, Eq)]
pub struct Progress {
    pub outcome: PipelineOutcome,
    pub next: Action,
}

/// A [`Progress`] with its texts as sequences of characters.
pub struct ProgressView {
    pub outcome: Seq<StepResultView>,
    pub next: ActionView,
}

impl View for Progress {
    type V = ProgressView;

    open spec fn view(&self) -> ProgressView {
        ProgressView { outcome: self.outcome@, next: self.next@ }
    }
}

/// The strategy that `text` names.
pub open spec fn strategy_of(text: Seq<char>) -> Option<MergeStrategy> {
    if text == "squash"@ {
        Some(MergeStrategy::Squash)
    } else if text == "merge"@ {
        Some(MergeStrategy::Merge)
    } else if text == "rebase"@ {
        Some(MergeStrategy::Rebase)
    } else {
        None
    }
}

impl MergeStrategy {
    /// The flag by which the hosting service's tool knows the strategy.
    pub open spec fn flag_of(self) -> Seq<char> {
        match self {
            MergeStrategy::Squash => "--squash"@,
            MergeStrategy::Merge => "--merge"@,
            MergeStrategy::Rebase => "--rebase"@,
        }
    }

    /// The strategy that `text` names; any other text is refused.
    pub fn parse(text: &str) -> (r: Result<MergeStrategy, Failure>)
        ensures
            match strategy_of(text@) {
                Some(strategy) => r == Ok::<MergeStrategy, Failure>(strategy),
                None => r matches Err(failure) && failure@ == (FailureView::InvalidStrategy {
                    given: text@,
                }),
            },
    {
        if same(text, "squash") {
            Ok(MergeStrategy::Squash)
        } else if same(text, "merge") {
            Ok(MergeStrategy::Merge)
        } else if same(text, "rebase") {
            Ok(MergeStrategy::Rebase)
        } else {
            Err(Failure::InvalidStrategy { given: String::from_str(text) })
        }
    }

    /// The flag by which the hosting service's tool knows the strategy.
    pub fn flag(&self) -> (flag: String)
        ensures
            flag@ == self.flag_of(),
    {
        match self {
            MergeStrategy::Squash => String::from_str("--squash"),
            MergeStrategy::Merge => String::from_str("--merge"),
            MergeStrategy::Rebase => String::from_str("--rebase"),
        }
    }
}

/// A failure of this step fails the command; a failure of any other step is
/// only reported.
pub open spec fn is_hard(step: Step) -> bool {
    step is ResolveTarget || step is CaptureBranch || step is MergePullRequest
        || step is RemoveWorktree
}

/// The command has failed: a step whose failure counts has failed.
pub open spec fn command_failed(outcome: Seq<StepResultView>) -> bool {
    exists|i: int|
        0 <= i < outcome.len() && (#[trigger] outcome[i]).status is Failed && is_hard(
            outcome[i].step,
        )
}

/// How loudly `result` is reported. A step that did not fail is told as
/// information, and so is a remote branch that could not be deleted because
/// it was gone already. A failure that fails the command is an error; any
/// other failure is a warning.
pub open spec fn severity_of(result: StepResultView) -> Severity {
    if !(result.status is Failed) {
        Severity::Info
    } else if is_hard(result.step) {
        Severity::Error
    } else if result.step is DeleteRemoteBranch && contains_text(
        result.detail,
        "remote ref does not exist"@,
    ) {
        Severity::Info
    } else {
        Severity::Warning
    }
}

/// With its first two replies the run has come to ask for the merge.
pub open spec fn arrives_at_merge(
    ctx: ContextView,
    name: Option<Seq<char>>,
    strategy: Seq<char>,
    replies: Seq<ReplyView>,
) -> bool {
    &&& replies.len() >= 2
    &&& progress(ctx, name, strategy, replies.take(2)).next matches ActionView::Run(operation)
    &&& operation is MergePullRequest
}

/// With its first four replies the run has come to ask for the deletion of
/// the local branch.
pub open spec fn arrives_at_deletion(
    ctx: ContextView,
    name: Option<Seq<char>>,
    strategy: Seq<char>,
    replies: Seq<ReplyView>,
) -> bool {
    &&& replies.len() >= 4
    &&& progress(ctx, name, strategy, replies.take(4)).next matches ActionView::Run(operation)
    &&& operation is DeleteLocalBranch
}

/// The branch that the reply to the branch query names. A query that was
/// refused names none, and neither does the answer `HEAD`, which stands for
/// a checkout that is on no branch.
pub open spec fn branch_of(reply: ReplyView) -> Result<Seq<char>, FailureView> {
    match answer_of(reply, Task::QueryBranch) {
        Ok(branch) => if branch == "HEAD"@ {
            Err(FailureView::DetachedOrUnresolvable { detail: reply.diagnostic() })
        } else {
            Ok(branch)
        },
        Err(failure) => Err(failure),
    }
}

/// The service said that the branch has no pull request.
pub open spec fn reports_no_pull_request(reply: ReplyView) -> bool {
    reply matches ReplyView::Exited { success, stderr, .. } && !success && contains_text(
        stderr,
        "no pull requests found"@,
    )
}

/// How the merge step ended, given the reply to the merge.
pub open spec fn merge_status_of(reply: ReplyView) -> StepStatus {
    if reply.succeeded() {
        StepStatus::Succeeded
    } else if reports_no_pull_request(reply) {
        StepStatus::SkippedNoPullRequest
    } else {
        StepStatus::Failed
    }
}

/// The failure that a refused removal amounts to at this point of the run.
pub open spec fn cleanup_failure_of(reply: ReplyView) -> FailureView {
    match reply {
        ReplyView::NotStarted { detail } => FailureView::NotStarted {
            task: Task::RemoveWorktree,
            detail,
        },
        ReplyView::Exited { stderr, .. } => FailureView::CleanupStopped { detail: stderr },
    }
}

/// The record of a step that ended well.
pub open spec fn done(step: Step, detail: Seq<char>) -> StepResultView {
    StepResultView { step, status: StepStatus::Succeeded, detail }
}

/// The record of a step that failed.
pub open spec fn failed(step: Step, detail: Seq<char>) -> StepResultView {
    StepResultView { step, status: StepStatus::Failed, detail }
}

/// The record of a step that ends as its reply says.
pub open spec fn as_replied(step: Step, reply: ReplyView) -> StepResultView {
    StepResultView {
        step,
        status: if reply.succeeded() {
            StepStatus::Succeeded
        } else {
            StepStatus::Failed
        },
        detail: reply.diagnostic(),
    }
}

/// Where a merge of `name` with `strategy` stands after `replies`.
///
/// The replies answer, in this order: whether the target exists, the branch
/// query, the merge, the removal, the deletion of the local branch, the
/// deletion of the remote branch.
pub open spec fn progress(
    ctx: ContextView,
    name: Option<Seq<char>>,
    strategy: Seq<char>,
    replies: Seq<ReplyView>,
) -> ProgressView {
    match resolve_of(ctx.is_primary_checkout, name) {
        Err(failure) => ProgressView {
            outcome: seq![failed(Step::ResolveTarget, Seq::empty())],
            next: ActionView::Abort(failure),
        },
        Ok(target) => after_resolution(ctx, target, strategy, replies),
    }
}

/// The target is known: it must exist.
pub open spec fn after_resolution(
    ctx: ContextView,
    target: TargetView,
    strategy: Seq<char>,
    replies: Seq<ReplyView>,
) -> ProgressView {
    let path = target.path(ctx);
    if replies.len() < 1 {
        ProgressView {
            outcome: Seq::empty(),
            next: ActionView::Run(OperationView::ProbePath { path }),
        }
    } else if !replies[0].succeeded() {
        ProgressView {
            outcome: seq![failed(Step::ResolveTarget, path)],
            next: ActionView::Abort(FailureView::WorktreeNotFound { wanted: path, named: false }),
        }
    } else {
        after_probe(ctx, target, strategy, replies, seq![done(Step::ResolveTarget, path)])
    }
}

/// The target exists: its branch is read, once and for the rest of the run.
pub open spec fn after_probe(
    ctx: ContextView,
    target: TargetView,
    strategy: Seq<char>,
    replies: Seq<ReplyView>,
    so_far: Seq<StepResultView>,
) -> ProgressView {
    if replies.len() < 2 {
        ProgressView {
            outcome: so_far,
            next: ActionView::Run(OperationView::QueryBranch { worktree: target.path(ctx) }),
        }
    } else {
        match branch_of(replies[1]) {
            Err(failure) => ProgressView {
                outcome: so_far.push(failed(Step::CaptureBranch, replies[1].diagnostic())),
                next: ActionView::Abort(failure),
            },
            Ok(branch) => after_capture(
                ctx,
                target,
                strategy,
                replies,
                so_far.push(done(Step::CaptureBranch, branch)),
                branch,
            ),
        }
    }
}

/// The branch is known: the pull request is merged, with a strategy that
/// must be one of the three. That there is no pull request stops nothing;
/// any other failure stops the run before the worktree is touched.
pub open spec fn after_capture(
    ctx: ContextView,
    target: TargetView,
    strategy: Seq<char>,
    replies: Seq<ReplyView>,
    so_far: Seq<StepResultView>,
    branch: Seq<char>,
) -> ProgressView {
    match strategy_of(strategy) {
        None => ProgressView {
            outcome: so_far.push(failed(Step::MergePullRequest, strategy)),
            next: ActionView::Abort(FailureView::InvalidStrategy { given: strategy }),
        },
        Some(how) => if replies.len() < 3 {
            ProgressView {
                outcome: so_far,
                next: ActionView::Run(
                    OperationView::MergePullRequest { worktree: target.path(ctx), strategy: how },
                ),
            }
        } else {
            let merged = StepResultView {
                step: Step::MergePullRequest,
                status: merge_status_of(replies[2]),
                detail: replies[2].diagnostic(),
            };
            if merged.status is Failed {
                ProgressView {
                    outcome: so_far.push(merged),
                    next: ActionView::Abort(failure_of(replies[2], Task::MergePullRequest)),
                }
            } else {
                after_merge(ctx, target, replies, so_far.push(merged), branch)
            }
        },
    }
}

/// The merge is behind: the worktree is removed, from the primary checkout.
/// If that fails the run stops; the merge is not undone and the branch stays.
pub open spec fn after_merge(
    ctx: ContextView,
    target: TargetView,
    replies: Seq<ReplyView>,
    so_far: Seq<StepResultView>,
    branch: Seq<char>,
) -> ProgressView {
    let path = target.path(ctx);
    if replies.len() < 4 {
        ProgressView {
            outcome: so_far,
            next: ActionView::Run(
                OperationView::RemoveWorktree { path, from: ctx.primary_checkout_path },
            ),
        }
    } else if !replies[3].succeeded() {
        ProgressView {
            outcome: so_far.push(failed(Step::RemoveWorktree, replies[3].diagnostic())),
            next: ActionView::Abort(cleanup_failure_of(replies[3])),
        }
    } else {
        after_removal(ctx, target, replies, so_far.push(done(Step::RemoveWorktree, path)), branch)
    }
}

/// The worktree is gone: the branch is deleted here and on the remote,
/// whatever comes of either, and the caller is moved if it stood in the
/// worktree.
pub open spec fn after_removal(
    ctx: ContextView,
    target: TargetView,
    replies: Seq<ReplyView>,
    so_far: Seq<StepResultView>,
    branch: Seq<char>,
) -> ProgressView {
    let primary = ctx.primary_checkout_path;
    if replies.len() < 5 {
        ProgressView {
            outcome: so_far,
            next: ActionView::Run(OperationView::DeleteLocalBranch { branch, from: primary }),
        }
    } else {
        let local = so_far.push(as_replied(Step::DeleteLocalBranch, replies[4]));
        if replies.len() < 6 {
            ProgressView {
                outcome: local,
                next: ActionView::Run(OperationView::DeleteRemoteBranch { branch, from: primary }),
            }
        } else {
            let remote = local.push(as_replied(Step::DeleteRemoteBranch, replies[5]));
            if target.requires_navigation_after_cleanup() {
                ProgressView {
                    outcome: remote.push(done(Step::Navigate, primary)),
                    next: ActionView::Finish { output: Some(cd_command(primary)) },
                }
            } else {
                ProgressView { outcome: remote, next: ActionView::Finish { output: None } }
            }
        }
    }
}

impl StepResult {
    /// The record of a step that ended well.
    pub fn done(step: Step, detail: String) -> (r: StepResult)
        ensures
            r@ == done(step, detail@),
    {
        StepResult { step, status: StepStatus::Succeeded, detail }
    }

    /// The record of a step that failed.
    pub fn failed(step: Step, detail: String) -> (r: StepResult)
        ensures
            r@ == failed(step, detail@),
    {
        StepResult { step, status: StepStatus::Failed, detail }
    }

    /// The record of a step that ends as its reply says.
    pub fn as_replied(step: Step, reply: &Reply) -> (r: StepResult)
        ensures
            r@ == as_replied(step, reply@),
    {
        let status = if reply.succeeded() {
            StepStatus::Succeeded
        } else {
            StepStatus::Failed
        };
        StepResult { step, status, detail: reply.diagnostic() }
    }

    /// How loudly the end of the step is reported.
    pub fn severity(&self) -> (r: Severity)
        ensures
            r == severity_of(self@),
    {
        match self.status {
            StepStatus::Failed => match self.step {
                Step::ResolveTarget => Severity::Error,
                Step::CaptureBranch => Severity::Error,
                Step::MergePullRequest => Severity::Error,
                Step::RemoveWorktree => Severity::Error,
                Step::DeleteRemoteBranch => if contains(
                    self.detail.as_str(),
                    "remote ref does not exist",
                ) {
                    Severity::Info
                } else {
                    Severity::Warning
                },
                _ => Severity::Warning,
            },
            _ => Severity::Info,
        }
    }
}

impl PipelineOutcome {
    /// Whether the command has failed.
    pub fn failed(&self) -> (r: bool)
        ensures
            r == command_failed(self@),
    {
        let mut i: usize = 0;
        while i < self.steps.len()
            invariant
                i <= self.steps.len(),
                forall|j: int|
                    0 <= j < i ==> !((#[trigger] self@[j]).status is Failed && is_hard(
                        self@[j].step,
                    )),
            decreases self.steps.len() - i,
        {
            let result = &self.steps[i];
            let hard = match result.step {
                Step::ResolveTarget => true,
                Step::CaptureBranch => true,
                Step::MergePullRequest => true,
                Step::RemoveWorktree => true,
                _ => false,
            };
            let lost = match result.status {
                StepStatus::Failed => true,
                _ => false,
            };
            if hard && lost {
                assert(self@[i as int].status is Failed && is_hard(self@[i as int].step));
                return true;
            }
            i += 1;
        }
        false
    }
}

/// `so_far` with `result` behind it.
fn record(so_far: Vec<StepResult>, result: StepResult) -> (r: Vec<StepResult>)
    ensures
        r.deep_view() == so_far.deep_view().push(result@),
{
    let mut r = so_far;
    r.push(result);
    r
}

/// The branch that the reply to the branch query names.
pub fn get_worktree_branch(reply: &Reply) -> (r: Result<String, Failure>)
    ensures
        crate::process::result_view(r) == branch_of(reply@),
{
    match answer(reply, Task::QueryBranch) {
        Ok(branch) => if same(branch.as_str(), "HEAD") {
            Err(Failure::DetachedOrUnresolvable { detail: reply.diagnostic() })
        } else {
            Ok(branch)
        },
        Err(failure) => Err(failure),
    }
}

/// How the merge step ended, given the reply to the merge.
pub fn merge_status(reply: &Reply) -> (status: StepStatus)
    ensures
        status == merge_status_of(reply@),
{
    match reply {
        Reply::NotStarted { .. } => StepStatus::Failed,
        Reply::Exited { success, stdout, stdout_intact, stderr } => {
            if *success {
                StepStatus::Succeeded
            } else if contains(stderr.as_str(), "no pull requests found") {
                StepStatus::SkippedNoPullRequest
            } else {
                StepStatus::Failed
            }
        },
    }
}

fn cleanup_failure(reply: &Reply) -> (failure: Failure)
    ensures
        failure@ == cleanup_failure_of(reply@),
{
    match reply {
        Reply::NotStarted { detail } => Failure::NotStarted {
            task: Task::RemoveWorktree,
            detail: detail.clone(),
        },
        Reply::Exited { stderr, .. } => Failure::CleanupStopped { detail: stderr.clone() },
    }
}

/// Where a merge of `name` with `strategy` stands after `replies`: what has
/// ended, and what is to be done next.
pub fn execute(
    ctx: &ResolutionContext,
    name: Option<&str>,
    strategy: &str,
    replies: &Vec<Reply>,
) -> (p: Progress)
    ensures
        p@ == progress(ctx@, name.deep_view(), strategy@, replies.deep_view()),
{
    match resolve_target(ctx.is_primary_checkout, name) {
        Err(failure) => {
            let steps = record(Vec::new(), StepResult::failed(Step::ResolveTarget, String::new()));
            assert(steps.deep_view() =~= seq![failed(Step::ResolveTarget, Seq::empty())]);
            Progress { outcome: PipelineOutcome { steps }, next: Action::Abort(failure) }
        },
        Ok(target) => resolved(ctx, &target, strategy, replies),
    }
}

fn resolved(
    ctx: &ResolutionContext,
    target: &TargetResolution,
    strategy: &str,
    replies: &Vec<Reply>,
) -> (p: Progress)
    ensures
        p@ == after_resolution(ctx@, target@, strategy@, replies.deep_view()),
{
    let path = target.path(ctx);
    if replies.len() < 1 {
        let steps: Vec<StepResult> = Vec::new();
        assert(steps.deep_view() =~= Seq::empty());
        Progress {
            outcome: PipelineOutcome { steps },
            next: Action::Run(Operation::ProbePath { path }),
        }
    } else if !replies[0].succeeded() {
        let steps = record(Vec::new(), StepResult::failed(Step::ResolveTarget, path.clone()));
        assert(steps.deep_view() =~= seq![failed(Step::ResolveTarget, path@)]);
        Progress {
            outcome: PipelineOutcome { steps },
            next: Action::Abort(Failure::WorktreeNotFound { wanted: path, named: false }),
        }
    } else {
        let steps = record(Vec::new(), StepResult::done(Step::ResolveTarget, path));
        assert(steps.deep_view() =~= seq![done(Step::ResolveTarget, path@)]);
        probed(ctx, target, strategy, replies, steps)
    }
}

fn probed(
    ctx: &ResolutionContext,
    target: &TargetResolution,
    strategy: &str,
    replies: &Vec<Reply>,
    so_far: Vec<StepResult>,
) -> (p: Progress)
    requires
        replies.len() >= 1,
    ensures
        p@ == after_probe(ctx@, target@, strategy@, replies.deep_view(), so_far.deep_view()),
{
    if replies.len() < 2 {
        Progress {
            outcome: PipelineOutcome { steps: so_far },
            next: Action::Run(Operation::QueryBranch { worktree: target.path(ctx) }),
        }
    } else {
        match get_worktree_branch(&replies[1]) {
            Err(failure) => Progress {
                outcome: PipelineOutcome {
                    steps: record(
                        so_far,
                        StepResult::failed(Step::CaptureBranch, replies[1].diagnostic()),
                    ),
                },
                next: Action::Abort(failure),
            },
            Ok(branch) => {
                let steps = record(so_far, StepResult::done(Step::CaptureBranch, branch.clone()));
                captured(ctx, target, strategy, replies, steps, branch)
            },
        }
    }
}

fn captured(
    ctx: &ResolutionContext,
    target: &TargetResolution,
    strategy: &str,
    replies: &Vec<Reply>,
    so_far: Vec<StepResult>,
    branch: String,
) -> (p: Progress)
    requires
        replies.len() >= 2,
    ensures
        p@ == after_capture(
            ctx@,
            target@,
            strategy@,
            replies.deep_view(),
            so_far.deep_view(),
            branch@,
        ),
{
    match MergeStrategy::parse(strategy) {
        Err(failure) => Progress {
            outcome: PipelineOutcome {
                steps: record(
                    so_far,
                    StepResult::failed(Step::MergePullRequest, String::from_str(strategy)),
                ),
            },
            next: Action::Abort(failure),
        },
        Ok(how) => if replies.len() < 3 {
            Progress {
                outcome: PipelineOutcome { steps: so_far },
                next: Action::Run(
                    Operation::MergePullRequest { worktree: target.path(ctx), strategy: how },
                ),
            }
        } else {
            let status = merge_status(&replies[2]);
            let merged = StepResult {
                step: Step::MergePullRequest,
                status,
                detail: replies[2].diagnostic(),
            };
            let steps = record(so_far, merged);
            match status {
                StepStatus::Failed => Progress {
                    outcome: PipelineOutcome { steps },
                    next: Action::Abort(replies[2].failure(Task::MergePullRequest)),
                },
                _ => merged_or_skipped(ctx, target, replies, steps, branch),
            }
        },
    }
}

fn merged_or_skipped(
    ctx: &ResolutionContext,
    target: &TargetResolution,
    replies: &Vec<Reply>,
    so_far: Vec<StepResult>,
    branch: String,
) -> (p: Progress)
    requires
        replies.len() >= 3,
    ensures
        p@ == after_merge(ctx@, target@, replies.deep_view(), so_far.deep_view(), branch@),
{
    let path = target.path(ctx);
    if replies.len() < 4 {
        Progress {
            outcome: PipelineOutcome { steps: so_far },
            next: Action::Run(
                Operation::RemoveWorktree { path, from: ctx.primary_checkout_path.clone() },
            ),
        }
    } else if !replies[3].succeeded() {
        Progress {
            outcome: PipelineOutcome {
                steps: record(
                    so_far,
                    StepResult::failed(Step::RemoveWorktree, replies[3].diagnostic()),
                ),
            },
            next: Action::Abort(cleanup_failure(&replies[3])),
        }
    } else {
        let steps = record(so_far, StepResult::done(Step::RemoveWorktree, path));
        removed(ctx, target, replies, steps, branch)
    }
}

fn removed(
    ctx: &ResolutionContext,
    target: &TargetResolution,
    replies: &Vec<Reply>,
    so_far: Vec<StepResult>,
    branch: String,
) -> (p: Progress)
    requires
        replies.len() >= 4,
    ensures
        p@ == after_removal(ctx@, target@, replies.deep_view(), so_far.deep_view(), branch@),
{
    let primary = ctx.primary_checkout_path.clone();
    if replies.len() < 5 {
        return Progress {
            outcome: PipelineOutcome { steps: so_far },
            next: Action::Run(Operation::DeleteLocalBranch { branch, from: primary }),
        };
    }
    let local = record(so_far, StepResult::as_replied(Step::DeleteLocalBranch, &replies[4]));
    if replies.len() < 6 {
        return Progress {
            outcome: PipelineOutcome { steps: local },
            next: Action::Run(Operation::DeleteRemoteBranch { branch, from: primary }),
        };
    }
    let remote = record(local, StepResult::as_replied(Step::DeleteRemoteBranch, &replies[5]));
    if target.requires_navigation_after_cleanup() {
        let output = print_cd_command(primary.as_str());
        Progress {
            outcome: PipelineOutcome {
                steps: record(remote, StepResult::done(Step::Navigate, primary)),
            },
            next: Action::Finish { output: Some(output) },
        }
    } else {
        Progress {
            outcome: PipelineOutcome { steps: remote },
            next: Action::Finish { output: None },
        }
    }
}

/// Every piece of outside work has its fixed place in the run, and is asked
/// for only when all that must come before it has ended well: the branch is
/// read only of a target that exists, the merge follows the reading of the
/// branch, the removal follows a merge that did not fail, and the branch is
/// deleted only once the worktree is gone.
pub proof fn lemma_steps_keep_their_order(
    ctx: ContextView,
    name: Option<Seq<char>>,
    strategy: Seq<char>,
    replies: Seq<ReplyView>,
)
    ensures
        match progress(ctx, name, strategy, replies).next {
            ActionView::Run(OperationView::ProbePath { .. }) => replies.len() == 0,
            ActionView::Run(OperationView::QueryBranch { .. }) => {
                &&& replies.len() == 1
                &&& replies[0].succeeded()
            },
            ActionView::Run(OperationView::MergePullRequest { .. }) => {
                &&& replies.len() == 2
                &&& replies[0].succeeded()
                &&& branch_of(replies[1]) is Ok
            },
            ActionView::Run(OperationView::RemoveWorktree { .. }) => {
                &&& replies.len() == 3
                &&& replies[0].succeeded()
                &&& branch_of(replies[1]) is Ok
                &&& !(merge_status_of(replies[2]) is Failed)
            },
            ActionView::Run(OperationView::DeleteLocalBranch { .. }) => {
                &&& replies.len() == 4
                &&& !(merge_status_of(replies[2]) is Failed)
                &&& replies[3].succeeded()
            },
            ActionView::Run(OperationView::DeleteRemoteBranch { .. }) => {
                &&& replies.len() == 5
                &&& !(merge_status_of(replies[2]) is Failed)
                &&& replies[3].succeeded()
            },
            ActionView::Run(_) => false,
            ActionView::Finish { .. } => {
                &&& replies.len() >= 6
                &&& !(merge_status_of(replies[2]) is Failed)
                &&& replies[3].succeeded()
            },
            ActionView::Abort(_) => true,
        },
{
}

/// Nothing that changes the repository or the hosting service is asked for
/// unless the target exists and its branch is known.
pub proof fn lemma_no_harm_without_a_target(
    ctx: ContextView,
    name: Option<Seq<char>>,
    strategy: Seq<char>,
    replies: Seq<ReplyView>,
)
    ensures
        progress(ctx, name, strategy, replies).next matches ActionView::Run(operation)
            && operation.is_destructive() ==> {
            &&& replies.len() >= 2
            &&& replies[0].succeeded()
            &&& branch_of(replies[1]) is Ok
        },
{
    lemma_steps_keep_their_order(ctx, name, strategy, replies);
}

/// The branch that is deleted, here and on the remote, is the one that was
/// read before the worktree was removed: the later replies have no say in
/// it. Removal and deletions are done from the primary checkout.
pub proof fn lemma_branch_is_read_once(
    ctx: ContextView,
    name: Option<Seq<char>>,
    strategy: Seq<char>,
    replies: Seq<ReplyView>,
)
    ensures
        match progress(ctx, name, strategy, replies).next {
            ActionView::Run(OperationView::DeleteLocalBranch { branch, from }) => {
                &&& branch_of(replies[1]) == Ok::<Seq<char>, FailureView>(branch)
                &&& from == ctx.primary_checkout_path
            },
            ActionView::Run(OperationView::DeleteRemoteBranch { branch, from }) => {
                &&& branch_of(replies[1]) == Ok::<Seq<char>, FailureView>(branch)
                &&& from == ctx.primary_checkout_path
            },
            ActionView::Run(OperationView::RemoveWorktree { path, from }) => from
                == ctx.primary_checkout_path,
            _ => true,
        },
{
}

/// The command has failed exactly when the run was stopped, and a run that
/// came to its end has not failed.
pub proof fn lemma_outcome_tells_the_end(
    ctx: ContextView,
    name: Option<Seq<char>>,
    strategy: Seq<char>,
    replies: Seq<ReplyView>,
)
    ensures
        command_failed(progress(ctx, name, strategy, replies).outcome) <==> progress(
            ctx,
            name,
            strategy,
            replies,
        ).next is Abort,
{
    let p = progress(ctx, name, strategy, replies);
    if p.next is Abort {
        let last = p.outcome.len() - 1;
        assert(p.outcome[last].status is Failed && is_hard(p.outcome[last].step));
    } else {
        assert forall|i: int| 0 <= i < p.outcome.len() implies !((#[trigger] p.outcome[i]).status
            is Failed && is_hard(p.outcome[i].step)) by {}
    }
}

/// When the hosting service answers the merge by saying that there is no
/// pull request, the step is recorded as skipped and the run goes on as
/// after a merge: it asks for the removal, and after that for the two
/// deletions.
pub proof fn lemma_missing_pull_request_is_skipped(
    ctx: ContextView,
    name: Option<Seq<char>>,
    strategy: Seq<char>,
    replies: Seq<ReplyView>,
)
    requires
        arrives_at_merge(ctx, name, strategy, replies),
        replies.len() >= 3,
        reports_no_pull_request(replies[2]),
    ensures
        progress(ctx, name, strategy, replies).outcome[2] == (StepResultView {
            step: Step::MergePullRequest,
            status: StepStatus::SkippedNoPullRequest,
            detail: replies[2].diagnostic(),
        }),
        progress(ctx, name, strategy, replies.take(3)).next matches ActionView::Run(
            OperationView::RemoveWorktree { .. },
        ),
        replies.len() >= 4 && replies[3].succeeded() ==> progress(
            ctx,
            name,
            strategy,
            replies.take(4),
        ).next matches ActionView::Run(OperationView::DeleteLocalBranch { .. }),
        replies.len() >= 5 && replies[3].succeeded() ==> progress(
            ctx,
            name,
            strategy,
            replies.take(5),
        ).next matches ActionView::Run(OperationView::DeleteRemoteBranch { .. }),
        replies.len() >= 6 && replies[3].succeeded() ==> progress(
            ctx,
            name,
            strategy,
            replies,
        ).next is Finish,
{
    lemma_steps_keep_their_order(ctx, name, strategy, replies.take(2));
}

/// When the merge fails in any other way, the run is stopped for good: the
/// command has failed, and however many replies follow, neither the removal
/// of the worktree nor the deletion of a branch is ever asked for.
pub proof fn lemma_failed_merge_stops_the_run(
    ctx: ContextView,
    name: Option<Seq<char>>,
    strategy: Seq<char>,
    replies: Seq<ReplyView>,
)
    requires
        arrives_at_merge(ctx, name, strategy, replies),
        replies.len() >= 3,
        !replies[2].succeeded(),
        !reports_no_pull_request(replies[2]),
    ensures
        progress(ctx, name, strategy, replies).next == ActionView::Abort(
            failure_of(replies[2], Task::MergePullRequest),
        ),
        command_failed(progress(ctx, name, strategy, replies).outcome),
        forall|k: int|
            0 <= k <= replies.len() ==> !({
                &&& (#[trigger] progress(ctx, name, strategy, replies.take(k))).next
                    matches ActionView::Run(operation)
                &&& (operation is RemoveWorktree || operation is DeleteLocalBranch
                    || operation is DeleteRemoteBranch)
            }),
{
    lemma_steps_keep_their_order(ctx, name, strategy, replies.take(2));
    lemma_outcome_tells_the_end(ctx, name, strategy, replies);
    assert forall|k: int| 0 <= k <= replies.len() implies !({
        &&& (#[trigger] progress(ctx, name, strategy, replies.take(k))).next matches ActionView::Run(
            operation,
        )
        &&& (operation is RemoveWorktree || operation is DeleteLocalBranch
            || operation is DeleteRemoteBranch)
    }) by {
        lemma_steps_keep_their_order(ctx, name, strategy, replies.take(k));
    }
}

/// Once the worktree is removed, nothing that comes of deleting the branch,
/// here or on the remote, changes how the command ends: it comes to its end
/// and has not failed. Each deletion is recorded as its reply says, and a
/// deletion that failed is never reported as an error.
pub proof fn lemma_branch_deletion_never_fails_the_command(
    ctx: ContextView,
    name: Option<Seq<char>>,
    strategy: Seq<char>,
    replies: Seq<ReplyView>,
)
    requires
        arrives_at_deletion(ctx, name, strategy, replies),
        replies.len() >= 6,
    ensures
        progress(ctx, name, strategy, replies).next is Finish,
        !command_failed(progress(ctx, name, strategy, replies).outcome),
        progress(ctx, name, strategy, replies).outcome[4] == as_replied(
            Step::DeleteLocalBranch,
            replies[4],
        ),
        progress(ctx, name, strategy, replies).outcome[5] == as_replied(
            Step::DeleteRemoteBranch,
            replies[5],
        ),
        !replies[4].succeeded() ==> severity_of(progress(ctx, name, strategy, replies).outcome[4])
            is Warning,
        !(severity_of(progress(ctx, name, strategy, replies).outcome[5]) is Error),
{
    lemma_steps_keep_their_order(ctx, name, strategy, replies.take(4));
    lemma_outcome_tells_the_end(ctx, name, strategy, replies);
}

/// The caller is moved to the primary checkout exactly when the run ends
/// and the target was where the caller stood.
pub proof fn lemma_navigation_follows_the_target(
    ctx: ContextView,
    name: Option<Seq<char>>,
    strategy: Seq<char>,
    replies: Seq<ReplyView>,
)
    ensures
        progress(ctx, name, strategy, replies).next matches ActionView::Finish { output } ==> output
            == if !ctx.is_primary_checkout && name is None {
            Some(cd_command(ctx.primary_checkout_path))
        } else {
            None::<Seq<char>>
        },
{
}

} // verus!
