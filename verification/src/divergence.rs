//! How far a repository has moved from its upstream, judged from the output
//! of two version-control queries.

use vstd::prelude::*;

verus! {

/// The byte that ends one record of a query's output.
pub const TERMINATOR: u8 = 0x0A;

/// Number of record terminators in `bytes`.
pub open spec fn terminator_count(bytes: Seq<u8>) -> nat
    decreases bytes.len(),
{
    if bytes.len() == 0 {
        0
    } else {
        terminator_count(bytes.drop_last()) + if bytes.last() == TERMINATOR {
            1nat
        } else {
            0nat
        }
    }
}

/// A count never exceeds the length of what was counted.
pub proof fn lemma_terminator_count_bounded(bytes: Seq<u8>)
    ensures
        terminator_count(bytes) <= bytes.len(),
    decreases bytes.len(),
{
    if bytes.len() > 0 {
        lemma_terminator_count_bounded(bytes.drop_last());
    }
}

/// Counts the record terminators in one output stream.
pub fn count_terminators(bytes: &[u8]) -> (count: usize)
    ensures
        count == terminator_count(bytes@),
{
    let mut count: usize = 0;
    let mut i: usize = 0;
    while i < bytes.len()
        invariant
            i <= bytes.len(),
            count == terminator_count(bytes@.take(i as int)),
            count <= i,
        decreases bytes.len() - i,
    {
        assert(bytes@.take(i as int + 1).drop_last() == bytes@.take(i as int));
        if bytes[i] == TERMINATOR {
            count = count + 1;
        }
        i = i + 1;
    }
    assert(bytes@.take(i as int) == bytes@);
    count
}

/// What one version-control query wrote.
#[derive(Clone, Debug, PartialEq, Eq)]
pub struct QueryOutput {
    /// The output stream.
    pub stdout: Vec<u8>,
    /// The error stream.
    pub stderr: Vec<u8>,
}

/// A `QueryOutput` with its streams as sequences of bytes.
pub struct QueryModel {
    pub stdout: Seq<u8>,
    pub stderr: Seq<u8>,
}

impl View for QueryOutput {
    type V = QueryModel;

    open spec fn view(&self) -> QueryModel {
        QueryModel { stdout: self.stdout@, stderr: self.stderr@ }
    }
}

/// How a repository stands to its upstream.
#[derive(Clone, Copy, Debug, PartialEq, Eq, Structural)]
pub enum DivergenceTier {
    /// Nothing differs from upstream and the working tree holds no change.
    Clean,
    /// The number of changed records, upstream difference and working tree
    /// together. Never zero. The type is wide enough for the sum of two lengths.
    Diverged(u128),
    /// The upstream could not be compared with.
    QueryFailed,
}

/// What the inspection of one repository found.
#[derive(Clone, Debug, PartialEq, Eq)]
pub struct DivergenceReport {
    pub tier: DivergenceTier,
    /// Where the tier is `QueryFailed`: what the upstream query wrote to its
    /// error stream, or why a query could not be run. Empty otherwise.
    pub diagnostic: Vec<u8>,
}

/// A `DivergenceReport` with its diagnostic as a sequence of bytes.
pub struct DivergenceModel {
    pub tier: DivergenceTier,
    pub diagnostic: Seq<u8>,
}

impl View for DivergenceReport {
    type V = DivergenceModel;

    open spec fn view(&self) -> DivergenceModel {
        DivergenceModel { tier: self.tier, diagnostic: self.diagnostic@ }
    }
}

/// The changed records that two queries report together.
pub open spec fn changed_records(upstream: QueryModel, status: QueryModel) -> nat {
    terminator_count(upstream.stdout) + terminator_count(status.stdout)
}

/// The tier that follows from the upstream query and the working-tree query.
/// An upstream query that wrote to its error stream has failed, whatever the
/// working tree says.
pub open spec fn tier_of(upstream: QueryModel, status: QueryModel) -> DivergenceTier {
    if upstream.stderr.len() > 0 {
        DivergenceTier::QueryFailed
    } else if changed_records(upstream, status) == 0 {
        DivergenceTier::Clean
    } else {
        DivergenceTier::Diverged(changed_records(upstream, status) as u128)
    }
}

/// The report that follows from the upstream query and the working-tree query.
pub open spec fn report_of(upstream: QueryModel, status: QueryModel) -> DivergenceModel {
    DivergenceModel {
        tier: tier_of(upstream, status),
        diagnostic: if upstream.stderr.len() > 0 {
            upstream.stderr
        } else {
            Seq::empty()
        },
    }
}

/// Classifies a repository from what the upstream query and the working-tree
/// query wrote.
pub fn classify(upstream: &QueryOutput, status: &QueryOutput) -> (report: DivergenceReport)
    ensures
        report@ == report_of(upstream@, status@),
{
    if upstream.stderr.len() > 0 {
        let diagnostic = upstream.stderr.clone();
        return DivergenceReport { tier: DivergenceTier::QueryFailed, diagnostic };
    }
    let ahead: usize = count_terminators(upstream.stdout.as_slice());
    let dirty: usize = count_terminators(status.stdout.as_slice());
    let changed: u128 = ahead as u128 + dirty as u128;
    let tier = if changed == 0 {
        DivergenceTier::Clean
    } else {
        DivergenceTier::Diverged(changed)
    };
    DivergenceReport { tier, diagnostic: Vec::new() }
}

/// `Diverged` always carries the sum of the two terminator counts, and that
/// sum is never zero: a sum of zero is `Clean`.
pub proof fn lemma_diverged_counts_terminators(upstream: QueryModel, status: QueryModel)
    requires
        upstream.stdout.len() <= usize::MAX,
        status.stdout.len() <= usize::MAX,
    ensures
        tier_of(upstream, status) matches DivergenceTier::Diverged(n) ==> n > 0 && n
            == terminator_count(upstream.stdout) + terminator_count(status.stdout),
        upstream.stderr.len() == 0 ==> (tier_of(upstream, status) == DivergenceTier::Clean
            <==> terminator_count(upstream.stdout) + terminator_count(status.stdout) == 0),
{
    lemma_terminator_count_bounded(upstream.stdout);
    lemma_terminator_count_bounded(status.stdout);
}

/// An upstream query that wrote to its error stream gives `QueryFailed`,
/// never `Clean` or `Diverged`, whatever the working-tree query wrote.
pub proof fn lemma_upstream_error_is_failure(upstream: QueryModel, status: QueryModel)
    requires
        upstream.stderr.len() > 0,
    ensures
        tier_of(upstream, status) == DivergenceTier::QueryFailed,
{
}

/// The two names under which the upstream branch is looked for, in this order.
#[derive(Clone, Copy, Debug, PartialEq, Eq, Structural)]
pub enum Branch {
    Primary,
    Secondary,
}

/// A query that an inspection asks the version-control tool.
#[derive(Clone, Copy, Debug, PartialEq, Eq, Structural)]
pub enum Query {
    /// What the index holds that the upstream branch does not, one record per file.
    UpstreamDiff(Branch),
    /// The changes in the working tree, one record per entry.
    WorkingTreeStatus,
}

/// The program that answers the queries.
pub const PROGRAM: &'static str = "git";

impl Branch {
    /// The reference that names this branch.
    pub open spec fn reference_spec(self) -> Seq<char> {
        match self {
            Branch::Primary => "origin/main"@,
            Branch::Secondary => "origin/master"@,
        }
    }

    /// The reference that names this branch.
    pub fn reference(self) -> (name: &'static str)
        ensures
            name@ == self.reference_spec(),
    {
        match self {
            Branch::Primary => "origin/main",
            Branch::Secondary => "origin/master",
        }
    }
}

impl Query {
    /// The arguments that ask this query of the program.
    pub open spec fn arguments_spec(self) -> Seq<Seq<char>> {
        match self {
            Query::UpstreamDiff(branch) => seq![
                "diff"@,
                "--numstat"@,
                "--cached"@,
                branch.reference_spec(),
            ],
            Query::WorkingTreeStatus => seq!["status"@, "-s"@],
        }
    }

    /// The arguments that ask this query of the program.
    pub fn arguments(self) -> (args: Vec<&'static str>)
        ensures
            args.deep_view() == self.arguments_spec(),
    {
        let mut args: Vec<&'static str> = Vec::new();
        match self {
            Query::UpstreamDiff(branch) => {
                args.push("diff");
                args.push("--numstat");
                args.push("--cached");
                args.push(branch.reference());
            },
            Query::WorkingTreeStatus => {
                args.push("status");
                args.push("-s");
            },
        }
        args
    }
}

/// An inspection under way: the query that is outstanding, and what was
/// learnt so far.
#[derive(Clone, Debug, PartialEq, Eq)]
pub enum Inspector {
    /// The upstream query against this branch is outstanding.
    AwaitingUpstream(Branch),
    /// The upstream query wrote this; the working-tree query is outstanding.
    AwaitingStatus(QueryOutput),
}

/// An `Inspector` with its streams as sequences of bytes.
pub enum InspectorModel {
    AwaitingUpstream(Branch),
    AwaitingStatus(QueryModel),
}

impl View for Inspector {
    type V = InspectorModel;

    open spec fn view(&self) -> InspectorModel {
        match self {
            Inspector::AwaitingUpstream(branch) => InspectorModel::AwaitingUpstream(*branch),
            Inspector::AwaitingStatus(upstream) => InspectorModel::AwaitingStatus(upstream@),
        }
    }
}

/// What an inspection does next.
#[derive(Clone, Debug, PartialEq, Eq)]
pub enum Step {
    /// Ask this query, and hand its output to the inspector beside it.
    Ask(Inspector, Query),
    /// The inspection is over.
    Done(DivergenceReport),
}

/// A `Step` with its streams as sequences of bytes.
pub enum StepModel {
    Ask(InspectorModel, Query),
    Done(DivergenceModel),
}

impl View for Step {
    type V = StepModel;

    open spec fn view(&self) -> StepModel {
        match self {
            Step::Ask(inspector, query) => StepModel::Ask(inspector@, *query),
            Step::Done(report) => StepModel::Done(report@),
        }
    }
}

/// How an inspection starts: with the upstream query against the primary branch.
pub open spec fn first_step() -> StepModel {
    StepModel::Ask(
        InspectorModel::AwaitingUpstream(Branch::Primary),
        Query::UpstreamDiff(Branch::Primary),
    )
}

/// What an inspection does once the outstanding query has written `answer`.
/// The secondary branch is tried where the primary one gave an error; the
/// working tree is asked for in every case.
pub open spec fn next_step(inspector: InspectorModel, answer: QueryModel) -> StepModel {
    match inspector {
        InspectorModel::AwaitingUpstream(Branch::Primary) => if answer.stderr.len() > 0 {
            StepModel::Ask(
                InspectorModel::AwaitingUpstream(Branch::Secondary),
                Query::UpstreamDiff(Branch::Secondary),
            )
        } else {
            StepModel::Ask(InspectorModel::AwaitingStatus(answer), Query::WorkingTreeStatus)
        },
        InspectorModel::AwaitingUpstream(Branch::Secondary) => StepModel::Ask(
            InspectorModel::AwaitingStatus(answer),
            Query::WorkingTreeStatus,
        ),
        InspectorModel::AwaitingStatus(upstream) => StepModel::Done(report_of(upstream, answer)),
    }
}

/// How an inspection ends when the outstanding query could not be run: the
/// state of the repository is not known, and `reason` says why.
pub open spec fn abandoned(reason: Seq<u8>) -> StepModel {
    StepModel::Done(DivergenceModel { tier: DivergenceTier::QueryFailed, diagnostic: reason })
}

impl Inspector {
    /// Starts an inspection.
    pub fn begin() -> (step: Step)
        ensures
            step@ == first_step(),
    {
        Step::Ask(
            Inspector::AwaitingUpstream(Branch::Primary),
            Query::UpstreamDiff(Branch::Primary),
        )
    }

    /// Takes the output of the outstanding query and says what comes next.
    pub fn advance(self, answer: QueryOutput) -> (step: Step)
        ensures
            step@ == next_step(self@, answer@),
    {
        match self {
            Inspector::AwaitingUpstream(Branch::Primary) => if answer.stderr.len() > 0 {
                Step::Ask(
                    Inspector::AwaitingUpstream(Branch::Secondary),
                    Query::UpstreamDiff(Branch::Secondary),
                )
            } else {
                Step::Ask(Inspector::AwaitingStatus(answer), Query::WorkingTreeStatus)
            },
            Inspector::AwaitingUpstream(Branch::Secondary) => Step::Ask(
                Inspector::AwaitingStatus(answer),
                Query::WorkingTreeStatus,
            ),
            Inspector::AwaitingStatus(upstream) => Step::Done(classify(&upstream, &answer)),
        }
    }

    /// Ends the inspection because the outstanding query could not be run,
    /// whichever query it was. `reason` says why, for the report.
    pub fn abandon(self, reason: Vec<u8>) -> (step: Step)
        ensures
            step@ == abandoned(reason@),
    {
        Step::Done(DivergenceReport { tier: DivergenceTier::QueryFailed, diagnostic: reason })
    }
}

/// A repository as an inspection sees it: what each query writes.
pub struct Repository {
    pub primary: QueryModel,
    pub secondary: QueryModel,
    pub status: QueryModel,
}

impl Repository {
    /// What the repository answers to `query`.
    pub open spec fn answer(self, query: Query) -> QueryModel {
        match query {
            Query::UpstreamDiff(Branch::Primary) => self.primary,
            Query::UpstreamDiff(Branch::Secondary) => self.secondary,
            Query::WorkingTreeStatus => self.status,
        }
    }

    /// The upstream answer that counts: the secondary branch's where the
    /// primary one gave an error.
    pub open spec fn upstream(self) -> QueryModel {
        if self.primary.stderr.len() > 0 {
            self.secondary
        } else {
            self.primary
        }
    }

    /// The report that an inspection of this repository ends with.
    pub open spec fn inspection(self) -> DivergenceModel {
        report_of(self.upstream(), self.status)
    }
}

/// The report that `step` leads to when every query is answered by
/// `repository`, if it comes within `limit` queries.
pub open spec fn outcome(step: StepModel, repository: Repository, limit: nat) -> Option<
    DivergenceModel,
>
    decreases limit,
{
    match step {
        StepModel::Done(report) => Some(report),
        StepModel::Ask(inspector, query) => if limit == 0 {
            None
        } else {
            outcome(
                next_step(inspector, repository.answer(query)),
                repository,
                (limit - 1) as nat,
            )
        },
    }
}

/// An inspection ends within three queries, with the report of the upstream
/// answer that counts and of the working tree.
pub proof fn lemma_inspection_ends(repository: Repository)
    ensures
        outcome(first_step(), repository, 3) == Some(repository.inspection()),
{
    reveal_with_fuel(outcome, 4);
}

/// Inspecting a repository twice, with nothing changed in between, gives the
/// same tier and the same count.
pub proof fn lemma_inspection_is_repeatable(first: Repository, second: Repository)
    requires
        first.primary == second.primary,
        first.secondary == second.secondary,
        first.status == second.status,
    ensures
        outcome(first_step(), first, 3) == outcome(first_step(), second, 3),
        first.inspection().tier == second.inspection().tier,
{
    lemma_inspection_ends(first);
    lemma_inspection_ends(second);
}

/// Where both upstream queries wrote to their error streams, the inspection
/// ends with `QueryFailed`, whatever the working-tree query wrote.
pub proof fn lemma_unresolved_upstream_fails(repository: Repository)
    requires
        repository.primary.stderr.len() > 0,
        repository.secondary.stderr.len() > 0,
    ensures
        outcome(first_step(), repository, 3) matches Some(report) && report.tier
            == DivergenceTier::QueryFailed,
{
    lemma_inspection_ends(repository);
}

} // verus!
