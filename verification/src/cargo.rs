//! The report on the projects below one root, and the plan of a
//! cross-compilation.

use crate::hygiene::compliance_of;
use crate::manifest::{package_id, package_id_of_text, PackageIdModel, ParseError};
use crate::registry::{Project, ProjectModel};
use crate::report::{
    compliance_token, edition_token, render_compliance, render_edition, ColorClass, Token,
    TokenModel,
};
use crate::text::{decimal, padded_left, padded_right, space_padded, zero_padded};
use vstd::prelude::*;
use vstd::string::*;

verus! {

/// How a cross-compilation is to be done.
#[derive(Clone, Copy, Debug, PartialEq, Eq, Structural)]
pub struct BuildParams {
    /// Compress each executable once it is built.
    pub use_upx: bool,
    /// Build with the release profile.
    pub release: bool,
}

/// What to do with the projects.
#[derive(Clone, Copy, Debug, PartialEq, Eq, Structural)]
pub enum Command {
    Audit,
    Clean,
    Info,
    Update,
    BuildWin(BuildParams),
}

impl Command {
    /// The build tool's subcommand that this command runs in every project.
    /// `Info` only reports, and `BuildWin` builds the one project at hand.
    pub open spec fn action_spec(self) -> Option<Seq<char>> {
        match self {
            Command::Audit => Some("audit"@),
            Command::Clean => Some("clean"@),
            Command::Update => Some("update"@),
            Command::Info => None,
            Command::BuildWin(_) => None,
        }
    }

    /// The build tool's subcommand that this command runs in every project.
    pub fn action(&self) -> (name: Option<&'static str>)
        ensures
            name.deep_view() == self.action_spec(),
    {
        match self {
            Command::Audit => Some("audit"),
            Command::Clean => Some("clean"),
            Command::Update => Some("update"),
            Command::Info => None,
            Command::BuildWin(_) => None,
        }
    }
}

/// What came of acting in a project's directory.
#[derive(Clone, Copy, Debug, PartialEq, Eq, Structural)]
pub enum ActionOutcome {
    /// The directory could not be entered.
    Unreachable,
    /// The action ran, or there was none to run.
    Succeeded,
    /// The action could not be run.
    Failed,
}

/// A project with what came of acting in it.
#[derive(Clone, Debug, PartialEq, Eq)]
pub struct Visit {
    pub project: Project,
    pub outcome: ActionOutcome,
}

/// A `Visit` with its strings as sequences of characters.
pub struct VisitModel {
    pub project: ProjectModel,
    pub outcome: ActionOutcome,
}

impl DeepView for Visit {
    type V = VisitModel;

    open spec fn deep_view(&self) -> VisitModel {
        VisitModel { project: self.project.deep_view(), outcome: self.outcome }
    }
}

/// One line of a report: five cells, each as wide as its column.
#[derive(Clone, Debug, PartialEq, Eq)]
pub struct Row {
    pub index: Token,
    pub edition: Token,
    pub release: Token,
    pub name: Token,
    pub path: Token,
}

/// A `Row` with its strings as sequences of characters.
pub struct RowModel {
    pub index: TokenModel,
    pub edition: TokenModel,
    pub release: TokenModel,
    pub name: TokenModel,
    pub path: TokenModel,
}

impl DeepView for Row {
    type V = RowModel;

    open spec fn deep_view(&self) -> RowModel {
        RowModel {
            index: self.index.deep_view(),
            edition: self.edition.deep_view(),
            release: self.release.deep_view(),
            name: self.name.deep_view(),
            path: self.path.deep_view(),
        }
    }
}

/// The report on one root.
#[derive(Clone, Debug, PartialEq, Eq)]
pub struct Report {
    /// The root that was scanned.
    pub path: String,
    /// How many projects were found below it.
    pub total: usize,
    pub rows: Vec<Row>,
}

/// A `Report` with its strings as sequences of characters.
pub struct ReportModel {
    pub path: Seq<char>,
    pub total: usize,
    pub rows: Seq<RowModel>,
}

impl DeepView for Report {
    type V = ReportModel;

    open spec fn deep_view(&self) -> ReportModel {
        ReportModel { path: self.path@, total: self.total, rows: self.rows.deep_view() }
    }
}

/// Digits that a row's number is written with at least.
pub const INDEX_WIDTH: usize = 4;

/// Width of the edition column.
pub const EDITION_WIDTH: usize = 5;

/// Width of the release column.
pub const RELEASE_WIDTH: usize = 4;

/// Width of the name column.
pub const NAME_WIDTH: usize = 24;

/// The row of the project that was visited as number `position`, counted
/// from one: its number, edition, release hygiene, name and place.
pub open spec fn row_of(position: nat, visit: VisitModel, current: Seq<char>) -> RowModel {
    let edition = edition_token(visit.project.metadata.edition, current);
    let release = compliance_token(compliance_of(visit.project.metadata));
    RowModel {
        index: TokenModel {
            symbol: padded_left(decimal(position), '0', INDEX_WIDTH as nat).push(' '),
            color: if visit.outcome == ActionOutcome::Failed {
                ColorClass::Negative
            } else {
                ColorClass::Positive
            },
        },
        edition: TokenModel {
            symbol: padded_right(edition.symbol, ' ', EDITION_WIDTH as nat),
            color: edition.color,
        },
        release: TokenModel {
            symbol: padded_right(release.symbol, ' ', RELEASE_WIDTH as nat),
            color: release.color,
        },
        name: TokenModel {
            symbol: padded_right(visit.project.metadata.name, ' ', NAME_WIDTH as nat),
            color: ColorClass::Neutral,
        },
        path: TokenModel { symbol: visit.project.root.display_name, color: ColorClass::Neutral },
    }
}

/// The rows of a report: one for each project whose directory could be
/// entered, in the order of the visits. A project keeps its number whether
/// or not the ones before it have a row.
pub open spec fn rows_of(visits: Seq<VisitModel>, current: Seq<char>) -> Seq<RowModel>
    decreases visits.len(),
{
    if visits.len() == 0 {
        Seq::empty()
    } else {
        let before = rows_of(visits.drop_last(), current);
        if visits.last().outcome == ActionOutcome::Unreachable {
            before
        } else {
            before.push(row_of(visits.len(), visits.last(), current))
        }
    }
}

/// Makes the row of the project that was visited as number `position`.
pub fn report_row(position: usize, visit: &Visit, current: &str) -> (row: Row)
    ensures
        row.deep_view() == row_of(position as nat, visit.deep_view(), current@),
{
    let mut number = zero_padded(position as u128, INDEX_WIDTH);
    proof {
        reveal_strlit(" ");
    }
    number.append(" ");
    assert(number@ =~= padded_left(decimal(position as nat), '0', INDEX_WIDTH as nat).push(' '));
    let index_color = match visit.outcome {
        ActionOutcome::Failed => ColorClass::Negative,
        _ => ColorClass::Positive,
    };
    let edition = render_edition(&visit.project.metadata.edition, current);
    let release = render_compliance(visit.project.metadata.compliance_tier());
    Row {
        index: Token { symbol: number, color: index_color },
        edition: Token {
            symbol: space_padded(edition.symbol.as_str(), EDITION_WIDTH),
            color: edition.color,
        },
        release: Token {
            symbol: space_padded(release.symbol.as_str(), RELEASE_WIDTH),
            color: release.color,
        },
        name: Token {
            symbol: space_padded(visit.project.metadata.name.as_str(), NAME_WIDTH),
            color: ColorClass::Neutral,
        },
        path: Token { symbol: visit.project.root.display_name.clone(), color: ColorClass::Neutral },
    }
}

/// Reports on the projects below `root`: how many there are, and a row for
/// each one whose directory could be entered. `current` is the current edition.
pub fn cmd(root: &str, visits: &Vec<Visit>, current: &str) -> (report: Report)
    ensures
        report.deep_view() == (ReportModel {
            path: root@,
            total: visits.len(),
            rows: rows_of(visits.deep_view(), current@),
        }),
{
    let mut rows: Vec<Row> = Vec::new();
    let mut i: usize = 0;
    while i < visits.len()
        invariant
            i <= visits.len(),
            rows.deep_view() == rows_of(visits.deep_view().take(i as int), current@),
        decreases visits.len() - i,
    {
        let ghost next = visits.deep_view().take(i as int + 1);
        assert(next.drop_last() == visits.deep_view().take(i as int));
        match visits[i].outcome {
            ActionOutcome::Unreachable => {},
            _ => rows.push(report_row(i + 1, &visits[i], current)),
        }
        i = i + 1;
    }
    assert(visits.deep_view().take(i as int) == visits.deep_view());
    Report { path: root.to_owned(), total: visits.len(), rows }
}

/// One program to run, with its arguments.
#[derive(Clone, Debug, PartialEq, Eq)]
pub struct Invocation {
    pub program: String,
    pub arguments: Vec<String>,
}

/// An `Invocation` with its strings as sequences of characters.
pub struct InvocationModel {
    pub program: Seq<char>,
    pub arguments: Seq<Seq<char>>,
}

impl DeepView for Invocation {
    type V = InvocationModel;

    open spec fn deep_view(&self) -> InvocationModel {
        InvocationModel { program: self.program@, arguments: self.arguments.deep_view() }
    }
}

/// What is run to build for one target, in this order.
#[derive(Clone, Debug, PartialEq, Eq)]
pub struct TargetBuild {
    pub target: String,
    pub steps: Vec<Invocation>,
}

/// A `TargetBuild` with its strings as sequences of characters.
pub struct TargetBuildModel {
    pub target: Seq<char>,
    pub steps: Seq<InvocationModel>,
}

impl DeepView for TargetBuild {
    type V = TargetBuildModel;

    open spec fn deep_view(&self) -> TargetBuildModel {
        TargetBuildModel { target: self.target@, steps: self.steps.deep_view() }
    }
}

/// The plan of a cross-compilation: the package, and the builds in order.
#[derive(Clone, Debug, PartialEq, Eq)]
pub struct BuildPlan {
    pub name: String,
    pub version: String,
    pub builds: Vec<TargetBuild>,
}

/// A `BuildPlan` with its strings as sequences of characters.
pub struct BuildPlanModel {
    pub name: Seq<char>,
    pub version: Seq<char>,
    pub builds: Seq<TargetBuildModel>,
}

impl DeepView for BuildPlan {
    type V = BuildPlanModel;

    open spec fn deep_view(&self) -> BuildPlanModel {
        BuildPlanModel { name: self.name@, version: self.version@, builds: self.builds.deep_view() }
    }
}

/// The directory of the build tool's output for a profile.
pub open spec fn profile_directory(params: BuildParams) -> Seq<char> {
    if params.release {
        "release"@
    } else {
        "debug"@
    }
}

/// Where the build tool leaves the executable of package `name` for `target`.
pub open spec fn built_path(name: Seq<char>, target: Seq<char>, params: BuildParams) -> Seq<char> {
    "./target/"@ + target + "/"@ + profile_directory(params) + "/"@ + name + ".exe"@
}

/// Where the executable is delivered: in `share`, under a name that tells
/// package, version and architecture.
pub open spec fn delivered_path(
    id: PackageIdModel,
    architecture: Seq<char>,
    share: Seq<char>,
) -> Seq<char> {
    share + "/"@ + id.name + "-v"@ + id.version + "-windows-"@ + architecture + ".exe"@
}

/// The build for one target: build, deliver, and compress where asked for.
pub open spec fn target_build_of(
    id: PackageIdModel,
    target: Seq<char>,
    architecture: Seq<char>,
    params: BuildParams,
    share: Seq<char>,
) -> TargetBuildModel {
    let build = InvocationModel {
        program: "cargo"@,
        arguments: if params.release {
            seq!["build"@, "--target"@, target, "--release"@]
        } else {
            seq!["build"@, "--target"@, target]
        },
    };
    let deliver = InvocationModel {
        program: "cp"@,
        arguments: seq![
            built_path(id.name, target, params),
            delivered_path(id, architecture, share),
        ],
    };
    let compress = InvocationModel {
        program: "upx"@,
        arguments: seq![delivered_path(id, architecture, share)],
    };
    TargetBuildModel {
        target,
        steps: if params.use_upx {
            seq![build, deliver, compress]
        } else {
            seq![build, deliver]
        },
    }
}

/// The plan for a package: the 64-bit target first, then the 32-bit one.
pub open spec fn build_plan_of(
    id: PackageIdModel,
    params: BuildParams,
    share: Seq<char>,
) -> BuildPlanModel {
    BuildPlanModel {
        name: id.name,
        version: id.version,
        builds: seq![
            target_build_of(id, "x86_64-pc-windows-gnu"@, "x86_64"@, params, share),
            target_build_of(id, "i686-pc-windows-gnu"@, "x86_32"@, params, share),
        ],
    }
}

fn target_build(
    name: &str,
    version: &str,
    target: &str,
    architecture: &str,
    params: &BuildParams,
    share: &str,
) -> (build: TargetBuild)
    ensures
        build.deep_view() == target_build_of(
            PackageIdModel { name: name@, version: version@ },
            target@,
            architecture@,
            *params,
            share@,
        ),
{
    let ghost id = PackageIdModel { name: name@, version: version@ };
    let mut build_arguments: Vec<String> = Vec::new();
    build_arguments.push("build".to_owned());
    build_arguments.push("--target".to_owned());
    build_arguments.push(target.to_owned());
    if params.release {
        build_arguments.push("--release".to_owned());
    }
    let directory = if params.release {
        "release"
    } else {
        "debug"
    };
    let mut built = "./target/".to_owned();
    built.append(target);
    built.append("/");
    built.append(directory);
    built.append("/");
    built.append(name);
    built.append(".exe");
    let mut delivered = share.to_owned();
    delivered.append("/");
    delivered.append(name);
    delivered.append("-v");
    delivered.append(version);
    delivered.append("-windows-");
    delivered.append(architecture);
    delivered.append(".exe");
    let mut copy_arguments: Vec<String> = Vec::new();
    copy_arguments.push(built);
    copy_arguments.push(delivered.clone());
    let build_step = Invocation { program: "cargo".to_owned(), arguments: build_arguments };
    let deliver_step = Invocation { program: "cp".to_owned(), arguments: copy_arguments };
    let ghost expected = target_build_of(id, target@, architecture@, *params, share@);
    assert(build_step.deep_view().arguments =~= expected.steps[0].arguments);
    assert(deliver_step.deep_view().arguments =~= expected.steps[1].arguments);
    let mut steps: Vec<Invocation> = Vec::new();
    steps.push(build_step);
    steps.push(deliver_step);
    if params.use_upx {
        let mut compress_arguments: Vec<String> = Vec::new();
        compress_arguments.push(delivered);
        let compress_step = Invocation { program: "upx".to_owned(), arguments: compress_arguments };
        assert(compress_step.deep_view().arguments =~= expected.steps[2].arguments);
        steps.push(compress_step);
    }
    assert(steps.deep_view() =~= expected.steps);
    TargetBuild { target: target.to_owned(), steps }
}

/// Plans the cross-compilation of the package whose manifest has the text
/// `manifest`. The executables are delivered in the directory `share`.
pub fn build_windows(manifest: &str, params: &BuildParams, share: &str) -> (plan: Result<
    BuildPlan,
    ParseError,
>)
    ensures
        match plan {
            Ok(plan) => package_id_of_text(manifest@) matches Ok(id) && plan.deep_view()
                == build_plan_of(id, *params, share@),
            Err(e) => package_id_of_text(manifest@) == Err::<PackageIdModel, _>(e),
        },
{
    match package_id(manifest) {
        Err(e) => Err(e),
        Ok(id) => {
            let ghost model = id.deep_view();
            let wide = target_build(
                id.name.as_str(),
                id.version.as_str(),
                "x86_64-pc-windows-gnu",
                "x86_64",
                params,
                share,
            );
            let narrow = target_build(
                id.name.as_str(),
                id.version.as_str(),
                "i686-pc-windows-gnu",
                "x86_32",
                params,
                share,
            );
            let mut builds: Vec<TargetBuild> = Vec::new();
            builds.push(wide);
            builds.push(narrow);
            assert(builds.deep_view() =~= build_plan_of(model, *params, share@).builds);
            Ok(BuildPlan { name: id.name, version: id.version, builds })
        },
    }
}

} // verus!
