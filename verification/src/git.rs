//! The state of the repositories below one root, line by line.

use crate::divergence::{DivergenceReport, DivergenceTier, DivergenceModel};
use crate::registry::{display_name, display_name_of};
use crate::report::{divergence_token, render_divergence, ColorClass, Token, TokenModel};
use vstd::prelude::*;
use vstd::string::*;

verus! {

/// The entry whose presence marks a directory as a repository.
pub const REPOSITORY_MARKER: &'static str = ".git";

/// Show the state of all repositories.
#[derive(Clone, Copy, Debug, PartialEq, Eq, Structural)]
pub struct State {
    /// Show the clean repositories too.
    pub all: bool,
}

/// What to do with the repositories.
#[derive(Clone, Copy, Debug, PartialEq, Eq, Structural)]
pub enum Command {
    State(State),
}

/// A repository with what its inspection found.
#[derive(Clone, Debug, PartialEq, Eq)]
pub struct Inspected {
    /// The directory that holds the repository.
    pub directory: String,
    pub report: DivergenceReport,
}

/// An `Inspected` with its strings as sequences.
pub struct InspectedModel {
    pub directory: Seq<char>,
    pub report: DivergenceModel,
}

impl DeepView for Inspected {
    type V = InspectedModel;

    open spec fn deep_view(&self) -> InspectedModel {
        InspectedModel { directory: self.directory@, report: self.report@ }
    }
}

/// One line of the state report: the status of a repository, and its name.
#[derive(Clone, Debug, PartialEq, Eq)]
pub struct StatusLine {
    pub status: Token,
    pub name: String,
    /// What the inspection has to say beside the status; shown above the line
    /// where it is not empty.
    pub diagnostic: Vec<u8>,
}

/// A `StatusLine` with its strings as sequences.
pub struct StatusLineModel {
    pub status: TokenModel,
    pub name: Seq<char>,
    pub diagnostic: Seq<u8>,
}

impl DeepView for StatusLine {
    type V = StatusLineModel;

    open spec fn deep_view(&self) -> StatusLineModel {
        StatusLineModel {
            status: self.status.deep_view(),
            name: self.name@,
            diagnostic: self.diagnostic@,
        }
    }
}

/// The heading above the lines of one root.
pub open spec fn heading_of(root: Seq<char>) -> TokenModel {
    TokenModel { symbol: "===[ "@ + root + " ]="@, color: ColorClass::Negative }
}

/// Makes the heading above the lines of one root.
pub fn heading(root: &str) -> (token: Token)
    ensures
        token.deep_view() == heading_of(root@),
{
    let mut symbol = "===[ ".to_owned();
    symbol.append(root);
    symbol.append(" ]=");
    Token { symbol, color: ColorClass::Negative }
}

/// Whether a repository of this tier has a line: a clean one has none
/// unless all are asked for.
pub open spec fn shown(tier: DivergenceTier, all: bool) -> bool {
    all || tier != DivergenceTier::Clean
}

/// The line of a repository.
pub open spec fn line_of(root: Seq<char>, inspected: InspectedModel) -> StatusLineModel {
    StatusLineModel {
        status: divergence_token(inspected.report.tier),
        name: display_name_of(inspected.directory, root),
        diagnostic: inspected.report.diagnostic,
    }
}

/// The lines of a root: one for each repository that is shown, in the order
/// in which they were inspected.
pub open spec fn lines_of(root: Seq<char>, inspected: Seq<InspectedModel>, all: bool) -> Seq<
    StatusLineModel,
>
    decreases inspected.len(),
{
    if inspected.len() == 0 {
        Seq::empty()
    } else {
        let before = lines_of(root, inspected.drop_last(), all);
        if shown(inspected.last().report.tier, all) {
            before.push(line_of(root, inspected.last()))
        } else {
            before
        }
    }
}

/// Makes the line of a repository, if it has one.
pub fn status_line(root: &str, inspected: &Inspected, all: bool) -> (line: Option<StatusLine>)
    ensures
        line.deep_view() == if shown(inspected.report.tier, all) {
            Some(line_of(root@, inspected.deep_view()))
        } else {
            None
        },
{
    let clean = match inspected.report.tier {
        DivergenceTier::Clean => true,
        _ => false,
    };
    if !all && clean {
        None
    } else {
        let diagnostic = inspected.report.diagnostic.clone();
        assert(diagnostic@ =~= inspected.report.diagnostic@);
        Some(
            StatusLine {
                status: render_divergence(inspected.report.tier),
                name: display_name(inspected.directory.as_str(), root),
                diagnostic,
            },
        )
    }
}

/// Reports the state of the repositories below `root`.
pub fn cmd_state(root: &str, inspected: &Vec<Inspected>, all: bool) -> (lines: Vec<StatusLine>)
    ensures
        lines.deep_view() == lines_of(root@, inspected.deep_view(), all),
{
    let mut lines: Vec<StatusLine> = Vec::new();
    let mut i: usize = 0;
    while i < inspected.len()
        invariant
            i <= inspected.len(),
            lines.deep_view() == lines_of(root@, inspected.deep_view().take(i as int), all),
        decreases inspected.len() - i,
    {
        let ghost next = inspected.deep_view().take(i as int + 1);
        assert(next.drop_last() == inspected.deep_view().take(i as int));
        match status_line(root, &inspected[i], all) {
            Some(line) => lines.push(line),
            None => {},
        }
        i = i + 1;
    }
    assert(inspected.deep_view().take(i as int) == inspected.deep_view());
    lines
}

} // verus!
