//! The projects found below one root: each manifest that parses, with the
//! directory it lies in, in the order in which the walk came by them.

use crate::manifest::{classify_manifest, manifest_of_text, ManifestMetadata, ManifestModel};
use crate::text::{
    lemma_one_more_trailing_separator, strip_prefix, trim_trailing_separators,
    without_trailing_separators,
};
use vstd::prelude::*;

verus! {

/// The file name of a project's manifest.
pub const MANIFEST_FILE: &'static str = "Cargo.toml";

/// The directory, below a project's own, that holds its entry-point file.
pub const ENTRY_POINT_DIRECTORY: &'static str = "src";

/// The file whose presence says that a project builds an executable.
pub const ENTRY_POINT_FILE: &'static str = "main.rs";

/// What was read of one manifest that a walk found.
#[derive(Clone, Debug, PartialEq, Eq)]
pub struct ManifestSource {
    /// The directory that holds the manifest; `None` where its path has no parent.
    pub directory: Option<String>,
    /// The manifest's text; `None` where it could not be read.
    pub text: Option<String>,
    /// Whether the entry-point file lies beside the manifest.
    pub has_entry_point: bool,
}

/// Where a project lies.
#[derive(Clone, Debug, PartialEq, Eq)]
pub struct ProjectRoot {
    /// The directory that holds the manifest.
    pub absolute_path: String,
    /// That directory as seen from the root that was scanned.
    pub display_name: String,
}

/// A discovered project.
#[derive(Clone, Debug, PartialEq, Eq)]
pub struct Project {
    pub root: ProjectRoot,
    pub metadata: ManifestMetadata,
}

/// A `ManifestSource` with its strings as sequences of characters.
pub struct SourceModel {
    pub directory: Option<Seq<char>>,
    pub text: Option<Seq<char>>,
    pub has_entry_point: bool,
}

/// A `ProjectRoot` with its strings as sequences of characters.
pub struct RootModel {
    pub absolute_path: Seq<char>,
    pub display_name: Seq<char>,
}

/// A `Project` with its strings as sequences of characters.
pub struct ProjectModel {
    pub root: RootModel,
    pub metadata: ManifestModel,
}

impl DeepView for ManifestSource {
    type V = SourceModel;

    open spec fn deep_view(&self) -> SourceModel {
        SourceModel {
            directory: self.directory.deep_view(),
            text: self.text.deep_view(),
            has_entry_point: self.has_entry_point,
        }
    }
}

impl DeepView for ProjectRoot {
    type V = RootModel;

    open spec fn deep_view(&self) -> RootModel {
        RootModel { absolute_path: self.absolute_path@, display_name: self.display_name@ }
    }
}

impl DeepView for Project {
    type V = ProjectModel;

    open spec fn deep_view(&self) -> ProjectModel {
        ProjectModel { root: self.root.deep_view(), metadata: self.metadata.deep_view() }
    }
}

/// A directory as seen from `root`: what follows `root` in it, without one
/// leading separator. Separators at the end of `root` do not count, so the
/// root is the same place with and without them. Empty where the directory
/// is the root; the directory itself where it does not lie below `root`.
pub open spec fn display_name_of(directory: Seq<char>, root: Seq<char>) -> Seq<char> {
    let base = without_trailing_separators(root);
    if base.is_prefix_of(directory) {
        let rest = directory.skip(base.len() as int);
        if rest.len() > 0 && rest[0] == '/' {
            rest.skip(1)
        } else {
            rest
        }
    } else {
        directory
    }
}

/// The name under which a directory below `root` is shown.
pub fn display_name(directory: &str, root: &str) -> (name: String)
    ensures
        name@ == display_name_of(directory@, root@),
{
    match strip_prefix(directory, trim_trailing_separators(root)) {
        None => directory.to_owned(),
        Some(rest) => {
            proof {
                reveal_strlit("/");
            }
            match strip_prefix(rest, "/") {
                None => rest.to_owned(),
                Some(tail) => tail.to_owned(),
            }
        },
    }
}

/// The root itself is shown under the empty name, however many separators
/// the root is written with at its end, and whether the directory is named
/// with one or without.
pub proof fn lemma_display_name_of_root_is_empty(root: Seq<char>)
    ensures
        display_name_of(without_trailing_separators(root), root) == Seq::<char>::empty(),
        display_name_of(without_trailing_separators(root).push('/'), root) == Seq::<
            char,
        >::empty(),
{
    let base = without_trailing_separators(root);
    assert(base.is_prefix_of(base));
    assert(base.skip(base.len() as int) =~= Seq::<char>::empty());
    assert(base.is_prefix_of(base.push('/')));
    assert(base.push('/').skip(base.len() as int) =~= seq!['/']);
    assert(seq!['/'].skip(1) =~= Seq::<char>::empty());
}

/// A directory below the root is shown by what follows the root and the
/// separator behind it.
pub proof fn lemma_display_name_below_root(root: Seq<char>, below: Seq<char>)
    ensures
        display_name_of(without_trailing_separators(root) + seq!['/'] + below, root) == below,
{
    let base = without_trailing_separators(root);
    let directory = base + seq!['/'] + below;
    assert(base.is_prefix_of(directory));
    assert(directory.skip(base.len() as int) =~= seq!['/'] + below);
    assert((seq!['/'] + below).skip(1) =~= below);
}

/// A separator more at the end of the root changes no display name.
pub proof fn lemma_trailing_separator_of_root_does_not_count(
    directory: Seq<char>,
    root: Seq<char>,
)
    ensures
        display_name_of(directory, root.push('/')) == display_name_of(directory, root),
{
    lemma_one_more_trailing_separator(root);
}

/// The project that one source stands for, if it stands for one: its
/// directory and text are known, and the text is a manifest that names a
/// package.
pub open spec fn project_of(root: Seq<char>, source: SourceModel) -> Option<ProjectModel> {
    match (source.directory, source.text) {
        (Some(directory), Some(text)) => match manifest_of_text(text, source.has_entry_point) {
            Ok(metadata) => Some(
                ProjectModel {
                    root: RootModel {
                        absolute_path: directory,
                        display_name: display_name_of(directory, root),
                    },
                    metadata,
                },
            ),
            Err(_) => None,
        },
        _ => None,
    }
}

/// The registry of a root: the projects that the sources stand for, in the
/// order of the sources. A source that stands for none is left out.
pub open spec fn registry_of(root: Seq<char>, sources: Seq<SourceModel>) -> Seq<ProjectModel>
    decreases sources.len(),
{
    if sources.len() == 0 {
        Seq::empty()
    } else {
        let before = registry_of(root, sources.drop_last());
        match project_of(root, sources.last()) {
            Some(project) => before.push(project),
            None => before,
        }
    }
}

/// Makes a project of one source, if it stands for one.
pub fn register(root: &str, source: &ManifestSource) -> (project: Option<Project>)
    ensures
        project.deep_view() == project_of(root@, source.deep_view()),
{
    match (&source.directory, &source.text) {
        (Some(directory), Some(text)) => match classify_manifest(
            text.as_str(),
            source.has_entry_point,
        ) {
            Ok(metadata) => Some(
                Project {
                    root: ProjectRoot {
                        absolute_path: directory.clone(),
                        display_name: display_name(directory.as_str(), root),
                    },
                    metadata,
                },
            ),
            Err(_) => None,
        },
        _ => None,
    }
}

/// Builds the registry of `root` from the manifests that a walk found below it.
pub fn build_registry(root: &str, sources: &Vec<ManifestSource>) -> (registry: Vec<Project>)
    ensures
        registry.deep_view() == registry_of(root@, sources.deep_view()),
{
    let mut registry: Vec<Project> = Vec::new();
    let mut i: usize = 0;
    while i < sources.len()
        invariant
            i <= sources.len(),
            registry.deep_view() == registry_of(root@, sources.deep_view().take(i as int)),
        decreases sources.len() - i,
    {
        let ghost next = sources.deep_view().take(i as int + 1);
        assert(next.drop_last() == sources.deep_view().take(i as int));
        match register(root, &sources[i]) {
            Some(project) => registry.push(project),
            None => {},
        }
        i = i + 1;
    }
    assert(sources.deep_view().take(i as int) == sources.deep_view());
    registry
}

/// A registry holds at most one project for each source.
pub proof fn lemma_registry_is_no_longer_than_sources(root: Seq<char>, sources: Seq<SourceModel>)
    ensures
        registry_of(root, sources).len() <= sources.len(),
    decreases sources.len(),
{
    if sources.len() > 0 {
        lemma_registry_is_no_longer_than_sources(root, sources.drop_last());
    }
}

} // verus!
