//! The health tiers of a project: whether its release profile has the
//! expected settings, and whether its edition is the current one.

use crate::manifest::{ManifestMetadata, ManifestModel, OptimizationLevel, ReleaseProfileFlags};
use crate::text::same_text;
use vstd::prelude::*;

verus! {

/// The edition that counts as current.
pub const CURRENT_EDITION: &'static str = "2024";

/// How a project that builds an executable falls short of the expected profile.
#[derive(Clone, Copy, Debug, PartialEq, Eq, Structural)]
pub enum NonCompliance {
    /// The manifest has no release profile.
    ProfileMissing,
    /// The release profile leaves a setting out or gives it another value.
    ProfileMismatched,
}

/// Hygiene of a project's release profile.
#[derive(Clone, Copy, Debug, PartialEq, Eq, Structural)]
pub enum ComplianceTier {
    /// The project builds no executable, so no profile is asked of it.
    NotApplicable,
    Compliant,
    NonCompliant(NonCompliance),
}

/// How a project's edition stands to the current one.
#[derive(Clone, Copy, Debug, PartialEq, Eq, Structural)]
pub enum EditionTier {
    Current,
    /// An edition is given, and it is another one.
    Outdated,
    /// The manifest gives no edition.
    Unspecified,
}

impl ReleaseProfileFlags {
    /// The settings that a release profile is expected to have.
    pub open spec fn expected() -> ReleaseProfileFlags {
        ReleaseProfileFlags {
            link_time_optimization: Some(true),
            strip_symbols: Some(true),
            debug_info: Some(false),
            debug_assertions: Some(false),
            runtime_path_embedding: Some(false),
            incremental_compilation: Some(false),
            optimization_level: Some(OptimizationLevel::Level(2)),
            codegen_units: Some(1),
        }
    }

    /// A profile is compliant when every setting is present with its expected value.
    pub open spec fn compliant(&self) -> bool {
        *self == Self::expected()
    }

    /// Whether this profile is compliant.
    pub fn is_ok(&self) -> (ok: bool)
        ensures
            ok == self.compliant(),
    {
        let flags_ok = matches!(self.link_time_optimization, Some(true)) && matches!(
            self.strip_symbols,
            Some(true)
        ) && matches!(self.debug_info, Some(false)) && matches!(self.debug_assertions, Some(false))
            && matches!(self.runtime_path_embedding, Some(false)) && matches!(
            self.incremental_compilation,
            Some(false)
        );
        let level_ok = match self.optimization_level {
            Some(OptimizationLevel::Level(level)) => level == 2,
            _ => false,
        };
        let units_ok = match self.codegen_units {
            Some(units) => units == 1,
            None => false,
        };
        flags_ok && level_ok && units_ok
    }
}

/// The compliance tier of a project.
pub open spec fn compliance_of(manifest: ManifestModel) -> ComplianceTier {
    if !manifest.has_binary_target {
        ComplianceTier::NotApplicable
    } else {
        match manifest.release_profile {
            None => ComplianceTier::NonCompliant(NonCompliance::ProfileMissing),
            Some(profile) => if profile.compliant() {
                ComplianceTier::Compliant
            } else {
                ComplianceTier::NonCompliant(NonCompliance::ProfileMismatched)
            },
        }
    }
}

/// The edition tier of an edition, where `current` is the current one.
pub open spec fn edition_of(edition: Option<Seq<char>>, current: Seq<char>) -> EditionTier {
    match edition {
        None => EditionTier::Unspecified,
        Some(given) => if given == current {
            EditionTier::Current
        } else {
            EditionTier::Outdated
        },
    }
}

impl ManifestMetadata {
    /// The compliance tier of this project.
    pub fn compliance_tier(&self) -> (tier: ComplianceTier)
        ensures
            tier == compliance_of(self.deep_view()),
    {
        if !self.has_binary_target {
            ComplianceTier::NotApplicable
        } else {
            match &self.release_profile {
                None => ComplianceTier::NonCompliant(NonCompliance::ProfileMissing),
                Some(profile) => if profile.is_ok() {
                    ComplianceTier::Compliant
                } else {
                    ComplianceTier::NonCompliant(NonCompliance::ProfileMismatched)
                },
            }
        }
    }

    /// The edition tier of this project, where `current` is the current edition.
    pub fn edition_tier(&self, current: &str) -> (tier: EditionTier)
        ensures
            tier == edition_of(self.deep_view().edition, current@),
    {
        match &self.edition {
            None => EditionTier::Unspecified,
            Some(given) => if same_text(given.as_str(), current) {
                EditionTier::Current
            } else {
                EditionTier::Outdated
            },
        }
    }
}

/// A project that builds no executable is `NotApplicable`, whatever its profile holds.
pub proof fn lemma_library_is_not_applicable(manifest: ManifestModel)
    requires
        !manifest.has_binary_target,
    ensures
        compliance_of(manifest) == ComplianceTier::NotApplicable,
{
}

/// A project that builds an executable and has every setting of its release
/// profile present with the expected value is `Compliant`.
pub proof fn lemma_expected_profile_is_compliant(manifest: ManifestModel)
    requires
        manifest.has_binary_target,
        manifest.release_profile == Some(ReleaseProfileFlags::expected()),
    ensures
        compliance_of(manifest) == ComplianceTier::Compliant,
{
}

/// Giving another value to a setting of a compliant project's profile, or
/// taking a setting out, makes the project `NonCompliant`.
pub proof fn lemma_changed_profile_is_non_compliant(manifest: ManifestModel, changed: ManifestModel)
    requires
        compliance_of(manifest) == ComplianceTier::Compliant,
        changed.has_binary_target,
        changed.release_profile != manifest.release_profile,
    ensures
        compliance_of(changed) is NonCompliant,
{
}

/// Only the expected profile is compliant: a profile that differs from it in
/// one setting is not.
pub proof fn lemma_compliance_needs_every_setting(profile: ReleaseProfileFlags)
    ensures
        profile.compliant() <==> {
            &&& profile.link_time_optimization == Some(true)
            &&& profile.strip_symbols == Some(true)
            &&& profile.debug_info == Some(false)
            &&& profile.debug_assertions == Some(false)
            &&& profile.runtime_path_embedding == Some(false)
            &&& profile.incremental_compilation == Some(false)
            &&& profile.optimization_level == Some(OptimizationLevel::Level(2))
            &&& profile.codegen_units == Some(1u64)
        },
{
}

/// The edition tier is `Current` exactly when an edition is given and equals
/// the current one character for character.
pub proof fn lemma_current_iff_same_edition(edition: Option<Seq<char>>, current: Seq<char>)
    ensures
        edition_of(edition, current) == EditionTier::Current <==> edition == Some(current),
{
}

} // verus!
