//! The `cargo metadata` command builder of the `cargo_metadata` crate, as the
//! library sees it: which feature options and which manifest path it holds.

use vstd::prelude::*;
use crate::workspace::names_view;

verus! {

#[verifier::external_type_specification]
#[verifier::external_body]
pub struct ExMetadataCommand(cargo_metadata::MetadataCommand);

#[verifier::external_type_specification]
#[verifier::external_body]
pub struct ExPathBuf(std::path::PathBuf);

/// A feature option that a command latches: it can be given only once.
pub enum FeatureFlag {
    AllFeatures,
    NoDefaultFeatures,
}

/// A feature option to hand to a command.
pub enum FeatureRequest {
    /// Activate all available features.
    AllFeatures,
    /// Do not activate the `default` feature.
    NoDefaultFeatures,
    /// Activate the listed features.
    SomeFeatures(Vec<String>),
}

/// The latched feature options that a command holds.
pub uninterp spec fn latched_flags(cmd: cargo_metadata::MetadataCommand) -> Set<FeatureFlag>;

/// The features that a command lists, in the order they were added.
pub uninterp spec fn listed_features(cmd: cargo_metadata::MetadataCommand) -> Seq<Seq<char>>;

/// The manifest path that a command holds, if one was set.
pub uninterp spec fn manifest_path_of(cmd: cargo_metadata::MetadataCommand) -> Option<std::path::PathBuf>;

/// Relies on `MetadataCommand::new`: a fresh command holds no feature option
/// and no manifest path.
#[verifier::external_body]
pub(crate) fn new_command() -> (r: cargo_metadata::MetadataCommand)
    ensures
        latched_flags(r) == Set::<FeatureFlag>::empty(),
        listed_features(r) == Seq::<Seq<char>>::empty(),
        manifest_path_of(r).is_none(),
{
    cargo_metadata::MetadataCommand::new()
}

/// Relies on `MetadataCommand::manifest_path`: it stores a copy of the path
/// and leaves the feature options alone.
#[verifier::external_body]
pub(crate) fn set_manifest_path(cmd: &mut cargo_metadata::MetadataCommand, path: &std::path::PathBuf)
    ensures
        manifest_path_of(*final(cmd)) == Some(*path),
        latched_flags(*final(cmd)) == latched_flags(*old(cmd)),
        listed_features(*final(cmd)) == listed_features(*old(cmd)),
{
    cmd.manifest_path(path);
}

/// Relies on `MetadataCommand::features`: `SomeFeatures` appends to the
/// listed features; `AllFeatures` and `NoDefaultFeatures` latch a flag and
/// panic when it is latched already.
#[verifier::external_body]
pub(crate) fn request_features(cmd: &mut cargo_metadata::MetadataCommand, opt: FeatureRequest)
    requires
        opt is AllFeatures ==> !latched_flags(*old(cmd)).contains(FeatureFlag::AllFeatures),
        opt is NoDefaultFeatures ==> !latched_flags(*old(cmd)).contains(FeatureFlag::NoDefaultFeatures),
    ensures
        latched_flags(*final(cmd)) == match opt {
            FeatureRequest::AllFeatures => latched_flags(*old(cmd)).insert(FeatureFlag::AllFeatures),
            FeatureRequest::NoDefaultFeatures => latched_flags(*old(cmd)).insert(FeatureFlag::NoDefaultFeatures),
            FeatureRequest::SomeFeatures(_) => latched_flags(*old(cmd)),
        },
        listed_features(*final(cmd)) == match opt {
            FeatureRequest::SomeFeatures(v) => listed_features(*old(cmd)) + names_view(v@),
            _ => listed_features(*old(cmd)),
        },
        manifest_path_of(*final(cmd)) == manifest_path_of(*old(cmd)),
{
    let opt = match opt {
        FeatureRequest::AllFeatures => cargo_metadata::CargoOpt::AllFeatures,
        FeatureRequest::NoDefaultFeatures => cargo_metadata::CargoOpt::NoDefaultFeatures,
        FeatureRequest::SomeFeatures(v) => cargo_metadata::CargoOpt::SomeFeatures(v),
    };
    cmd.features(opt);
}

} // verus!
