//! Cargo feature flags.

use vstd::prelude::*;
use crate::command::{latched_flags, listed_features, manifest_path_of, request_features, FeatureFlag, FeatureRequest};
use crate::workspace::names_view;

verus! {

/// The feature flags of a cargo command.
pub struct Features {
    /// Activate all available features.
    pub all_features: bool,
    /// Do not activate the `default` feature.
    pub no_default_features: bool,
    /// Features to activate.
    pub features: Vec<String>,
}

impl Default for Features {
    fn default() -> (r: Self)
        ensures
            !r.all_features,
            !r.no_default_features,
            r.features@.len() == 0,
    {
        Features { all_features: false, no_default_features: false, features: Vec::new() }
    }
}

/// The latched options of `flags` after the flags of `f` were forwarded.
pub open spec fn forwarded_flags(f: Features, flags: Set<FeatureFlag>) -> Set<FeatureFlag> {
    let a = if f.all_features { flags.insert(FeatureFlag::AllFeatures) } else { flags };
    if f.no_default_features { a.insert(FeatureFlag::NoDefaultFeatures) } else { a }
}

impl Features {
    /// Forwards these flags to a `cargo metadata` command: all features first,
    /// then no default features, then the listed features. A flag that is
    /// not set adds nothing.
    pub fn forward_metadata<'m>(&self, meta: &'m mut cargo_metadata::MetadataCommand) -> (r: &'m mut cargo_metadata::MetadataCommand)
        requires
            self.all_features ==> !latched_flags(*old(meta)).contains(FeatureFlag::AllFeatures),
            self.no_default_features ==> !latched_flags(*old(meta)).contains(FeatureFlag::NoDefaultFeatures),
        ensures
            latched_flags(*r) == forwarded_flags(*self, latched_flags(*old(meta))),
            listed_features(*r) == listed_features(*old(meta)) + names_view(self.features@),
            manifest_path_of(*r) == manifest_path_of(*old(meta)),
            *final(meta) == *final(r),
    {
        if self.all_features {
            request_features(meta, FeatureRequest::AllFeatures);
        }
        if self.no_default_features {
            request_features(meta, FeatureRequest::NoDefaultFeatures);
        }
        if self.features.len() != 0 {
            request_features(meta, FeatureRequest::SomeFeatures(self.features.clone()));
        } else {
            assert(names_view(self.features@) =~= Seq::<Seq<char>>::empty());
            assert(listed_features(*meta) + names_view(self.features@) =~= listed_features(*meta));
        }
        meta
    }
}

/// Forwarding two feature lists one after the other lists the same features,
/// in the same order, as forwarding the two lists joined into one.
pub proof fn lemma_features_accumulate(listed: Seq<Seq<char>>, a: Seq<String>, b: Seq<String>)
    ensures
        listed + names_view(a) + names_view(b) == listed + names_view(a + b),
{
    assert(names_view(a + b) =~= names_view(a) + names_view(b));
    assert(listed + names_view(a) + names_view(b) =~= listed + (names_view(a) + names_view(b)));
}

} // verus!
