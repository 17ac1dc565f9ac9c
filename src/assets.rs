//! When a tracked asset counts as finished.

use vstd::prelude::*;

verus! {

/// How far the loading of one asset has come.
#[derive(Debug, Clone, Copy, PartialEq, Eq, Structural)]
pub enum AssetLoadState {
    NotLoaded,
    Loading,
    Loaded,
    Failed,
}

/// How far the loading of an asset together with all its dependencies has
/// come.
#[derive(Debug, Clone, Copy, PartialEq, Eq, Structural)]
pub enum DependencyLoadState {
    NotLoaded,
    Loading,
    Loaded,
    Failed,
}

/// Whether a tracked asset is done, and stops being pending.
///
/// An asset that is not being loaded counts as done, as does one that
/// failed where failures are allowed (else loading could never end). A
/// loaded asset is done once its dependencies are, when they are tracked;
/// where failures are allowed, a failed dependency counts as done too.
pub open spec fn asset_done_spec(
    state: AssetLoadState,
    deps: DependencyLoadState,
    allow_failures: bool,
    track_dependencies: bool,
) -> bool {
    match state {
        AssetLoadState::NotLoaded => true,
        AssetLoadState::Loading => false,
        AssetLoadState::Loaded => !track_dependencies || deps == DependencyLoadState::Loaded || (
        allow_failures && deps == DependencyLoadState::Failed),
        AssetLoadState::Failed => allow_failures,
    }
}

/// Decides whether a tracked asset is done; see [`asset_done_spec`].
pub fn asset_done(
    state: AssetLoadState,
    deps: DependencyLoadState,
    allow_failures: bool,
    track_dependencies: bool,
) -> (r: bool)
    ensures
        r == asset_done_spec(state, deps, allow_failures, track_dependencies),
{
    match state {
        AssetLoadState::NotLoaded => true,
        AssetLoadState::Loading => false,
        AssetLoadState::Loaded => {
            if track_dependencies {
                let deps_failed = match deps {
                    DependencyLoadState::Failed => true,
                    _ => false,
                };
                if allow_failures && deps_failed {
                    true
                } else {
                    match deps {
                        DependencyLoadState::Loaded => true,
                        _ => false,
                    }
                }
            } else {
                true
            }
        },
        AssetLoadState::Failed => allow_failures,
    }
}

} // verus!
