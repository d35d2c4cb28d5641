//! What the desktop can do on which platform.

use vstd::prelude::*;

verus! {

/// The two kinds of platform that the desktop tells apart.
#[derive(Clone, Copy, Debug, PartialEq, Eq, Structural)]
pub enum Platform {
    /// Unix sockets reach the shared server.
    Unix,
    /// The shared server is out of reach.
    Other,
}

/// What needs the shared server.
#[derive(Clone, Copy, Debug, PartialEq, Eq, Structural)]
pub enum ServerFeature {
    Sessions,
    ModelSwitching,
    ReasoningEffortSwitching,
    ModelCatalog,
}

impl ServerFeature {
    /// The sentence that says that the platform lacks the feature.
    pub open spec fn missing_text(self) -> Seq<char> {
        match self {
            ServerFeature::Sessions => {
                "desktop server sessions are not implemented on this platform yet"@
            },
            ServerFeature::ModelSwitching => {
                "desktop model switching is not implemented on this platform yet"@
            },
            ServerFeature::ReasoningEffortSwitching => {
                "desktop reasoning effort switching is not implemented on this platform yet"@
            },
            ServerFeature::ModelCatalog => {
                "desktop model catalog loading is not implemented on this platform yet"@
            },
        }
    }

    /// Says that the platform lacks the feature.
    pub fn missing_message(self) -> (text: &'static str)
        ensures
            text@ == self.missing_text(),
    {
        match self {
            ServerFeature::Sessions => {
                "desktop server sessions are not implemented on this platform yet"
            },
            ServerFeature::ModelSwitching => {
                "desktop model switching is not implemented on this platform yet"
            },
            ServerFeature::ReasoningEffortSwitching => {
                "desktop reasoning effort switching is not implemented on this platform yet"
            },
            ServerFeature::ModelCatalog => {
                "desktop model catalog loading is not implemented on this platform yet"
            },
        }
    }
}

} // verus!
