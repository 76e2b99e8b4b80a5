//! What the Learning card proposes when a person submits a new learning candidate.

use crate::text::{same_text, trim_text, trimmed};
use vstd::prelude::*;

verus! {

/// The layer a learning candidate belongs to.
#[derive(Clone, Copy, Debug, Eq, PartialEq, Structural)]
pub enum LearningLayer {
    /// How to do something.
    Procedural,
    /// How to behave.
    Behavioral,
    /// What to believe.
    Epistemic,
    /// Weights of a model.
    Neural,
}

/// The layer a choice in the form names: the three named layers, and procedural for anything
/// else.
pub open spec fn layer_named(choice: Seq<char>) -> LearningLayer {
    if choice == "behavioral"@ {
        LearningLayer::Behavioral
    } else if choice == "epistemic"@ {
        LearningLayer::Epistemic
    } else if choice == "neural"@ {
        LearningLayer::Neural
    } else {
        LearningLayer::Procedural
    }
}

/// The layer a choice in the form names.
pub fn layer_for(choice: &str) -> (r: LearningLayer)
    ensures
        r == layer_named(choice@),
{
    if same_text(choice, "behavioral") {
        LearningLayer::Behavioral
    } else if same_text(choice, "epistemic") {
        LearningLayer::Epistemic
    } else if same_text(choice, "neural") {
        LearningLayer::Neural
    } else {
        LearningLayer::Procedural
    }
}

/// A candidate ready to be proposed.
#[derive(Debug)]
pub struct Proposal {
    /// Its layer.
    pub layer: LearningLayer,
    /// The generalization, as typed.
    pub generalization: String,
    /// The scope, as typed.
    pub scope: String,
}

/// The candidate a submission proposes: none while the generalization or the scope is blank; the
/// texts go as typed otherwise.
pub fn proposal(generalization: &str, scope: &str, layer_choice: &str) -> (r: Option<Proposal>)
    ensures
        (trimmed(generalization@).len() == 0 || trimmed(scope@).len() == 0) <==> r is None,
        r matches Some(p) ==> {
            &&& p.layer == layer_named(layer_choice@)
            &&& p.generalization@ == generalization@
            &&& p.scope@ == scope@
        },
{
    if trim_text(generalization).as_str().is_empty() || trim_text(scope).as_str().is_empty() {
        return None;
    }
    Some(
        Proposal {
            layer: layer_for(layer_choice),
            generalization: String::from_str(generalization),
            scope: String::from_str(scope),
        },
    )
}

} // verus!
