//! The artifact that a compiled template describes.

use vstd::prelude::*;
use crate::part::strings_view;

verus! {

/// What a template compiles to.
#[derive(Debug, Clone, PartialEq, Eq)]
pub enum Artifact {
    /// A constant text.
    Constant(String),
    /// A format template whose `{}` slots take, in order, the values of the
    /// expressions in `arguments`.
    Formatter { template: String, arguments: Vec<String> },
}

/// The mathematical value of an [`Artifact`].
pub enum ArtifactView {
    Constant(Seq<char>),
    Formatter { template: Seq<char>, arguments: Seq<Seq<char>> },
}

impl View for Artifact {
    type V = ArtifactView;

    open spec fn view(&self) -> ArtifactView {
        match self {
            Artifact::Constant(text) => ArtifactView::Constant(text@),
            Artifact::Formatter { template, arguments } => ArtifactView::Formatter {
                template: template@,
                arguments: strings_view(arguments@),
            },
        }
    }
}

/// The artifact for the display text `display` and the expressions
/// `arguments`: a constant where there is no expression, else a formatter.
pub open spec fn artifact_of(display: Seq<char>, arguments: Seq<Seq<char>>) -> ArtifactView {
    if arguments.len() == 0 {
        ArtifactView::Constant(display)
    } else {
        ArtifactView::Formatter { template: display, arguments }
    }
}

impl Artifact {
    /// The artifact for a display text and the expressions of its slots.
    pub fn generate(display: String, arguments: Vec<String>) -> (artifact: Artifact)
        ensures
            artifact@ == artifact_of(display@, strings_view(arguments@)),
    {
        if arguments.len() == 0 {
            Artifact::Constant(display)
        } else {
            Artifact::Formatter { template: display, arguments }
        }
    }
}

} // verus!
