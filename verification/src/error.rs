//! The two ways in which a template fails to compile.

use vstd::prelude::*;

verus! {

/// Why a template did not compile.
#[derive(Debug, Clone, PartialEq, Eq)]
pub enum CompileError {
    /// The tokens are no template: the brace group at `position` does not
    /// hold one expression.
    TemplateMalformed { position: usize, reason: String },
    /// The validation text `checked` does not parse under the grammar.
    GrammarValidationFailed { reason: String, checked: String },
}

/// The mathematical value of a [`CompileError`].
pub enum CompileErrorView {
    TemplateMalformed { position: nat, reason: Seq<char> },
    GrammarValidationFailed { reason: Seq<char>, checked: Seq<char> },
}

impl View for CompileError {
    type V = CompileErrorView;

    open spec fn view(&self) -> CompileErrorView {
        match self {
            CompileError::TemplateMalformed { position, reason } => {
                CompileErrorView::TemplateMalformed { position: *position as nat, reason: reason@ }
            },
            CompileError::GrammarValidationFailed { reason, checked } => {
                CompileErrorView::GrammarValidationFailed { reason: reason@, checked: checked@ }
            },
        }
    }
}

/// The text of the error of `res`, where it is one.
pub open spec fn error_view(res: Result<(), String>) -> Option<Seq<char>> {
    match res {
        Ok(()) => None,
        Err(reason) => Some(reason@),
    }
}

/// What the message of a failed validation begins with.
pub open spec fn diagnostic_prefix() -> Seq<char> {
    "Erro de sintaxe na query SQL: "@
}

/// What stands between the grammar's error and the checked text.
pub open spec fn diagnostic_separator() -> Seq<char> {
    "\n\n"@
}

impl CompileErrorView {
    /// The message of the error: for a failed validation the prefix, the
    /// grammar's error and the text that was checked.
    pub open spec fn message(self) -> Seq<char> {
        match self {
            CompileErrorView::TemplateMalformed { reason, .. } => reason,
            CompileErrorView::GrammarValidationFailed { reason, checked } => diagnostic_prefix()
                + reason + diagnostic_separator() + checked,
        }
    }
}

impl CompileError {
    /// The message of the error.
    pub fn message(&self) -> (text: String)
        ensures
            text@ == self@.message(),
    {
        match self {
            CompileError::TemplateMalformed { reason, .. } => reason.clone(),
            CompileError::GrammarValidationFailed { reason, checked } => {
                let mut text = "Erro de sintaxe na query SQL: ".to_owned();
                text.append(reason.as_str());
                text.append("\n\n");
                text.append(checked.as_str());
                text
            },
        }
    }
}

/// The message of a failed validation holds, behind the prefix, the
/// grammar's error, and behind the separator the text that was checked.
pub proof fn lemma_message_holds_error(reason: Seq<char>, checked: Seq<char>)
    ensures
        ({
            let message = (CompileErrorView::GrammarValidationFailed {
                reason,
                checked,
            }).message();
            let at = diagnostic_prefix().len() as int;
            let behind = at + reason.len() + diagnostic_separator().len();
            &&& message.subrange(0, at) == diagnostic_prefix()
            &&& message.subrange(at, at + reason.len()) == reason
            &&& message.subrange(behind, behind + checked.len()) == checked
            &&& message.len() == behind + checked.len()
        }),
{
    let message = (CompileErrorView::GrammarValidationFailed { reason, checked }).message();
    let at = diagnostic_prefix().len() as int;
    let behind = at + reason.len() + diagnostic_separator().len();
    assert(message.subrange(0, at) =~= diagnostic_prefix());
    assert(message.subrange(at, at + reason.len()) =~= reason);
    assert(message.subrange(behind, behind + checked.len()) =~= checked);
}

} // verus!
