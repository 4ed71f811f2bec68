use vstd::prelude::*;

verus! {

/// Failures reported by the console layer.
#[derive(Clone, Debug, PartialEq, Eq)]
pub enum UiError {
    /// A symbol style name other than `full`, `limited` or `ascii`.
    BadSymbolStyle(String),
    /// No editor command is configured.
    EditorEnv,
    /// The editor exited with a failure status.
    EditStatus,
    /// The operator answered "quit"; the caller ends the process with success.
    Quit,
    /// The input ran out before a usable answer was read.
    EndOfInput,
}

} // verus!
