//! What the engine reports about a definition that it does not take.

use vstd::prelude::*;

verus! {

/// The message for a definition that is no struct at all.
pub const NOT_A_STRUCT: &'static str = "Only structs are supported";

/// The message for a struct whose fields have no names.
pub const UNNAMED_FIELDS: &'static str = "Only structs with named fields are supported";

/// How grave a diagnostic is, in the terms of the hosts. The engine itself
/// reports errors only.
#[derive(Debug, Clone, Copy, PartialEq, Eq)]
pub enum Severity {
    Error,
    Warning,
}

/// Why a definition is not eligible.
#[derive(Debug, Clone, Copy, PartialEq, Eq)]
pub enum RejectionReason {
    /// The definition is no struct: a sum type, a union, an alias.
    NotAStruct,
    /// The definition is a struct, but its fields have no names.
    UnnamedFields,
}

/// A message for the author of the definition.
#[derive(Debug, PartialEq, Eq)]
pub struct Diagnostic {
    pub message: String,
    pub severity: Severity,
}

/// The mathematical model of a [`Diagnostic`].
pub ghost struct DiagnosticView {
    pub message: Seq<char>,
    pub severity: Severity,
}

impl View for Diagnostic {
    type V = DiagnosticView;

    open spec fn view(&self) -> DiagnosticView {
        DiagnosticView { message: self.message@, severity: self.severity }
    }
}

impl DeepView for Diagnostic {
    type V = DiagnosticView;

    open spec fn deep_view(&self) -> DiagnosticView {
        self@
    }
}

/// The diagnostic for a reason: a fixed message, and always an error.
pub open spec fn rejection(reason: RejectionReason) -> DiagnosticView {
    DiagnosticView {
        message: match reason {
            RejectionReason::NotAStruct => NOT_A_STRUCT@,
            RejectionReason::UnnamedFields => UNNAMED_FIELDS@,
        },
        severity: Severity::Error,
    }
}

/// Makes the diagnostic for a definition that is not eligible.
pub fn reject(reason: RejectionReason) -> (diagnostic: Diagnostic)
    ensures
        diagnostic@ == rejection(reason),
        diagnostic.severity == Severity::Error,
{
    let message = match reason {
        RejectionReason::NotAStruct => NOT_A_STRUCT,
        RejectionReason::UnnamedFields => UNNAMED_FIELDS,
    };
    Diagnostic { message: message.to_owned(), severity: Severity::Error }
}

} // verus!
