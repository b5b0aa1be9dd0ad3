//! The engine as a whole: a type definition goes in, and either the
//! generated implementation or one diagnostic comes out.

use vstd::prelude::*;
use crate::descriptor::{build, describe_record, FieldDefinition, FieldDefinitionView};
use crate::diagnostic::{
    reject,
    rejection,
    Diagnostic,
    DiagnosticView,
    RejectionReason,
    Severity,
    UNNAMED_FIELDS,
};
use crate::emitter::{
    emit,
    implementation_of,
    GeneratedImplementation,
    GeneratedImplementationView,
};

verus! {

/// What kind of type a definition defines.
#[derive(Debug, PartialEq, Eq)]
pub enum DefinitionKind {
    /// A struct with named fields, in the order of their declaration. The
    /// list may be empty.
    Record(Vec<FieldDefinition>),
    /// A struct whose fields have no names: a tuple struct or a unit
    /// struct.
    UnnamedRecord,
    /// Any other definition: a sum type, a union, an alias.
    Other,
}

/// The mathematical model of a [`DefinitionKind`].
pub ghost enum DefinitionKindView {
    Record(Seq<FieldDefinitionView>),
    UnnamedRecord,
    Other,
}

impl View for DefinitionKind {
    type V = DefinitionKindView;

    open spec fn view(&self) -> DefinitionKindView {
        match self {
            DefinitionKind::Record(fields) => DefinitionKindView::Record(fields.deep_view()),
            DefinitionKind::UnnamedRecord => DefinitionKindView::UnnamedRecord,
            DefinitionKind::Other => DefinitionKindView::Other,
        }
    }
}

/// A type definition as the engine reads it.
#[derive(Debug, PartialEq, Eq)]
pub struct TypeDefinition {
    pub name: String,
    pub kind: DefinitionKind,
}

/// The mathematical model of a [`TypeDefinition`].
pub ghost struct TypeDefinitionView {
    pub name: Seq<char>,
    pub kind: DefinitionKindView,
}

impl View for TypeDefinition {
    type V = TypeDefinitionView;

    open spec fn view(&self) -> TypeDefinitionView {
        TypeDefinitionView { name: self.name@, kind: self.kind@ }
    }
}

/// What the engine gives for a struct, from its name and its list of
/// named members, where it has one. With the list, named members or none
/// in it, this is the implementation of the struct's descriptor. Without
/// one, it is the diagnostic for unnamed fields.
pub open spec fn struct_outcome(
    struct_name: Seq<char>,
    members: Option<Seq<FieldDefinitionView>>,
) -> Result<GeneratedImplementationView, DiagnosticView> {
    match members {
        Some(fields) => Ok(implementation_of(describe_record(struct_name, fields))),
        None => Err(rejection(RejectionReason::UnnamedFields)),
    }
}

/// What the engine gives for a definition. A struct gives what
/// [`struct_outcome`] says; every other definition gives the diagnostic
/// for what is no struct. No descriptor is built for a definition that is
/// refused.
pub open spec fn generation_outcome(definition: TypeDefinitionView) -> Result<
    GeneratedImplementationView,
    DiagnosticView,
> {
    match definition.kind {
        DefinitionKindView::Record(fields) => struct_outcome(definition.name, Some(fields)),
        DefinitionKindView::UnnamedRecord => struct_outcome(definition.name, None),
        DefinitionKindView::Other => Err(rejection(RejectionReason::NotAStruct)),
    }
}

/// The mathematical model of what the engine returns.
pub open spec fn outcome_view(result: Result<GeneratedImplementation, Diagnostic>) -> Result<
    GeneratedImplementationView,
    DiagnosticView,
> {
    match result {
        Ok(generated) => Ok(generated@),
        Err(diagnostic) => Err(diagnostic@),
    }
}

/// Generates the `ABIProvider` implementation for a struct. `members` is
/// the struct's list of named members, or `None` for a struct that has no
/// such list: a tuple struct or a unit struct.
///
/// With a list this always succeeds, whatever the types of the members
/// and also without any member: the descriptor is built and its text
/// emitted. Without a list it fails with the one diagnostic for unnamed
/// fields, an error with a fixed message, and nothing is built.
pub fn generate_abi_provider_for_struct(
    struct_name: &str,
    members: Option<&[FieldDefinition]>,
) -> (result: Result<GeneratedImplementation, Diagnostic>)
    ensures
        outcome_view(result) == struct_outcome(struct_name@, members.deep_view()),
        result is Ok <==> members is Some,
        members is Some ==> result is Ok && result->Ok_0@ == implementation_of(
            describe_record(struct_name@, members->0.deep_view()),
        ),
        members is None ==> result is Err && result->Err_0@ == rejection(
            RejectionReason::UnnamedFields,
        ) && result->Err_0@.severity == Severity::Error && result->Err_0@.message
            == UNNAMED_FIELDS@,
{
    match members {
        Some(fields) => {
            let descriptor = build(struct_name, fields);
            Ok(emit(&descriptor))
        },
        None => Err(reject(RejectionReason::UnnamedFields)),
    }
}

/// Generates the `ABIProvider` implementation for a type definition.
///
/// A struct with named fields always succeeds, whatever the types of its
/// fields and also without any field. Any other definition fails with
/// one diagnostic, and nothing is generated for it.
pub fn generate_abi_provider(definition: &TypeDefinition) -> (result: Result<
    GeneratedImplementation,
    Diagnostic,
>)
    ensures
        outcome_view(result) == generation_outcome(definition@),
        result is Ok <==> definition@.kind is Record,
        definition@.kind is Record ==> result is Ok && result->Ok_0@ == implementation_of(
            describe_record(definition@.name, definition@.kind->Record_0),
        ),
        definition@.kind is UnnamedRecord ==> result is Err && result->Err_0@ == rejection(
            RejectionReason::UnnamedFields,
        ),
        definition@.kind is Other ==> result is Err && result->Err_0@ == rejection(
            RejectionReason::NotAStruct,
        ),
        result is Err ==> result->Err_0@.severity == Severity::Error,
{
    match &definition.kind {
        DefinitionKind::Record(fields) => generate_abi_provider_for_struct(
            definition.name.as_str(),
            Some(fields.as_slice()),
        ),
        DefinitionKind::UnnamedRecord => generate_abi_provider_for_struct(
            definition.name.as_str(),
            None,
        ),
        DefinitionKind::Other => Err(reject(RejectionReason::NotAStruct)),
    }
}

/// Generation is deterministic: whatever the engine gives for two
/// definitions that read the same is the same, down to each character of
/// the source text and of the message.
pub proof fn lemma_generation_is_deterministic(
    first: TypeDefinition,
    second: TypeDefinition,
    first_result: Result<GeneratedImplementation, Diagnostic>,
    second_result: Result<GeneratedImplementation, Diagnostic>,
)
    requires
        first@ == second@,
        outcome_view(first_result) == generation_outcome(first@),
        outcome_view(second_result) == generation_outcome(second@),
    ensures
        outcome_view(first_result) == outcome_view(second_result),
        first_result is Ok <==> second_result is Ok,
        first_result is Ok ==> first_result->Ok_0@ == second_result->Ok_0@,
        first_result is Ok ==> first_result->Ok_0@.source_text == second_result->Ok_0@.source_text,
        first_result is Err ==> first_result->Err_0@ == second_result->Err_0@,
{
}

} // verus!
