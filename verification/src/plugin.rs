//! The compiler plugin's decisions: which items it acts on, and what it
//! hands back for them.
//!
//! The plugin acts on every item that carries `Attestation` in a `derive`
//! attribute, and on no other. For a marked struct with named fields it
//! gives one generated file, named after the struct. For any other marked
//! item it gives one diagnostic. The item itself always stays.

use vstd::prelude::*;
use vstd::string::*;
use crate::diagnostic::{rejection, Diagnostic, DiagnosticView, RejectionReason, Severity};
use crate::provider::{
    generate_abi_provider,
    generation_outcome,
    TypeDefinition,
    TypeDefinitionView,
};
use crate::text::same_text;

verus! {

/// The attribute in which the plugin looks for its marker.
pub const DERIVE_ATTRIBUTE: &'static str = "derive";

/// The marker that asks for an implementation.
pub const ATTESTATION_MARKER: &'static str = "Attestation";

/// What follows the struct's name in the name of the generated file.
pub const FILE_NAME_ENDING: &'static str = "_abi_provider.cairo";

/// One attribute of an item: its name and, where it has a list of
/// arguments, the text of each argument without white space.
#[derive(Debug, PartialEq, Eq)]
pub struct Attribute {
    pub name: String,
    pub arguments: Option<Vec<String>>,
}

/// The mathematical model of an [`Attribute`].
pub ghost struct AttributeView {
    pub name: Seq<char>,
    pub arguments: Option<Seq<Seq<char>>>,
}

impl View for Attribute {
    type V = AttributeView;

    open spec fn view(&self) -> AttributeView {
        AttributeView { name: self.name@, arguments: self.arguments.deep_view() }
    }
}

impl DeepView for Attribute {
    type V = AttributeView;

    open spec fn deep_view(&self) -> AttributeView {
        self@
    }
}

/// An item of a module as the plugin reads it: its attributes and the
/// type that it defines.
#[derive(Debug, PartialEq, Eq)]
pub struct ModuleItem {
    pub attributes: Vec<Attribute>,
    pub definition: TypeDefinition,
}

/// The mathematical model of a [`ModuleItem`].
pub ghost struct ModuleItemView {
    pub attributes: Seq<AttributeView>,
    pub definition: TypeDefinitionView,
}

impl View for ModuleItem {
    type V = ModuleItemView;

    open spec fn view(&self) -> ModuleItemView {
        ModuleItemView { attributes: self.attributes.deep_view(), definition: self.definition@ }
    }
}

/// A file that the plugin generated, with its name and its text.
#[derive(Debug, PartialEq, Eq)]
pub struct PluginGeneratedFile {
    pub name: String,
    pub content: String,
}

/// The mathematical model of a [`PluginGeneratedFile`].
pub ghost struct PluginGeneratedFileView {
    pub name: Seq<char>,
    pub content: Seq<char>,
}

impl View for PluginGeneratedFile {
    type V = PluginGeneratedFileView;

    open spec fn view(&self) -> PluginGeneratedFileView {
        PluginGeneratedFileView { name: self.name@, content: self.content@ }
    }
}

impl DeepView for PluginGeneratedFile {
    type V = PluginGeneratedFileView;

    open spec fn deep_view(&self) -> PluginGeneratedFileView {
        self@
    }
}

/// What the plugin hands back for one item.
#[derive(Debug, PartialEq, Eq)]
pub struct PluginResult {
    pub code: Option<PluginGeneratedFile>,
    pub diagnostics: Vec<Diagnostic>,
    /// Whether the item is to be taken out of the module.
    pub remove_original_item: bool,
}

/// The mathematical model of a [`PluginResult`].
pub ghost struct PluginResultView {
    pub code: Option<PluginGeneratedFileView>,
    pub diagnostics: Seq<DiagnosticView>,
    pub remove_original_item: bool,
}

impl View for PluginResult {
    type V = PluginResultView;

    open spec fn view(&self) -> PluginResultView {
        PluginResultView {
            code: self.code.deep_view(),
            diagnostics: self.diagnostics.deep_view(),
            remove_original_item: self.remove_original_item,
        }
    }
}

/// The result that leaves everything as it is: no file, no diagnostic,
/// and the item stays.
pub open spec fn no_action() -> PluginResultView {
    PluginResultView { code: None, diagnostics: Seq::empty(), remove_original_item: false }
}

impl Default for PluginResult {
    fn default() -> (result: PluginResult)
        ensures
            result@ == no_action(),
    {
        let result = PluginResult {
            code: None,
            diagnostics: Vec::new(),
            remove_original_item: false,
        };
        assert(result.diagnostics.deep_view() == Seq::<DiagnosticView>::empty());
        result
    }
}

/// The arguments of an attribute if it is a `derive` with a list of
/// arguments, and nothing for any other attribute.
pub open spec fn derive_list(attribute: AttributeView) -> Option<Seq<Seq<char>>> {
    if attribute.name == DERIVE_ATTRIBUTE@ {
        attribute.arguments
    } else {
        None
    }
}

/// Whether some `derive` attribute among `attributes` names `Attestation`.
pub open spec fn carries_attestation_derive(attributes: Seq<AttributeView>) -> bool {
    exists|i: int|
        0 <= i < attributes.len() && (#[trigger] derive_list(attributes[i])) is Some
            && derive_list(attributes[i])->0.contains(ATTESTATION_MARKER@)
}

/// The name of the file generated for the record `record_name`.
pub open spec fn generated_file_name(record_name: Seq<char>) -> Seq<char> {
    record_name + FILE_NAME_ENDING@
}

/// What the plugin hands back for an item. An item without the marker is
/// left alone, whatever it defines. For a marked item the engine
/// decides: its text becomes the one generated file, or its diagnostic
/// the one diagnostic.
pub open spec fn plugin_outcome(item: ModuleItemView) -> PluginResultView {
    if !carries_attestation_derive(item.attributes) {
        no_action()
    } else {
        match generation_outcome(item.definition) {
            Ok(generated) => PluginResultView {
                code: Some(
                    PluginGeneratedFileView {
                        name: generated_file_name(item.definition.name),
                        content: generated.source_text,
                    },
                ),
                diagnostics: Seq::empty(),
                remove_original_item: false,
            },
            Err(diagnostic) => PluginResultView {
                code: None,
                diagnostics: seq![diagnostic],
                remove_original_item: false,
            },
        }
    }
}

/// The arguments of `attribute` if it is a `derive` attribute that has a
/// list of arguments.
pub fn get_derive_attr_list(attribute: &Attribute) -> (list: Option<&Vec<String>>)
    ensures
        list.deep_view() == derive_list(attribute@),
        list is Some <==> attribute@.name == DERIVE_ATTRIBUTE@ && attribute.arguments is Some,
        list is Some ==> *list->0 == attribute.arguments->0,
{
    if !same_text(attribute.name.as_str(), DERIVE_ATTRIBUTE) {
        return None;
    }
    match &attribute.arguments {
        Some(arguments) => Some(arguments),
        None => None,
    }
}

/// Whether `names` holds the marker.
fn names_attestation(names: &Vec<String>) -> (found: bool)
    ensures
        found == names.deep_view().contains(ATTESTATION_MARKER@),
{
    let mut i: usize = 0;
    while i < names.len()
        invariant
            0 <= i <= names.len(),
            forall|j: int| 0 <= j < i ==> names.deep_view()[j] != ATTESTATION_MARKER@,
        decreases names.len() - i,
    {
        if same_text(names[i].as_str(), ATTESTATION_MARKER) {
            assert(names.deep_view()[i as int] == ATTESTATION_MARKER@);
            return true;
        }
        i = i + 1;
    }
    false
}

/// Whether the item carries `Attestation` in one of its `derive`
/// attributes.
pub fn has_attestation_derive(item: &ModuleItem) -> (found: bool)
    ensures
        found == carries_attestation_derive(item@.attributes),
{
    let mut i: usize = 0;
    while i < item.attributes.len()
        invariant
            0 <= i <= item.attributes.len(),
            forall|j: int|
                0 <= j < i ==> !((#[trigger] derive_list(item@.attributes[j])) is Some
                    && derive_list(item@.attributes[j])->0.contains(ATTESTATION_MARKER@)),
        decreases item.attributes.len() - i,
    {
        if let Some(names) = get_derive_attr_list(&item.attributes[i]) {
            if names_attestation(names) {
                assert(derive_list(item@.attributes[i as int]) is Some);
                return true;
            }
        }
        i = i + 1;
    }
    false
}

/// The plugin. It holds no state: each item is decided on its own.
#[derive(Debug, Default)]
pub struct AttestationPlugin;

impl AttestationPlugin {
    /// Decides what to generate for one item of a module.
    ///
    /// An item without the marker gets nothing. A marked item gets either
    /// one file and no diagnostic, where it is a struct with named fields,
    /// or no file and one diagnostic, an error, where it is anything else.
    /// The item is never taken out of its module.
    pub fn generate_code(&self, item: &ModuleItem) -> (result: PluginResult)
        ensures
            result@ == plugin_outcome(item@),
            !result@.remove_original_item,
            !carries_attestation_derive(item@.attributes) ==> result@ == no_action(),
            result@.code is Some <==> carries_attestation_derive(item@.attributes)
                && item@.definition.kind is Record,
            result@.code is Some ==> result@.diagnostics.len() == 0,
            result@.code is None ==> result@.diagnostics.len() <= 1,
            result@.diagnostics.len() == 1 <==> carries_attestation_derive(item@.attributes)
                && !(item@.definition.kind is Record),
            carries_attestation_derive(item@.attributes) && item@.definition.kind is Other
                ==> result@.diagnostics == seq![rejection(RejectionReason::NotAStruct)],
            carries_attestation_derive(item@.attributes) && item@.definition.kind is UnnamedRecord
                ==> result@.diagnostics == seq![rejection(RejectionReason::UnnamedFields)],
            forall|i: int|
                0 <= i < result@.diagnostics.len() ==> (#[trigger] result@.diagnostics[i]).severity
                    == Severity::Error,
    {
        if !has_attestation_derive(item) {
            return PluginResult::default();
        }
        match generate_abi_provider(&item.definition) {
            Ok(generated) => {
                let mut name = item.definition.name.clone();
                name.append(FILE_NAME_ENDING);
                let result = PluginResult {
                    code: Some(PluginGeneratedFile { name, content: generated.source_text }),
                    diagnostics: Vec::new(),
                    remove_original_item: false,
                };
                assert(result.diagnostics.deep_view() == Seq::<DiagnosticView>::empty());
                result
            },
            Err(diagnostic) => {
                let ghost reported = diagnostic@;
                let mut diagnostics = Vec::new();
                diagnostics.push(diagnostic);
                assert(diagnostics.deep_view() == seq![reported]);
                PluginResult { code: None, diagnostics, remove_original_item: false }
            },
        }
    }

    /// The attributes that the plugin reads: `derive` alone.
    pub fn declared_attributes(&self) -> (attributes: Vec<String>)
        ensures
            attributes.deep_view() == seq![DERIVE_ATTRIBUTE@],
    {
        let mut attributes = Vec::new();
        attributes.push(DERIVE_ATTRIBUTE.to_owned());
        assert(attributes.deep_view() == seq![DERIVE_ATTRIBUTE@]);
        attributes
    }
}

} // verus!
