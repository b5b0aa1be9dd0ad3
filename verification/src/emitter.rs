//! The code emitter: from a record descriptor to the source text of the
//! record's `ABIProvider` implementation.
//!
//! The text offers three operations. `get_abi` returns the descriptor,
//! each field and the total written out as literals. `get_field_count`
//! returns the number of fields, again as a literal, so that it does not
//! depend on `get_abi`. `serialize_to_array` hands the record to its own
//! `serialize` and returns what that collected.

use vstd::prelude::*;
use vstd::string::*;
use crate::decimal::{decimal, to_decimal};
use crate::descriptor::{FieldDescriptor, FieldDescriptorView, RecordDescriptor, RecordDescriptorView};

verus! {

// The pieces of the text, in the order in which they are written. Between
// them stand the record's name, the fields' names, tags and widths, the
// total and the number of fields.

/// Opens the statement of one field, up to the field's name.
pub const FIELD_OPENING: &'static str = "fields.append(ABIField {\n    name: \"";

/// Between a field's name and the name of its tag.
pub const FIELD_TYPE: &'static str = "\",\n    field_type: \"";

/// Between the name of a field's tag and its width.
pub const FIELD_SIZE: &'static str = "\",\n    size_bytes: ";

/// Closes the statement of one field.
pub const FIELD_CLOSING: &'static str = ",\n});\n";

/// What stands between the statements of two consecutive fields. The lines
/// of a statement begin at the margin, and this indents only its first
/// line; the generated language does not go by indentation.
pub const FIELD_SEPARATOR: &'static str = "\n            ";

/// Opens the text, up to the first place of the record's name.
pub const DOC_OPENING: &'static str = "/// Auto-generated ABIProvider implementation for ";

/// Opens the implementation, up to its name.
pub const IMPL_OPENING: &'static str = "\nimpl ";

/// Between the implementation's name and the record as the trait's
/// parameter.
pub const IMPL_TRAIT: &'static str = "ABIProvider of ABIProvider<";

/// Opens `get_abi`, up to the statements of the fields.
pub const GET_ABI_OPENING: &'static str =
    "> {\n    fn get_abi() -> StructABI {\n        let mut fields = array![];\n\n        ";

/// Opens the descriptor that `get_abi` returns, up to the record's name.
pub const STRUCT_ABI_OPENING: &'static str = "\n\n        StructABI {\n            name: \"";

/// Between the record's name and the total.
pub const TOTAL_SIZE: &'static str = "\",\n            fields,\n            total_size: ";

/// Closes `get_abi` and opens `get_field_count`, up to the number of
/// fields.
pub const FIELD_COUNT_OPENING: &'static str =
    ",\n        }\n    }\n\n    fn get_field_count() -> u32 {\n        ";

/// Closes `get_field_count` and opens `serialize_to_array`, up to the type
/// of its parameter.
pub const SERIALIZE_OPENING: &'static str = "\n    }\n\n    fn serialize_to_array(self: ";

/// The rest of `serialize_to_array`, and the end of the implementation.
pub const SERIALIZE_BODY: &'static str =
    ") -> Array<felt252> {\n        let mut serialized = array![];\n        self.serialize(ref serialized);\n        serialized\n    }\n}\n";

/// The generated implementation of one record.
#[derive(Debug, PartialEq, Eq)]
pub struct GeneratedImplementation {
    pub target_record_name: String,
    /// The number of fields, which `source_text` holds as a literal.
    pub field_count: usize,
    pub source_text: String,
}

/// The mathematical model of a [`GeneratedImplementation`].
pub ghost struct GeneratedImplementationView {
    pub target_record_name: Seq<char>,
    pub field_count: nat,
    pub source_text: Seq<char>,
}

impl View for GeneratedImplementation {
    type V = GeneratedImplementationView;

    open spec fn view(&self) -> GeneratedImplementationView {
        GeneratedImplementationView {
            target_record_name: self.target_record_name@,
            field_count: self.field_count as nat,
            source_text: self.source_text@,
        }
    }
}

/// The statement that appends one field to the list that `get_abi`
/// builds: the field's name, the name of its tag and its width.
pub open spec fn field_definition_text(field: FieldDescriptorView) -> Seq<char> {
    FIELD_OPENING@ + field.name + FIELD_TYPE@ + field.type_tag.name() + FIELD_SIZE@ + decimal(
        field.byte_width,
    ) + FIELD_CLOSING@
}

/// The statements of all fields in their order, [`FIELD_SEPARATOR`]
/// between each two; empty for a record without fields.
pub open spec fn field_definitions_text(fields: Seq<FieldDescriptorView>) -> Seq<char>
    decreases fields.len(),
{
    if fields.len() == 0 {
        Seq::empty()
    } else if fields.len() == 1 {
        field_definition_text(fields[0])
    } else {
        field_definitions_text(fields.drop_last()) + FIELD_SEPARATOR@ + field_definition_text(
            fields.last(),
        )
    }
}

/// The whole source text for a descriptor. The record's name stands in it
/// five times, the total and the number of fields once each, in decimal
/// notation.
pub open spec fn source_text(descriptor: RecordDescriptorView) -> Seq<char> {
    DOC_OPENING@ + descriptor.name + IMPL_OPENING@ + descriptor.name + IMPL_TRAIT@
        + descriptor.name + GET_ABI_OPENING@ + field_definitions_text(descriptor.fields)
        + STRUCT_ABI_OPENING@ + descriptor.name + TOTAL_SIZE@ + decimal(
        descriptor.total_fixed_size,
    ) + FIELD_COUNT_OPENING@ + decimal(descriptor.fields.len()) + SERIALIZE_OPENING@
        + descriptor.name + SERIALIZE_BODY@
}

/// The implementation generated for a descriptor.
pub open spec fn implementation_of(descriptor: RecordDescriptorView) -> GeneratedImplementationView {
    GeneratedImplementationView {
        target_record_name: descriptor.name,
        field_count: descriptor.fields.len(),
        source_text: source_text(descriptor),
    }
}

/// Writes the statement for one field.
fn field_definition(field: &FieldDescriptor) -> (text: String)
    ensures
        text@ == field_definition_text(field@),
{
    let mut text = String::new();
    text.append(FIELD_OPENING);
    text.append(field.name.as_str());
    text.append(FIELD_TYPE);
    text.append(field.type_tag.name());
    text.append(FIELD_SIZE);
    text.append(to_decimal(field.byte_width as u128).as_str());
    text.append(FIELD_CLOSING);
    text
}

/// Writes the statements for all fields.
fn field_definitions(fields: &Vec<FieldDescriptor>) -> (text: String)
    ensures
        text@ == field_definitions_text(fields.deep_view()),
{
    let mut text = String::new();
    let mut i: usize = 0;
    while i < fields.len()
        invariant
            0 <= i <= fields.len(),
            text@ == field_definitions_text(fields.deep_view().take(i as int)),
        decreases fields.len() - i,
    {
        proof {
            let upto = fields.deep_view().take(i + 1);
            assert(upto.drop_last() == fields.deep_view().take(i as int));
            assert(upto.last() == fields[i as int]@);
        }
        if i > 0 {
            text.append(FIELD_SEPARATOR);
        }
        text.append(field_definition(&fields[i]).as_str());
        i = i + 1;
    }
    assert(fields.deep_view().take(i as int) == fields.deep_view());
    text
}

/// Generates the implementation for a descriptor. The descriptor's values
/// are written as they stand; nothing is computed again from the fields
/// but their number.
pub fn emit(descriptor: &RecordDescriptor) -> (generated: GeneratedImplementation)
    ensures
        generated@ == implementation_of(descriptor@),
        generated@.target_record_name == descriptor@.name,
        generated@.field_count == descriptor@.fields.len(),
        generated@.source_text == source_text(descriptor@),
{
    let name = descriptor.name.as_str();
    let field_count = descriptor.fields.len();
    let mut text = String::new();
    text.append(DOC_OPENING);
    text.append(name);
    text.append(IMPL_OPENING);
    text.append(name);
    text.append(IMPL_TRAIT);
    text.append(name);
    text.append(GET_ABI_OPENING);
    text.append(field_definitions(&descriptor.fields).as_str());
    text.append(STRUCT_ABI_OPENING);
    text.append(name);
    text.append(TOTAL_SIZE);
    text.append(to_decimal(descriptor.total_fixed_size).as_str());
    text.append(FIELD_COUNT_OPENING);
    text.append(to_decimal(field_count as u128).as_str());
    text.append(SERIALIZE_OPENING);
    text.append(name);
    text.append(SERIALIZE_BODY);
    GeneratedImplementation {
        target_record_name: descriptor.name.clone(),
        field_count,
        source_text: text,
    }
}

} // verus!
