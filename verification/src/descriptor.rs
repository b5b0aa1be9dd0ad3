//! The descriptor builder: from the ordered fields of a record to the
//! description of its layout.

use vstd::prelude::*;
use crate::type_info::{classification, classify, TypeTag, TypeTagView};

verus! {

/// One field of a record as it was declared: its name and the text of its
/// type as written, with no white space before or after it.
#[derive(Debug, PartialEq, Eq)]
pub struct FieldDefinition {
    pub name: String,
    pub type_expression: String,
}

/// The mathematical model of a [`FieldDefinition`].
pub ghost struct FieldDefinitionView {
    pub name: Seq<char>,
    pub type_expression: Seq<char>,
}

impl View for FieldDefinition {
    type V = FieldDefinitionView;

    open spec fn view(&self) -> FieldDefinitionView {
        FieldDefinitionView { name: self.name@, type_expression: self.type_expression@ }
    }
}

impl DeepView for FieldDefinition {
    type V = FieldDefinitionView;

    open spec fn deep_view(&self) -> FieldDefinitionView {
        self@
    }
}

impl FieldDefinition {
    /// A field with the given name and type.
    pub fn new(name: &str, type_expression: &str) -> (field: FieldDefinition)
        ensures
            field@ == (FieldDefinitionView { name: name@, type_expression: type_expression@ }),
    {
        FieldDefinition { name: name.to_owned(), type_expression: type_expression.to_owned() }
    }
}

/// The classified shape of one field.
#[derive(Debug, PartialEq, Eq)]
pub struct FieldDescriptor {
    pub name: String,
    pub type_tag: TypeTag,
    /// The fixed width of the field in bytes, 0 for a field of variable
    /// length or of an unknown type.
    pub byte_width: u32,
}

/// The mathematical model of a [`FieldDescriptor`].
pub ghost struct FieldDescriptorView {
    pub name: Seq<char>,
    pub type_tag: TypeTagView,
    pub byte_width: nat,
}

impl View for FieldDescriptor {
    type V = FieldDescriptorView;

    open spec fn view(&self) -> FieldDescriptorView {
        FieldDescriptorView {
            name: self.name@,
            type_tag: self.type_tag@,
            byte_width: self.byte_width as nat,
        }
    }
}

impl DeepView for FieldDescriptor {
    type V = FieldDescriptorView;

    open spec fn deep_view(&self) -> FieldDescriptorView {
        self@
    }
}

/// The layout of one record: its fields in the order of their declaration
/// and the sum of their fixed widths.
#[derive(Debug, PartialEq, Eq)]
pub struct RecordDescriptor {
    pub name: String,
    pub fields: Vec<FieldDescriptor>,
    /// The sum of the fields' byte widths. Fields of variable length count
    /// as 0, so this is the size of the fixed part only. The type is wide
    /// enough for the sum over any number of fields.
    pub total_fixed_size: u128,
}

/// The mathematical model of a [`RecordDescriptor`].
pub ghost struct RecordDescriptorView {
    pub name: Seq<char>,
    pub fields: Seq<FieldDescriptorView>,
    pub total_fixed_size: nat,
}

impl View for RecordDescriptor {
    type V = RecordDescriptorView;

    open spec fn view(&self) -> RecordDescriptorView {
        RecordDescriptorView {
            name: self.name@,
            fields: self.fields.deep_view(),
            total_fixed_size: self.total_fixed_size as nat,
        }
    }
}

/// The sum of the byte widths of `fields`.
pub open spec fn total_width(fields: Seq<FieldDescriptorView>) -> nat
    decreases fields.len(),
{
    if fields.len() == 0 {
        0
    } else {
        total_width(fields.drop_last()) + fields.last().byte_width
    }
}

impl RecordDescriptorView {
    /// A descriptor is consistent when each field has the width of its tag
    /// and the total is the sum of the fields' widths.
    pub open spec fn is_consistent(self) -> bool {
        &&& forall|i: int|
            0 <= i < self.fields.len() ==> (#[trigger] self.fields[i]).byte_width
                == self.fields[i].type_tag.byte_width()
        &&& self.total_fixed_size == total_width(self.fields)
    }
}

/// The descriptor of one declared field: the same name, the tag of its
/// type and the width of that tag.
pub open spec fn describe_field(field: FieldDefinitionView) -> FieldDescriptorView {
    FieldDescriptorView {
        name: field.name,
        type_tag: classification(field.type_expression),
        byte_width: classification(field.type_expression).byte_width(),
    }
}

/// The descriptor of a record: one field descriptor for each declared
/// field, in the same order, and the sum of their widths.
pub open spec fn describe_record(
    name: Seq<char>,
    fields: Seq<FieldDefinitionView>,
) -> RecordDescriptorView {
    RecordDescriptorView {
        name,
        fields: fields.map_values(|field: FieldDefinitionView| describe_field(field)),
        total_fixed_size: total_width(
            fields.map_values(|field: FieldDefinitionView| describe_field(field)),
        ),
    }
}

/// Builds the descriptor of the record `record_name` from its fields in
/// the order of their declaration. Nothing is reordered, left out or
/// merged, and no field list is refused: an empty one gives a descriptor
/// without fields and with the total 0. Field names are taken as they
/// come; that they differ from each other is the caller's matter.
pub fn build(record_name: &str, ordered_fields: &[FieldDefinition]) -> (descriptor: RecordDescriptor)
    ensures
        descriptor@ == describe_record(record_name@, ordered_fields.deep_view()),
        descriptor@.name == record_name@,
        descriptor@.fields.len() == ordered_fields@.len(),
        forall|i: int|
            0 <= i < ordered_fields@.len() ==> #[trigger] descriptor@.fields[i] == describe_field(
                ordered_fields@[i]@,
            ),
        descriptor@.total_fixed_size == total_width(descriptor@.fields),
        descriptor@.total_fixed_size == table_width_sum(ordered_fields.deep_view()),
        descriptor@.is_consistent(),
{
    let ghost wanted = ordered_fields.deep_view().map_values(
        |field: FieldDefinitionView| describe_field(field),
    );
    let mut fields: Vec<FieldDescriptor> = Vec::new();
    let mut total: u128 = 0;
    let mut i: usize = 0;
    while i < ordered_fields.len()
        invariant
            0 <= i <= ordered_fields@.len(),
            wanted == ordered_fields.deep_view().map_values(
                |field: FieldDefinitionView| describe_field(field),
            ),
            fields.deep_view() == wanted.take(i as int),
            total == total_width(wanted.take(i as int)),
            total <= 32 * i,
        decreases ordered_fields@.len() - i,
    {
        let field = &ordered_fields[i];
        let (type_tag, byte_width) = classify(field.type_expression.as_str());
        let described = FieldDescriptor { name: field.name.clone(), type_tag, byte_width };
        proof {
            assert(described@ == wanted[i as int]);
            assert(wanted.take(i + 1).drop_last() == wanted.take(i as int));
            assert(fields.deep_view().push(described@) == wanted.take(i + 1));
        }
        fields.push(described);
        total = total + byte_width as u128;
        i = i + 1;
    }
    proof {
        assert(wanted.take(i as int) == wanted);
        lemma_total_is_sum_of_table_widths(record_name@, ordered_fields.deep_view());
    }
    RecordDescriptor { name: record_name.to_owned(), fields, total_fixed_size: total }
}

/// The sum, over `fields`, of the width that the classifier's table gives
/// to the type of each field.
pub open spec fn table_width_sum(fields: Seq<FieldDefinitionView>) -> nat
    decreases fields.len(),
{
    if fields.len() == 0 {
        0
    } else {
        table_width_sum(fields.drop_last()) + classification(
            fields.last().type_expression,
        ).byte_width()
    }
}

/// The total of a record is the sum of the table's widths over all its
/// fields, and the record has as many field descriptors as fields.
pub proof fn lemma_total_is_sum_of_table_widths(name: Seq<char>, fields: Seq<FieldDefinitionView>)
    ensures
        describe_record(name, fields).fields.len() == fields.len(),
        describe_record(name, fields).total_fixed_size == table_width_sum(fields),
        describe_record(name, fields).is_consistent(),
    decreases fields.len(),
{
    let described = fields.map_values(|field: FieldDefinitionView| describe_field(field));
    if fields.len() > 0 {
        lemma_total_is_sum_of_table_widths(name, fields.drop_last());
        assert(described.drop_last() == fields.drop_last().map_values(
            |field: FieldDefinitionView| describe_field(field),
        ));
    }
}

/// Without the field at `i`, the total is lower by that field's width.
proof fn lemma_total_width_remove(fields: Seq<FieldDescriptorView>, i: int)
    requires
        0 <= i < fields.len(),
    ensures
        total_width(fields) == total_width(fields.remove(i)) + fields[i].byte_width,
    decreases fields.len(),
{
    if i == fields.len() - 1 {
        assert(fields.remove(i) == fields.drop_last());
    } else {
        lemma_total_width_remove(fields.drop_last(), i);
        assert(fields.remove(i).drop_last() == fields.drop_last().remove(i));
        assert(fields.remove(i).last() == fields.last());
    }
}

/// A field of variable length adds nothing to the total: where the type
/// of the field at `i` is a `ByteArray`, an `Array`, a `Span` or unknown,
/// the record has the same total with and without that field.
pub proof fn lemma_variable_length_field_adds_nothing(
    name: Seq<char>,
    fields: Seq<FieldDefinitionView>,
    i: int,
)
    requires
        0 <= i < fields.len(),
        classification(fields[i].type_expression).is_variable_length(),
    ensures
        describe_record(name, fields).fields[i].byte_width == 0,
        describe_record(name, fields).total_fixed_size == describe_record(
            name,
            fields.remove(i),
        ).total_fixed_size,
{
    let described = fields.map_values(|field: FieldDefinitionView| describe_field(field));
    let others = fields.remove(i).map_values(|field: FieldDefinitionView| describe_field(field));
    assert(described.remove(i) == others);
    lemma_total_width_remove(described, i);
}

} // verus!
