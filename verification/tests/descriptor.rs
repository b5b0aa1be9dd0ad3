use attestation_derive::descriptor::{build, FieldDefinition, FieldDescriptor, RecordDescriptor};
use attestation_derive::type_info::TypeTag;

fn field(name: &str, type_expression: &str) -> FieldDefinition {
    FieldDefinition::new(name, type_expression)
}

fn described(name: &str, type_tag: TypeTag, byte_width: u32) -> FieldDescriptor {
    FieldDescriptor { name: name.to_string(), type_tag, byte_width }
}

#[test]
fn a_field_definition_holds_what_it_was_given() {
    let made = FieldDefinition::new("attester", "ContractAddress");
    assert_eq!(made.name, "attester");
    assert_eq!(made.type_expression, "ContractAddress");
    assert_eq!(
        made,
        FieldDefinition {
            name: "attester".to_string(),
            type_expression: "ContractAddress".to_string()
        }
    );
}

#[test]
fn build_keeps_every_field_in_its_place() {
    let fields = vec![
        field("attester", "ContractAddress"),
        field("value", "felt252"),
        field("timestamp", "u64"),
    ];
    let descriptor = build("Attestation", &fields);
    assert_eq!(
        descriptor,
        RecordDescriptor {
            name: "Attestation".to_string(),
            fields: vec![
                described("attester", TypeTag::ContractAddress, 32),
                described("value", TypeTag::Felt252, 32),
                described("timestamp", TypeTag::UInt64, 8),
            ],
            total_fixed_size: 72,
        }
    );
}

#[test]
fn build_sums_the_widths_of_the_table() {
    let fields = vec![
        field("attester", "ContractAddress"),
        field("value", "felt252"),
        field("timestamp", "u64"),
    ];
    let descriptor = build("Attestation", &fields);
    let widths: Vec<u32> = descriptor.fields.iter().map(|f| f.byte_width).collect();
    assert_eq!(widths, vec![32, 32, 8]);
    assert_eq!(descriptor.total_fixed_size, 72);
}

#[test]
fn build_sums_every_fixed_width() {
    let fields = vec![
        field("a", "u8"),
        field("b", "u16"),
        field("c", "u32"),
        field("d", "u64"),
        field("e", "u128"),
        field("f", "u256"),
        field("g", "bool"),
        field("h", "felt252"),
        field("i", "ContractAddress"),
    ];
    let descriptor = build("Wide", &fields);
    assert_eq!(descriptor.fields.len(), 9);
    assert_eq!(descriptor.total_fixed_size, 1 + 2 + 4 + 8 + 16 + 32 + 1 + 32 + 32);
}

#[test]
fn build_does_not_reorder_or_merge() {
    let fields = vec![
        field("z", "u64"),
        field("a", "u8"),
        field("z", "u64"),
        field("m", "bool"),
        field("a", "felt252"),
    ];
    let descriptor = build("Repeats", &fields);
    let names: Vec<&str> = descriptor.fields.iter().map(|f| f.name.as_str()).collect();
    assert_eq!(names, vec!["z", "a", "z", "m", "a"]);
    assert_eq!(descriptor.total_fixed_size, 8 + 1 + 8 + 1 + 32);
}

#[test]
fn a_field_of_variable_length_adds_nothing() {
    let with = vec![
        field("id", "u8"),
        field("text", "ByteArray"),
        field("items", "Array<felt252>"),
        field("view", "Span<u8>"),
        field("other", "MyType"),
        field("stamp", "u64"),
    ];
    let without = vec![field("id", "u8"), field("stamp", "u64")];
    let descriptor = build("Mixed", &with);
    assert_eq!(descriptor.total_fixed_size, 9);
    assert_eq!(descriptor.total_fixed_size, build("Mixed", &without).total_fixed_size);
    assert_eq!(descriptor.fields.len(), 6);
    assert_eq!(descriptor.fields[1], described("text", TypeTag::ByteArray, 0));
    assert_eq!(descriptor.fields[2], described("items", TypeTag::Array, 0));
    assert_eq!(descriptor.fields[3], described("view", TypeTag::Span, 0));
    assert_eq!(descriptor.fields[4], described("other", TypeTag::Unknown("MyType".to_string()), 0));
}

#[test]
fn a_record_of_one_byte_array() {
    let descriptor = build("Blob", &[field("data", "ByteArray")]);
    assert_eq!(descriptor.fields, vec![described("data", TypeTag::ByteArray, 0)]);
    assert_eq!(descriptor.total_fixed_size, 0);
    assert_eq!(descriptor.fields.len(), 1);
}

#[test]
fn a_record_without_fields() {
    let descriptor = build("Empty", &[]);
    assert_eq!(descriptor.name, "Empty");
    assert!(descriptor.fields.is_empty());
    assert_eq!(descriptor.total_fixed_size, 0);
}

#[test]
fn build_takes_many_fields() {
    let fields: Vec<FieldDefinition> =
        (0..5000).map(|i| field(&format!("f{}", i), "u256")).collect();
    let descriptor = build("Large", &fields);
    assert_eq!(descriptor.fields.len(), 5000);
    assert_eq!(descriptor.total_fixed_size, 160000);
    assert_eq!(descriptor.fields[4999].name, "f4999");
}
