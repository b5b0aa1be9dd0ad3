use attestation_derive::descriptor::FieldDefinition;
use attestation_derive::diagnostic::{Diagnostic, Severity};
use attestation_derive::plugin::{
    get_derive_attr_list, has_attestation_derive, Attribute, AttestationPlugin, ModuleItem,
    PluginGeneratedFile, PluginResult,
};
use attestation_derive::provider::{generate_abi_provider, DefinitionKind, TypeDefinition};

fn attribute(name: &str, arguments: Option<&[&str]>) -> Attribute {
    Attribute {
        name: name.to_string(),
        arguments: arguments.map(|list| list.iter().map(|a| a.to_string()).collect()),
    }
}

fn test_struct() -> TypeDefinition {
    TypeDefinition {
        name: "TestStruct".to_string(),
        kind: DefinitionKind::Record(vec![
            FieldDefinition::new("field1", "ContractAddress"),
            FieldDefinition::new("field2", "felt252"),
            FieldDefinition::new("field3", "u64"),
        ]),
    }
}

fn marked(definition: TypeDefinition) -> ModuleItem {
    ModuleItem {
        attributes: vec![attribute("derive", Some(&["Drop", "Serde", "Clone", "Attestation"]))],
        definition,
    }
}

fn nothing() -> PluginResult {
    PluginResult { code: None, diagnostics: vec![], remove_original_item: false }
}

#[test]
fn the_default_result_leaves_everything() {
    assert_eq!(PluginResult::default(), nothing());
}

#[test]
fn the_plugin_declares_derive() {
    assert_eq!(AttestationPlugin.declared_attributes(), vec!["derive".to_string()]);
    assert_eq!(AttestationPlugin::default().declared_attributes(), vec!["derive".to_string()]);
}

#[test]
fn a_marked_struct_gets_one_file() {
    let result = AttestationPlugin.generate_code(&marked(test_struct()));
    let expected = generate_abi_provider(&test_struct()).unwrap().source_text;
    assert!(expected.contains("impl TestStructABIProvider of ABIProvider<TestStruct> {"));
    assert_eq!(
        result,
        PluginResult {
            code: Some(PluginGeneratedFile {
                name: "TestStruct_abi_provider.cairo".to_string(),
                content: expected,
            }),
            diagnostics: vec![],
            remove_original_item: false,
        }
    );
}

#[test]
fn a_struct_without_the_marker_is_left_alone() {
    let item = ModuleItem {
        attributes: vec![attribute("derive", Some(&["Drop", "Serde", "Clone"]))],
        definition: test_struct(),
    };
    assert_eq!(AttestationPlugin.generate_code(&item), nothing());

    let bare = ModuleItem { attributes: vec![], definition: test_struct() };
    assert_eq!(AttestationPlugin.generate_code(&bare), nothing());
}

#[test]
fn a_marked_item_that_is_no_struct_gets_one_diagnostic() {
    let item =
        marked(TypeDefinition { name: "TestEnum".to_string(), kind: DefinitionKind::Other });
    assert_eq!(
        AttestationPlugin.generate_code(&item),
        PluginResult {
            code: None,
            diagnostics: vec![Diagnostic {
                message: "Only structs are supported".to_string(),
                severity: Severity::Error,
            }],
            remove_original_item: false,
        }
    );
}

#[test]
fn an_unmarked_item_that_is_no_struct_is_left_alone() {
    let bare = ModuleItem {
        attributes: vec![],
        definition: TypeDefinition { name: "TestEnum".to_string(), kind: DefinitionKind::Other },
    };
    assert_eq!(AttestationPlugin.generate_code(&bare), nothing());

    let other = ModuleItem {
        attributes: vec![attribute("derive", Some(&["Drop", "Serde"]))],
        definition: TypeDefinition { name: "TestEnum".to_string(), kind: DefinitionKind::Other },
    };
    assert_eq!(AttestationPlugin.generate_code(&other), nothing());
}

#[test]
fn an_unmarked_struct_without_field_names_is_left_alone() {
    let bare = ModuleItem {
        attributes: vec![attribute("derive", Some(&["Drop"]))],
        definition: TypeDefinition { name: "Pair".to_string(), kind: DefinitionKind::UnnamedRecord },
    };
    assert_eq!(AttestationPlugin.generate_code(&bare), nothing());
}

#[test]
fn a_marked_struct_without_field_names_gets_one_diagnostic() {
    let item =
        marked(TypeDefinition { name: "Pair".to_string(), kind: DefinitionKind::UnnamedRecord });
    let result = AttestationPlugin.generate_code(&item);
    assert!(result.code.is_none());
    assert_eq!(
        result.diagnostics,
        vec![Diagnostic {
            message: "Only structs with named fields are supported".to_string(),
            severity: Severity::Error,
        }]
    );
    assert!(!result.remove_original_item);
}

#[test]
fn a_marked_struct_without_fields_gets_its_file() {
    let item = marked(TypeDefinition {
        name: "Empty".to_string(),
        kind: DefinitionKind::Record(vec![]),
    });
    let result = AttestationPlugin.generate_code(&item);
    let file = result.code.unwrap();
    assert_eq!(file.name, "Empty_abi_provider.cairo");
    assert!(file.content.contains("    fn get_field_count() -> u32 {\n        0\n    }\n"));
    assert!(result.diagnostics.is_empty());
}

#[test]
fn the_marker_counts_in_any_derive_attribute() {
    let item = ModuleItem {
        attributes: vec![
            attribute("starknet::interface", None),
            attribute("derive", Some(&["Drop"])),
            attribute("derive", None),
            attribute("derive", Some(&["Serde", "Attestation", "Clone"])),
        ],
        definition: test_struct(),
    };
    assert!(has_attestation_derive(&item));
    assert!(AttestationPlugin.generate_code(&item).code.is_some());
}

#[test]
fn the_marker_counts_in_derive_only() {
    let elsewhere = ModuleItem {
        attributes: vec![
            attribute("other", Some(&["Attestation"])),
            attribute("Attestation", None),
            attribute("derive", Some(&["attestation", "Attestation2", " Attestation"])),
            attribute("derive", Some(&[])),
            attribute("Derive", Some(&["Attestation"])),
        ],
        definition: test_struct(),
    };
    assert!(!has_attestation_derive(&elsewhere));
    assert_eq!(AttestationPlugin.generate_code(&elsewhere), nothing());
}

#[test]
fn has_attestation_derive_reads_the_attributes_only() {
    let on_enum =
        marked(TypeDefinition { name: "TestEnum".to_string(), kind: DefinitionKind::Other });
    assert!(has_attestation_derive(&on_enum));
    let none = ModuleItem { attributes: vec![], definition: test_struct() };
    assert!(!has_attestation_derive(&none));
}

#[test]
fn the_derive_list_is_that_of_a_derive_attribute() {
    let derive = attribute("derive", Some(&["Drop", "Attestation"]));
    assert_eq!(
        get_derive_attr_list(&derive),
        Some(&vec!["Drop".to_string(), "Attestation".to_string()])
    );
    let empty = attribute("derive", Some(&[]));
    assert_eq!(get_derive_attr_list(&empty), Some(&vec![]));
    assert_eq!(get_derive_attr_list(&attribute("derive", None)), None);
    assert_eq!(get_derive_attr_list(&attribute("inline", Some(&["always"]))), None);
    assert_eq!(get_derive_attr_list(&attribute("", Some(&["Attestation"]))), None);
}
