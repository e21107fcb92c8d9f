use auto_plugin::errors::MacroError;
use auto_plugin::syntax::{
    AttributeData, FnDecl, FnParam, ModuleItem, StructOrEnumRef, TypePath, TypePathSegment,
};
use auto_plugin::util::{
    count_generics, ident_to_path, is_fn_param_mutable_reference, items_with_attribute_macro,
    path_to_string, resolve_path_from_item_or_args, validate_generic_counts,
    FnParamMutabilityCheckErrMessages,
};

fn s(x: &str) -> String {
    String::from(x)
}

fn seg(id: &str, args: &[&str]) -> TypePathSegment {
    TypePathSegment { ident: s(id), args: args.iter().map(|a| s(a)).collect() }
}

fn plain_path(id: &str) -> TypePath {
    TypePath { segments: vec![seg(id, &[])] }
}

fn generic_path(id: &str, args: &[&str]) -> TypePath {
    TypePath { segments: vec![seg(id, args)] }
}

fn bare_attr(name: &str) -> AttributeData {
    AttributeData { name: s(name), args: None }
}

fn attr_with(name: &str, p: TypePath) -> AttributeData {
    AttributeData { name: s(name), args: Some(vec![p]) }
}

fn struct_item(id: &str, generics: usize, attrs: Vec<AttributeData>) -> ModuleItem {
    ModuleItem::StructItem(StructOrEnumRef { ident: s(id), generics, attributes: attrs })
}

#[test]
fn canonical_path_text() {
    assert_eq!(path_to_string(&plain_path("Foo")), "Foo");
    assert_eq!(path_to_string(&generic_path("Bar", &["bool"])), "Bar<bool>");
    assert_eq!(path_to_string(&generic_path("Baz", &["bool", "u32"])), "Baz<bool,u32>");
    let two_segments = TypePath { segments: vec![seg("outer", &[]), seg("Inner", &["u8"])] };
    assert_eq!(path_to_string(&two_segments), "outer::Inner<u8>");
}

#[test]
fn ident_to_path_is_unqualified() {
    let p = ident_to_path(&s("Widget"));
    assert_eq!(path_to_string(&p), "Widget");
    assert_eq!(count_generics(&p), 0);
}

#[test]
fn counting_generic_arguments() {
    assert_eq!(count_generics(&plain_path("Foo")), 0);
    assert_eq!(count_generics(&generic_path("Foo", &["bool"])), 1);
    assert_eq!(count_generics(&generic_path("Foo", &["bool", "u32"])), 2);
}

#[test]
fn validate_generic_counts_exactly() {
    assert!(validate_generic_counts(1, &generic_path("Foo", &["bool"])).is_ok());
    assert_eq!(
        validate_generic_counts(2, &generic_path("Foo", &["bool"])),
        Err(MacroError::ArityMismatch)
    );
    assert_eq!(
        validate_generic_counts(0, &generic_path("Foo", &["bool"])),
        Err(MacroError::ArityMismatch)
    );
    assert!(validate_generic_counts(0, &plain_path("Foo")).is_ok());
}

#[test]
fn resolve_bare_marker_uses_declaration_ident() {
    let item = struct_item("Foo", 0, vec![]);
    let p = resolve_path_from_item_or_args(&item, None).unwrap();
    assert_eq!(path_to_string(&p), "Foo");
}

#[test]
fn resolve_explicit_argument_matching_arity() {
    let item = struct_item("Bar", 1, vec![]);
    let p = resolve_path_from_item_or_args(&item, Some(vec![generic_path("Bar", &["bool"])]))
        .unwrap();
    assert_eq!(path_to_string(&p), "Bar<bool>");
}

#[test]
fn resolve_arity_mismatch_one_too_many() {
    let item = struct_item("Bar", 1, vec![]);
    let r = resolve_path_from_item_or_args(&item, Some(vec![generic_path("Bar", &["bool", "u32"])]));
    assert_eq!(r, Err(MacroError::ArityMismatch));
}

#[test]
fn resolve_arity_mismatch_one_too_few() {
    let item = struct_item("Bar", 2, vec![]);
    let r = resolve_path_from_item_or_args(&item, Some(vec![generic_path("Bar", &["bool"])]));
    assert_eq!(r, Err(MacroError::ArityMismatch));
}

#[test]
fn resolve_arity_mismatch_on_zero_arity_declaration() {
    let item = struct_item("Foo", 0, vec![]);
    let r = resolve_path_from_item_or_args(&item, Some(vec![generic_path("Foo", &["bool"])]));
    assert_eq!(r, Err(MacroError::ArityMismatch));
}

#[test]
fn resolve_identifier_mismatch_beats_arity() {
    let item = struct_item("Foo", 1, vec![]);
    let r = resolve_path_from_item_or_args(&item, Some(vec![generic_path("Other", &["bool"])]));
    assert_eq!(r, Err(MacroError::IdentifierMismatch));
    let r2 = resolve_path_from_item_or_args(&item, Some(vec![plain_path("Other")]));
    assert_eq!(r2, Err(MacroError::IdentifierMismatch));
}

#[test]
fn resolve_rejects_empty_and_multiple_arguments() {
    let item = struct_item("Foo", 0, vec![]);
    assert_eq!(
        resolve_path_from_item_or_args(&item, Some(vec![])),
        Err(MacroError::MissingPathArgument)
    );
    assert_eq!(
        resolve_path_from_item_or_args(&item, Some(vec![plain_path("Foo"), plain_path("Foo")])),
        Err(MacroError::MultiplePathArguments)
    );
}

#[test]
fn resolve_rejects_non_struct_or_enum() {
    let r = resolve_path_from_item_or_args(&ModuleItem::OtherItem, None);
    assert_eq!(r, Err(MacroError::NotAStructOrEnum));
}

#[test]
fn scanner_finds_bare_marker() {
    let items = vec![struct_item("Foo", 0, vec![bare_attr("auto_register_type")])];
    let found = items_with_attribute_macro(&items, "auto_register_type").unwrap();
    assert_eq!(found.len(), 1);
    let texts: Vec<String> = found.into_iter().map(|m| m.into_path_string()).collect();
    assert_eq!(texts, vec![s("Foo")]);
}

#[test]
fn scanner_bare_marker_on_generic_declaration_is_permitted() {
    // The argument-less form deliberately skips the arity check and
    // resolves to the unqualified identifier even on a generic declaration.
    let items = vec![struct_item("Baz", 1, vec![bare_attr("auto_register_type")])];
    let found = items_with_attribute_macro(&items, "auto_register_type").unwrap();
    assert_eq!(found.len(), 1);
    let texts: Vec<String> = found.into_iter().map(|m| m.into_path_string()).collect();
    assert_eq!(texts, vec![s("Baz")]);
}

#[test]
fn scanner_collects_repeated_instantiations() {
    let items = vec![struct_item(
        "Bar",
        1,
        vec![
            attr_with("auto_add_event", generic_path("Bar", &["bool"])),
            attr_with("auto_add_event", generic_path("Bar", &["u32"])),
        ],
    )];
    let found = items_with_attribute_macro(&items, "auto_add_event").unwrap();
    let texts: Vec<String> = found.into_iter().map(|m| m.into_path_string()).collect();
    assert_eq!(texts, vec![s("Bar<bool>"), s("Bar<u32>")]);
}

#[test]
fn scanner_skips_other_items_and_other_markers() {
    let items = vec![
        ModuleItem::OtherItem,
        ModuleItem::FnItem(s("fn helper() {}")),
        struct_item("Foo", 0, vec![bare_attr("derive")]),
        struct_item("Quux", 0, vec![bare_attr("auto_name")]),
    ];
    let found = items_with_attribute_macro(&items, "auto_register_type").unwrap();
    assert_eq!(found.len(), 0);
}

#[test]
fn scanner_rejects_arity_mismatch() {
    let items = vec![struct_item(
        "Bar",
        1,
        vec![attr_with("auto_add_event", plain_path("Bar"))],
    )];
    let r = items_with_attribute_macro(&items, "auto_add_event");
    assert_eq!(r.map(|v| v.len()), Err(MacroError::ArityMismatch));
}

#[test]
fn scanner_rejects_identifier_mismatch() {
    let items = vec![struct_item(
        "Bar",
        1,
        vec![attr_with("auto_add_event", generic_path("Qux", &["bool"]))],
    )];
    let r = items_with_attribute_macro(&items, "auto_add_event");
    assert_eq!(r.map(|v| v.len()), Err(MacroError::IdentifierMismatch));
}

#[test]
fn scanner_rejects_multiple_path_arguments() {
    let attr = AttributeData {
        name: s("auto_add_event"),
        args: Some(vec![plain_path("Foo"), plain_path("Foo")]),
    };
    let items = vec![struct_item("Foo", 0, vec![attr])];
    let r = items_with_attribute_macro(&items, "auto_add_event");
    assert_eq!(r.map(|v| v.len()), Err(MacroError::MultiplePathArguments));
}

#[test]
fn host_parameter_check_messages() {
    let messages = || FnParamMutabilityCheckErrMessages {
        not_mutable_message: s("param must be a mutable reference"),
        not_found_message: s("param not found"),
    };
    let func = FnDecl {
        params: vec![
            FnParam { name: None, is_mut_ref: false },
            FnParam { name: Some(s("app")), is_mut_ref: true },
        ],
    };
    assert!(is_fn_param_mutable_reference(&func, &s("app"), messages()).is_ok());
    let not_mut = FnDecl { params: vec![FnParam { name: Some(s("app")), is_mut_ref: false }] };
    assert_eq!(
        is_fn_param_mutable_reference(&not_mut, &s("app"), messages()),
        Err(s("param must be a mutable reference"))
    );
    assert_eq!(
        is_fn_param_mutable_reference(&func, &s("missing"), messages()),
        Err(s("param not found"))
    );
}
