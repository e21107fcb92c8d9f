use auto_plugin::codegen::{
    generate_add_events, generate_auto_names, generate_init_resources, generate_register_types,
};
use auto_plugin::errors::MacroError;
use auto_plugin::function_plugin;
use auto_plugin::module_plugin;
use auto_plugin::state::{
    finalize_and_drain, get_files_missing_plugin, update_state, FileStateMap, UpdateStateError,
};
use auto_plugin::syntax::{
    AttributeData, FnDecl, FnParam, ModuleItem, ModuleModel, StructOrEnumRef, TypePath,
    TypePathSegment,
};
use auto_plugin::util::Target;

fn s(x: &str) -> String {
    String::from(x)
}

fn seg(id: &str, args: &[&str]) -> TypePathSegment {
    TypePathSegment { ident: s(id), args: args.iter().map(|a| s(a)).collect() }
}

fn plain_path(id: &str) -> TypePath {
    TypePath { segments: vec![seg(id, &[])] }
}

fn generic_path(id: &str, args: &[&str]) -> TypePath {
    TypePath { segments: vec![seg(id, args)] }
}

fn bare_attr(name: &str) -> AttributeData {
    AttributeData { name: s(name), args: None }
}

fn attr_with(name: &str, p: TypePath) -> AttributeData {
    AttributeData { name: s(name), args: Some(vec![p]) }
}

fn struct_item(id: &str, generics: usize, attrs: Vec<AttributeData>) -> ModuleItem {
    ModuleItem::StructItem(StructOrEnumRef { ident: s(id), generics, attributes: attrs })
}

// ---------------------------------------------------------------------------
// Accumulation state
// ---------------------------------------------------------------------------

#[test]
fn recording_distinct_paths_accumulates_them_all() {
    let mut map = FileStateMap::new();
    let names = ["A", "B", "C", "D", "E"];
    for n in names {
        assert!(update_state(&mut map, s("f.rs"), plain_path(n), Target::RegisterTypes).is_ok());
    }
    let ctx = finalize_and_drain(&mut map, s("f.rs")).unwrap();
    assert_eq!(ctx.register_types.len(), names.len());
    for n in names {
        assert!(ctx.register_types.contains(&s(n)));
    }
}

#[test]
fn recording_same_path_twice_is_duplicate() {
    let mut map = FileStateMap::new();
    assert!(update_state(&mut map, s("f.rs"), generic_path("Bar", &["bool"]), Target::AddEvents)
        .is_ok());
    let r = update_state(&mut map, s("f.rs"), generic_path("Bar", &["bool"]), Target::AddEvents);
    assert_eq!(r, Err(UpdateStateError::Duplicate));
}

#[test]
fn same_path_under_different_kinds_is_no_duplicate() {
    let mut map = FileStateMap::new();
    assert!(update_state(&mut map, s("f.rs"), plain_path("Foo"), Target::RegisterTypes).is_ok());
    assert!(update_state(&mut map, s("f.rs"), plain_path("Foo"), Target::InitResources).is_ok());
    assert!(update_state(&mut map, s("f.rs"), plain_path("Foo"), Target::RequiredComponentAutoName)
        .is_ok());
}

#[test]
fn sessions_are_independent_per_file() {
    let mut map = FileStateMap::new();
    assert!(update_state(&mut map, s("a.rs"), plain_path("Foo"), Target::RegisterTypes).is_ok());
    assert!(update_state(&mut map, s("b.rs"), plain_path("Foo"), Target::RegisterTypes).is_ok());
    assert!(finalize_and_drain(&mut map, s("a.rs")).is_ok());
    assert!(update_state(&mut map, s("b.rs"), plain_path("Other"), Target::RegisterTypes).is_ok());
    assert_eq!(
        update_state(&mut map, s("a.rs"), plain_path("Other"), Target::RegisterTypes),
        Err(UpdateStateError::PluginAlreadyRegistered)
    );
}

#[test]
fn finalizing_twice_fails_the_second_time() {
    let mut map = FileStateMap::new();
    assert!(update_state(&mut map, s("f.rs"), plain_path("Foo"), Target::RegisterTypes).is_ok());
    assert!(finalize_and_drain(&mut map, s("f.rs")).is_ok());
    let r = finalize_and_drain(&mut map, s("f.rs"));
    assert!(matches!(r, Err(UpdateStateError::PluginAlreadyRegistered)));
}

#[test]
fn recording_into_finalized_session_fails() {
    let mut map = FileStateMap::new();
    assert!(finalize_and_drain(&mut map, s("f.rs")).is_ok());
    let r = update_state(&mut map, s("f.rs"), plain_path("Foo"), Target::RegisterTypes);
    assert_eq!(r, Err(UpdateStateError::PluginAlreadyRegistered));
}

#[test]
fn finalize_drains_the_sets_once() {
    let mut map = FileStateMap::new();
    assert!(update_state(&mut map, s("f.rs"), plain_path("Foo"), Target::RegisterTypes).is_ok());
    let first = finalize_and_drain(&mut map, s("f.rs")).unwrap();
    assert_eq!(first.register_types, vec![s("Foo")]);
    assert!(matches!(
        finalize_and_drain(&mut map, s("f.rs")),
        Err(UpdateStateError::PluginAlreadyRegistered)
    ));
}

#[test]
fn files_missing_plugin_lists_unfinalized_sessions() {
    let mut map = FileStateMap::new();
    assert!(update_state(&mut map, s("a.rs"), plain_path("Foo"), Target::RegisterTypes).is_ok());
    assert!(update_state(&mut map, s("b.rs"), plain_path("Foo"), Target::RegisterTypes).is_ok());
    assert!(update_state(&mut map, s("c.rs"), plain_path("Foo"), Target::RegisterTypes).is_ok());
    assert!(finalize_and_drain(&mut map, s("b.rs")).is_ok());
    assert_eq!(get_files_missing_plugin(&map), vec![s("a.rs"), s("c.rs")]);
}

// ---------------------------------------------------------------------------
// Code synthesis
// ---------------------------------------------------------------------------

#[test]
fn register_types_block_text() {
    let block = generate_register_types(&s("app"), &vec![s("Foo")]);
    assert_eq!(block, "{\napp.register_type::<Foo>();\n}");
}

#[test]
fn add_events_block_text() {
    let block = generate_add_events(&s("app"), &vec![s("Bar<bool>"), s("Bar<u32>")]);
    assert_eq!(block, "{\napp.add_event::<Bar<bool>>();\napp.add_event::<Bar<u32>>();\n}");
}

#[test]
fn init_resources_block_text() {
    let block = generate_init_resources(&s("app"), &vec![s("FooResource")]);
    assert_eq!(block, "{\napp.init_resource::<FooResource>();\n}");
}

#[test]
fn auto_names_block_pairs_path_with_its_text() {
    let block = generate_auto_names(&s("app"), &vec![s("Test")]);
    assert_eq!(
        block,
        "{\napp.register_required_components_with::<Test, Name>(|| Name::new(\"Test\"));\n}"
    );
}

#[test]
fn auto_names_block_with_generic_instantiation() {
    let block = generate_auto_names(&s("app"), &vec![s("Test<bool>")]);
    assert_eq!(
        block,
        "{\napp.register_required_components_with::<Test<bool>, Name>(|| Name::new(\"Test<bool>\"));\n}"
    );
}

#[test]
fn empty_block_is_just_braces() {
    assert_eq!(generate_register_types(&s("app"), &vec![]), "{\n}");
}

// ---------------------------------------------------------------------------
// Function-attached orchestration
// ---------------------------------------------------------------------------

fn app_fn() -> FnDecl {
    FnDecl { params: vec![FnParam { name: Some(s("app")), is_mut_ref: true }] }
}

#[test]
fn bare_marker_then_initializer_emits_one_call() {
    let mut map = FileStateMap::new();
    let item = struct_item("Foo", 0, vec![]);
    assert!(function_plugin::handle_attribute_inner(
        &mut map,
        s("x.rs"),
        &item,
        Target::RegisterTypes,
        None
    )
    .is_ok());
    let code = function_plugin::auto_plugin(&mut map, s("x.rs"), &app_fn(), &s("app")).unwrap();
    assert_eq!(
        code,
        "{\napp.register_type::<Foo>();\n}\n{\n}\n{\n}\n{\n}"
    );
}

#[test]
fn two_instantiations_accumulate_two_event_calls() {
    let mut map = FileStateMap::new();
    let item = struct_item("Bar", 1, vec![]);
    assert!(function_plugin::handle_attribute_inner(
        &mut map,
        s("x.rs"),
        &item,
        Target::AddEvents,
        Some(vec![generic_path("Bar", &["bool"])])
    )
    .is_ok());
    assert!(function_plugin::handle_attribute_inner(
        &mut map,
        s("x.rs"),
        &item,
        Target::AddEvents,
        Some(vec![generic_path("Bar", &["u32"])])
    )
    .is_ok());
    let code = function_plugin::auto_plugin(&mut map, s("x.rs"), &app_fn(), &s("app")).unwrap();
    assert_eq!(
        code,
        "{\n}\n{\napp.add_event::<Bar<bool>>();\napp.add_event::<Bar<u32>>();\n}\n{\n}\n{\n}"
    );
}

#[test]
fn identical_canonical_paths_fail_as_duplicate() {
    let mut map = FileStateMap::new();
    let item = struct_item("Bar", 1, vec![]);
    assert!(function_plugin::handle_attribute_inner(
        &mut map,
        s("x.rs"),
        &item,
        Target::AddEvents,
        Some(vec![generic_path("Bar", &["bool"])])
    )
    .is_ok());
    let r = function_plugin::handle_attribute_inner(
        &mut map,
        s("x.rs"),
        &item,
        Target::AddEvents,
        Some(vec![generic_path("Bar", &["bool"])]),
    );
    assert_eq!(r, Err(MacroError::Duplicate));
}

#[test]
fn initializer_twice_in_one_file_fails() {
    let mut map = FileStateMap::new();
    assert!(function_plugin::auto_plugin(&mut map, s("x.rs"), &app_fn(), &s("app")).is_ok());
    let r = function_plugin::auto_plugin(&mut map, s("x.rs"), &app_fn(), &s("app"));
    assert_eq!(r, Err(MacroError::PluginAlreadyRegistered));
}

#[test]
fn initializer_requires_mutable_reference_parameter() {
    let mut map = FileStateMap::new();
    let not_mut = FnDecl { params: vec![FnParam { name: Some(s("app")), is_mut_ref: false }] };
    assert_eq!(
        function_plugin::auto_plugin(&mut map, s("x.rs"), &not_mut, &s("app")),
        Err(MacroError::HostParameterNotMutableReference)
    );
    assert_eq!(
        function_plugin::auto_plugin(&mut map, s("x.rs"), &app_fn(), &s("nope")),
        Err(MacroError::HostParameterNotFound)
    );
    // Neither failed attempt finalized the session.
    assert!(function_plugin::auto_plugin(&mut map, s("x.rs"), &app_fn(), &s("app")).is_ok());
}

#[test]
fn function_attr_accepts_only_the_app_key() {
    let mut attrs = function_plugin::AutoPluginAttributes::new();
    assert_eq!(
        attrs.parse(&s("init_name"), s("x")),
        Err(MacroError::UnsupportedAttributeArgument)
    );
    assert!(attrs.parse(&s("app"), s("application")).is_ok());
    assert_eq!(attrs.app_param_name, Some(s("application")));
}

// ---------------------------------------------------------------------------
// Module-attached orchestration
// ---------------------------------------------------------------------------

#[test]
fn module_pass_synthesizes_and_appends_initializer() {
    let mut module = ModuleModel {
        content: Some(vec![struct_item("Foo", 0, vec![bare_attr("auto_register_type")])]),
    };
    let text = module_plugin::auto_plugin_inner(&mut module, &s("init")).unwrap().unwrap();
    assert_eq!(
        text,
        "pub(super) fn init(app: &mut bevy_app::prelude::App) {\n\
         {\napp.register_type::<Foo>();\n}\n{\n}\n{\n}\n{\n}\n}"
    );
    let items = module.content.unwrap();
    assert_eq!(items.len(), 2);
    assert!(matches!(&items[1], ModuleItem::FnItem(t) if *t == text));
}

#[test]
fn module_pass_collects_all_four_kinds() {
    let mut module = ModuleModel {
        content: Some(vec![
            struct_item("Comp", 0, vec![bare_attr("auto_register_type"), bare_attr("auto_name")]),
            struct_item("Ev", 0, vec![bare_attr("auto_add_event")]),
            struct_item("Res", 0, vec![bare_attr("auto_init_resource")]),
        ]),
    };
    let text = module_plugin::auto_plugin_inner(&mut module, &s("start")).unwrap().unwrap();
    assert_eq!(
        text,
        "pub(super) fn start(app: &mut bevy_app::prelude::App) {\n\
         {\napp.register_type::<Comp>();\n}\n\
         {\napp.add_event::<Ev>();\n}\n\
         {\napp.init_resource::<Res>();\n}\n\
         {\napp.register_required_components_with::<Comp, Name>(|| Name::new(\"Comp\"));\n}\n}"
    );
}

#[test]
fn module_without_body_yields_nothing() {
    let mut module = ModuleModel { content: None };
    let r = module_plugin::auto_plugin_inner(&mut module, &s("init")).unwrap();
    assert!(r.is_none());
    assert!(module.content.is_none());
}

#[test]
fn module_pass_propagates_scan_errors() {
    let mut module = ModuleModel {
        content: Some(vec![struct_item(
            "Bar",
            1,
            vec![attr_with("auto_register_type", generic_path("Wrong", &["bool"]))],
        )]),
    };
    let r = module_plugin::auto_plugin_inner(&mut module, &s("init"));
    assert_eq!(r, Err(MacroError::IdentifierMismatch));
    assert_eq!(module.content.map(|v| v.len()), Some(1));
}

#[test]
fn module_attr_defaults_to_init_and_accepts_override() {
    let mut attrs = module_plugin::AutoPluginAttributes::new();
    assert_eq!(attrs.init_name(), s("init"));
    assert_eq!(attrs.parse(&s("app"), s("x")), Err(MacroError::UnsupportedAttributeArgument));
    assert!(attrs.parse(&s("init_name"), s("setup")).is_ok());
    assert_eq!(attrs.init_name(), s("setup"));
}
