//! Module-attached orchestration: a single scan-then-synthesize pass.
//!
//! The module's own declaration list is scanned for all four marker kinds,
//! every occurrence's path is resolved and validated, the four call blocks
//! are synthesized, and an initializer function (named `init` unless
//! overridden) is appended to the module as its last item. There is no
//! cross-invocation state: each module is processed exactly once.

use vstd::prelude::*;
use vstd::string::*;

use crate::codegen::{
    block_text, generate_add_events, generate_auto_names, generate_init_resources,
    generate_register_types,
};
use crate::errors::MacroError;
use crate::strutil::str_eq;
use crate::syntax::{seq_views, ItemVu, ModuleItem, ModuleModel};
use crate::util::{
    item_views, items_wf, items_with_attribute_macro, match_views, path_text, path_to_string,
    scan_spec, ItemWithAttributeMatch, MatchVu, Target,
};

verus! {

/// The arguments of the module-attached initializer marker.
pub struct AutoPluginAttributes {
    pub init_name: Option<String>,
}

impl AutoPluginAttributes {
    /// An empty argument set.
    pub fn new() -> (r: Self)
        ensures
            r.init_name is None,
    {
        AutoPluginAttributes { init_name: None }
    }

    /// Accepts one `key = value` argument; only the key `init_name` is
    /// known.
    pub fn parse(&mut self, key: &String, value: String) -> (r: Result<(), MacroError>)
        ensures
            key@ == "init_name"@ ==> (r == Ok::<(), MacroError>(()) && final(self).init_name
                == Some(value)),
            key@ != "init_name"@ ==> (r == Err::<(), MacroError>(
                MacroError::UnsupportedAttributeArgument,
            ) && *final(self) == *old(self)),
    {
        if str_eq(key.as_str(), "init_name") {
            self.init_name = Some(value);
            Ok(())
        } else {
            Err(MacroError::UnsupportedAttributeArgument)
        }
    }

    /// The initializer's name: the overriding argument, or `init`.
    pub fn init_name(&self) -> (r: String)
        ensures
            self.init_name matches Some(n) ==> r@ == n@,
            self.init_name is None ==> r@ == "init"@,
    {
        match &self.init_name {
            Some(n) => n.clone(),
            None => String::from_str("init"),
        }
    }
}

/// The canonical texts of the paths of a scan's occurrences, in scan
/// order.
pub open spec fn match_paths(ms: Seq<MatchVu>) -> Seq<Seq<char>> {
    ms.map_values(|m: MatchVu| path_text(m.path))
}

/// The synthesized initializer: a function taking the host application by
/// mutable reference, whose body is the four kinds' blocks in order.
pub open spec fn init_fn_text(
    name: Seq<char>,
    rt: Seq<Seq<char>>,
    ae: Seq<Seq<char>>,
    ir: Seq<Seq<char>>,
    an: Seq<Seq<char>>,
) -> Seq<char> {
    "pub(super) fn "@ + name + "(app: &mut bevy_app::prelude::App) {\n"@ + block_text(
        Target::RegisterTypes,
        "app"@,
        rt,
    ) + "\n"@ + block_text(Target::AddEvents, "app"@, ae) + "\n"@ + block_text(
        Target::InitResources,
        "app"@,
        ir,
    ) + "\n"@ + block_text(Target::RequiredComponentAutoName, "app"@, an) + "\n}"@
}

/// What processing a module's item list yields: the first scan error in
/// marker order, or the full initializer text.
pub open spec fn module_gen_spec(items: Seq<ItemVu>, init_name: Seq<char>) -> Result<
    Seq<char>,
    MacroError,
> {
    match scan_spec(items, "auto_register_type"@, 0) {
        Err(e) => Err(e),
        Ok(rt) => match scan_spec(items, "auto_add_event"@, 0) {
            Err(e) => Err(e),
            Ok(ae) => match scan_spec(items, "auto_init_resource"@, 0) {
                Err(e) => Err(e),
                Ok(ir) => match scan_spec(items, "auto_name"@, 0) {
                    Err(e) => Err(e),
                    Ok(an) => Ok(
                        init_fn_text(
                            init_name,
                            match_paths(rt),
                            match_paths(ae),
                            match_paths(ir),
                            match_paths(an),
                        ),
                    ),
                },
            },
        },
    }
}

fn paths_of_matches(ms: &Vec<ItemWithAttributeMatch>) -> (r: Vec<String>)
    ensures
        seq_views(r@) == match_paths(match_views(ms@)),
{
    let mut r: Vec<String> = Vec::new();
    let mut i: usize = 0;
    while i < ms.len()
        invariant
            i <= ms.len(),
            r@.len() == i,
            forall|j: int| 0 <= j < i ==> r@[j]@ == path_text(ms@[j]@.path),
        decreases ms.len() - i,
    {
        let m: &ItemWithAttributeMatch = &ms[i];
        r.push(path_to_string(&m.path));
        i = i + 1;
    }
    proof {
        assert(seq_views(r@) =~= match_paths(match_views(ms@)));
    }
    r
}

/// Scans a module for the four marker kinds, synthesizes the initializer,
/// and appends it to the module's item list; a module without a body is
/// left untouched and yields no initializer.
pub fn auto_plugin_inner(module: &mut ModuleModel, init_name: &String) -> (r: Result<
    Option<String>,
    MacroError,
>)
    requires
        old(module).content matches Some(items) ==> items_wf(item_views(items@)),
    ensures
        old(module).content is None ==> (r matches Ok(o) && o is None && *final(module) == *old(
            module,
        )),
        old(module).content matches Some(items) ==> match module_gen_spec(
            item_views(items@),
            init_name@,
        ) {
            Err(e) => r == Err::<Option<String>, MacroError>(e) && *final(module) == *old(module),
            Ok(t) => {
                &&& r matches Ok(o)
                &&& o matches Some(text)
                &&& text@ == t
                &&& final(module).content matches Some(items2)
                &&& item_views(items2@) == item_views(items@).push(ItemVu::FnVu(t))
            },
        },
{
    let text = match &module.content {
        None => {
            return Ok(None);
        },
        Some(items) => {
            let rt = match items_with_attribute_macro(items, "auto_register_type") {
                Ok(v) => v,
                Err(e) => {
                    return Err(e);
                },
            };
            let ae = match items_with_attribute_macro(items, "auto_add_event") {
                Ok(v) => v,
                Err(e) => {
                    return Err(e);
                },
            };
            let ir = match items_with_attribute_macro(items, "auto_init_resource") {
                Ok(v) => v,
                Err(e) => {
                    return Err(e);
                },
            };
            let an = match items_with_attribute_macro(items, "auto_name") {
                Ok(v) => v,
                Err(e) => {
                    return Err(e);
                },
            };
            let app_ident = String::from_str("app");
            let rt_paths = paths_of_matches(&rt);
            let ae_paths = paths_of_matches(&ae);
            let ir_paths = paths_of_matches(&ir);
            let an_paths = paths_of_matches(&an);
            let mut text = String::from_str("pub(super) fn ");
            text.append(init_name.as_str());
            text.append("(app: &mut bevy_app::prelude::App) {\n");
            let rt_block = generate_register_types(&app_ident, &rt_paths);
            text.append(rt_block.as_str());
            text.append("\n");
            let ae_block = generate_add_events(&app_ident, &ae_paths);
            text.append(ae_block.as_str());
            text.append("\n");
            let ir_block = generate_init_resources(&app_ident, &ir_paths);
            text.append(ir_block.as_str());
            text.append("\n");
            let an_block = generate_auto_names(&app_ident, &an_paths);
            text.append(an_block.as_str());
            text.append("\n}");
            proof {
                let items_v = item_views(old(module).content->Some_0@);
                assert(text@ =~= module_gen_spec(items_v, init_name@)->Ok_0);
            }
            text
        },
    };
    let generated = ModuleItem::FnItem(text.clone());
    crate::util::inject_module(module, generated);
    proof {
        let items_v = item_views(old(module).content->Some_0@);
        let t = module_gen_spec(items_v, init_name@)->Ok_0;
        assert(item_views(final(module).content->Some_0@) =~= items_v.push(ItemVu::FnVu(t)));
    }
    Ok(Some(text))
}

} // verus!
