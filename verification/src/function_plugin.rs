//! Function-attached orchestration over the per-file session store.
//!
//! Marker handlers record each occurrence into the file's session; the
//! initializer attribute validates that the designated host parameter is a
//! mutable reference, finalizes and drains the file's session, and
//! synthesizes the four call blocks to splice as a prologue into the
//! target function's body. A session is finalized at most once.

use vstd::prelude::*;
use vstd::string::*;

use crate::codegen::{
    block_text, generate_add_events, generate_auto_names, generate_init_resources,
    generate_register_types, CtxVu,
};
use crate::errors::MacroError;
use crate::state::{
    finalize_and_drain, finalize_spec, map_wf, update_state, update_state_spec, FileStateMap,
    UpdateStateError,
};
use crate::strutil::str_eq;
use crate::syntax::{FnDecl, ModuleItem, TypePath};
use crate::util::{
    args_views, args_wf, check_fn_param_mutable, host_param_at, path_text, resolve_spec,
    resolve_path_from_item_or_args, ParamCheck, Target,
};

verus! {

/// The arguments of the function-attached initializer marker.
pub struct AutoPluginAttributes {
    pub app_param_name: Option<String>,
}

impl AutoPluginAttributes {
    /// An empty argument set.
    pub fn new() -> (r: Self)
        ensures
            r.app_param_name is None,
    {
        AutoPluginAttributes { app_param_name: None }
    }

    /// Accepts one `key = value` argument; only the key `app`, naming the
    /// host-application parameter, is known.
    pub fn parse(&mut self, key: &String, value: String) -> (r: Result<(), MacroError>)
        ensures
            key@ == "app"@ ==> (r == Ok::<(), MacroError>(()) && final(self).app_param_name
                == Some(value)),
            key@ != "app"@ ==> (r == Err::<(), MacroError>(
                MacroError::UnsupportedAttributeArgument,
            ) && *final(self) == *old(self)),
    {
        if str_eq(key.as_str(), "app") {
            self.app_param_name = Some(value);
            Ok(())
        } else {
            Err(MacroError::UnsupportedAttributeArgument)
        }
    }
}

/// Resolves one marker occurrence on `item` and records it in the file's
/// session under `target`; validation errors and state errors surface as
/// the shared error kinds, and a failing call leaves the store unchanged.
pub fn handle_attribute_inner(
    map: &mut FileStateMap,
    file_path: String,
    item: &ModuleItem,
    target: Target,
    args: Option<Vec<TypePath>>,
) -> (r: Result<(), MacroError>)
    requires
        map_wf(old(map)@),
        args_wf(args_views(args)),
    ensures
        map_wf(final(map)@),
        match resolve_spec(item@, args_views(args)) {
            Err(e) => r == Err::<(), MacroError>(e) && final(map)@ == old(map)@,
            Ok(p) => ({
                let (s2, res) = update_state_spec(old(map)@, file_path@, path_text(p), target);
                final(map)@ == s2 && (match res {
                    Ok(u) => r == Ok::<(), MacroError>(()),
                    Err(UpdateStateError::Duplicate) => r == Err::<(), MacroError>(
                        MacroError::Duplicate,
                    ),
                    Err(UpdateStateError::PluginAlreadyRegistered) => r == Err::<(), MacroError>(
                        MacroError::PluginAlreadyRegistered,
                    ),
                })
            }),
        },
{
    let path = match resolve_path_from_item_or_args(item, args) {
        Ok(p) => p,
        Err(e) => {
            return Err(e);
        },
    };
    match update_state(map, file_path, path, target) {
        Ok(()) => Ok(()),
        Err(UpdateStateError::Duplicate) => Err(MacroError::Duplicate),
        Err(UpdateStateError::PluginAlreadyRegistered) => Err(MacroError::PluginAlreadyRegistered),
    }
}

/// The prologue spliced into the target function: the four kinds' blocks
/// against the host parameter, in order.
pub open spec fn plugin_code_text(app: Seq<char>, c: CtxVu) -> Seq<char> {
    block_text(Target::RegisterTypes, app, c.register_types) + "\n"@ + block_text(
        Target::AddEvents,
        app,
        c.add_events,
    ) + "\n"@ + block_text(Target::InitResources, app, c.init_resources) + "\n"@ + block_text(
        Target::RequiredComponentAutoName,
        app,
        c.auto_names,
    )
}

/// Finalizes and drains the file's session and synthesizes the initializer
/// prologue from the drained sets; a second finalization of the same file
/// fails and changes nothing.
pub fn auto_plugin_inner(map: &mut FileStateMap, file_path: String, app_param_name: &String) -> (r:
    Result<String, MacroError>)
    requires
        map_wf(old(map)@),
    ensures
        map_wf(final(map)@),
        ({
            let (s2, res) = finalize_spec(old(map)@, file_path@);
            final(map)@ == s2 && (match (r, res) {
                (Ok(text), Ok(cv)) => text@ == plugin_code_text(app_param_name@, cv),
                (Err(e), Err(f)) => e == MacroError::PluginAlreadyRegistered,
                _ => false,
            })
        }),
{
    let ctx = match finalize_and_drain(map, file_path) {
        Ok(c) => c,
        Err(_) => {
            return Err(MacroError::PluginAlreadyRegistered);
        },
    };
    let mut text = generate_register_types(app_param_name, &ctx.register_types);
    text.append("\n");
    let ae_block = generate_add_events(app_param_name, &ctx.add_events);
    text.append(ae_block.as_str());
    text.append("\n");
    let ir_block = generate_init_resources(app_param_name, &ctx.init_resources);
    text.append(ir_block.as_str());
    text.append("\n");
    let an_block = generate_auto_names(app_param_name, &ctx.auto_names);
    text.append(an_block.as_str());
    proof {
        assert(text@ =~= plugin_code_text(app_param_name@, ctx@));
    }
    Ok(text)
}

/// The function-attached initializer: validates that `app_param_name`
/// names a mutable-reference parameter of the target function, then
/// finalizes the file's session and synthesizes the prologue.
pub fn auto_plugin(
    map: &mut FileStateMap,
    file_path: String,
    func: &FnDecl,
    app_param_name: &String,
) -> (r: Result<String, MacroError>)
    requires
        map_wf(old(map)@),
    ensures
        map_wf(final(map)@),
        !(host_param_at(func@, app_param_name@, 0) is ParamOk) ==> {
            &&& final(map)@ == old(map)@
            &&& r matches Err(e)
            &&& e == (if host_param_at(func@, app_param_name@, 0) is ParamNotMutable {
                MacroError::HostParameterNotMutableReference
            } else {
                MacroError::HostParameterNotFound
            })
        },
        (host_param_at(func@, app_param_name@, 0) is ParamOk) ==> ({
            let (s2, res) = finalize_spec(old(map)@, file_path@);
            final(map)@ == s2 && (match (r, res) {
                (Ok(text), Ok(cv)) => text@ == plugin_code_text(app_param_name@, cv),
                (Err(e), Err(f)) => e == MacroError::PluginAlreadyRegistered,
                _ => false,
            })
        }),
{
    match check_fn_param_mutable(func, app_param_name) {
        Err(e) => Err(e),
        Ok(()) => auto_plugin_inner(map, file_path, app_param_name),
    }
}

} // verus!
