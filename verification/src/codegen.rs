//! Code synthesis: the accumulated canonical paths of a session and the
//! registration-call text emitted for them.
//!
//! For each registration kind, synthesis emits one call per accumulated
//! path against the host-application handle, in accumulation order, and
//! wraps the calls of one kind in a scoping block so the four blocks can
//! be concatenated into a single initializer body.

use vstd::prelude::*;
use vstd::string::*;

use crate::strutil::no_dup;
use crate::syntax::seq_views;
use crate::util::Target;

verus! {

/// The four accumulation sets of one session, one per registration kind.
pub struct AutoPluginContext {
    pub register_types: Vec<String>,
    pub add_events: Vec<String>,
    pub init_resources: Vec<String>,
    pub auto_names: Vec<String>,
}

/// View of a session's accumulation sets.
#[verifier::ext_equal]
pub struct CtxVu {
    pub register_types: Seq<Seq<char>>,
    pub add_events: Seq<Seq<char>>,
    pub init_resources: Seq<Seq<char>>,
    pub auto_names: Seq<Seq<char>>,
}

impl View for AutoPluginContext {
    type V = CtxVu;

    open spec fn view(&self) -> CtxVu {
        CtxVu {
            register_types: seq_views(self.register_types@),
            add_events: seq_views(self.add_events@),
            init_resources: seq_views(self.init_resources@),
            auto_names: seq_views(self.auto_names@),
        }
    }
}

/// The set a registration kind accumulates into.
pub open spec fn ctx_target(c: CtxVu, t: Target) -> Seq<Seq<char>> {
    match t {
        Target::RegisterTypes => c.register_types,
        Target::AddEvents => c.add_events,
        Target::InitResources => c.init_resources,
        Target::RequiredComponentAutoName => c.auto_names,
    }
}

/// Each set holds pairwise-distinct canonical paths.
pub open spec fn ctx_wf(c: CtxVu) -> bool {
    no_dup(c.register_types) && no_dup(c.add_events) && no_dup(c.init_resources) && no_dup(
        c.auto_names,
    )
}

/// All four sets are empty.
pub open spec fn ctx_empty(c: CtxVu) -> bool {
    c.register_types.len() == 0 && c.add_events.len() == 0 && c.init_resources.len() == 0
        && c.auto_names.len() == 0
}

impl AutoPluginContext {
    /// A fresh session context with four empty sets.
    pub fn new() -> (r: Self)
        ensures
            ctx_empty(r@),
            ctx_wf(r@),
    {
        AutoPluginContext {
            register_types: Vec::new(),
            add_events: Vec::new(),
            init_resources: Vec::new(),
            auto_names: Vec::new(),
        }
    }
}

// ---------------------------------------------------------------------------
// Call and block text
// ---------------------------------------------------------------------------

/// The text of one registration call of kind `t` against the handle `app`
/// for the canonical path `path`; the call spelling is fixed by the host
/// framework's API.
pub open spec fn target_call(t: Target, app: Seq<char>, path: Seq<char>) -> Seq<char> {
    match t {
        Target::RegisterTypes => app + ".register_type::<"@ + path + ">();\n"@,
        Target::AddEvents => app + ".add_event::<"@ + path + ">();\n"@,
        Target::InitResources => app + ".init_resource::<"@ + path + ">();\n"@,
        Target::RequiredComponentAutoName => app + ".register_required_components_with::<"@ + path
            + ", Name>(|| Name::new(\""@ + path + "\"));\n"@,
    }
}

/// The calls for the paths from index `i` on, concatenated in order.
pub open spec fn calls_text(t: Target, app: Seq<char>, paths: Seq<Seq<char>>, i: int) -> Seq<char>
    decreases paths.len() - i,
{
    if i >= paths.len() {
        Seq::empty()
    } else {
        target_call(t, app, paths[i]) + calls_text(t, app, paths, i + 1)
    }
}

/// One kind's scoping block: all its calls braced together.
pub open spec fn block_text(t: Target, app: Seq<char>, paths: Seq<Seq<char>>) -> Seq<char> {
    "{\n"@ + calls_text(t, app, paths, 0) + "}"@
}

fn render_call(t: Target, app: &String, path: &String) -> (r: String)
    ensures
        r@ == target_call(t, app@, path@),
{
    let mut s = app.clone();
    match t {
        Target::RegisterTypes => {
            s.append(".register_type::<");
            s.append(path.as_str());
            s.append(">();\n");
        },
        Target::AddEvents => {
            s.append(".add_event::<");
            s.append(path.as_str());
            s.append(">();\n");
        },
        Target::InitResources => {
            s.append(".init_resource::<");
            s.append(path.as_str());
            s.append(">();\n");
        },
        Target::RequiredComponentAutoName => {
            s.append(".register_required_components_with::<");
            s.append(path.as_str());
            s.append(", Name>(|| Name::new(\"");
            s.append(path.as_str());
            s.append("\"));\n");
        },
    }
    proof {
        assert(s@ =~= target_call(t, app@, path@));
    }
    s
}

fn render_calls(t: Target, app: &String, paths: &Vec<String>, i: usize) -> (r: String)
    requires
        i <= paths@.len(),
    ensures
        r@ == calls_text(t, app@, seq_views(paths@), i as int),
    decreases paths@.len() - i,
{
    if i == paths.len() {
        String::new()
    } else {
        let p: &String = &paths[i];
        let mut s = render_call(t, app, p);
        let rest = render_calls(t, app, paths, i + 1);
        s.append(rest.as_str());
        proof {
            assert(s@ =~= calls_text(t, app@, seq_views(paths@), i as int));
        }
        s
    }
}

fn render_block(t: Target, app: &String, paths: &Vec<String>) -> (r: String)
    ensures
        r@ == block_text(t, app@, seq_views(paths@)),
{
    let mut s = String::from_str("{\n");
    let calls = render_calls(t, app, paths, 0);
    s.append(calls.as_str());
    s.append("}");
    proof {
        assert(s@ =~= block_text(t, app@, seq_views(paths@)));
    }
    s
}

/// Emits the type-registration block: one `register_type` call per
/// accumulated path, in order.
pub fn generate_register_types(app_ident: &String, items: &Vec<String>) -> (r: String)
    ensures
        r@ == block_text(Target::RegisterTypes, app_ident@, seq_views(items@)),
{
    render_block(Target::RegisterTypes, app_ident, items)
}

/// Emits the event-registration block: one `add_event` call per
/// accumulated path, in order.
pub fn generate_add_events(app_ident: &String, items: &Vec<String>) -> (r: String)
    ensures
        r@ == block_text(Target::AddEvents, app_ident@, seq_views(items@)),
{
    render_block(Target::AddEvents, app_ident, items)
}

/// Emits the resource-initialization block: one `init_resource` call per
/// accumulated path, in order.
pub fn generate_init_resources(app_ident: &String, items: &Vec<String>) -> (r: String)
    ensures
        r@ == block_text(Target::InitResources, app_ident@, seq_views(items@)),
{
    render_block(Target::InitResources, app_ident, items)
}

/// Emits the name-association block: one call per accumulated path pairing
/// the component type with a name literal derived from the path's text.
pub fn generate_auto_names(app_ident: &String, items: &Vec<String>) -> (r: String)
    ensures
        r@ == block_text(Target::RequiredComponentAutoName, app_ident@, seq_views(items@)),
{
    render_block(Target::RequiredComponentAutoName, app_ident, items)
}

} // verus!
