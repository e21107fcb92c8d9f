//! Accumulation state: one session per originating file.
//!
//! A session owns four sets of canonical path strings (one per
//! registration kind) and a finalized flag. The store keys sessions by
//! file path, creates one on first use, rejects a repeated insertion of
//! the same canonical path into one kind's set, and rejects insertions and
//! re-finalization once finalized: finalization drains the sets exactly
//! once.

use vstd::prelude::*;

use crate::codegen::{ctx_empty, ctx_target, ctx_wf, AutoPluginContext, CtxVu};
use crate::strutil::{insert_unique, lemma_insert_unique_no_dup, no_dup};
use crate::syntax::{seq_views, TypePath};
use crate::util::{path_text, path_to_string, Target};

verus! {

/// Why an insertion into a session was rejected.
#[derive(Clone, Copy, Debug, PartialEq, Eq, Structural)]
pub enum UpdateStateError {
    /// The canonical path is already in the kind's set.
    Duplicate,
    /// The session was already finalized.
    PluginAlreadyRegistered,
}

/// One file's session: the finalized flag and the accumulation sets.
pub struct FileState {
    pub plugin_registered: bool,
    pub context: AutoPluginContext,
}

/// View of a session.
#[verifier::ext_equal]
pub struct FileStateVu {
    pub plugin_registered: bool,
    pub context: CtxVu,
}

impl View for FileState {
    type V = FileStateVu;

    open spec fn view(&self) -> FileStateVu {
        FileStateVu { plugin_registered: self.plugin_registered, context: self.context@ }
    }
}

impl FileState {
    /// A fresh, unfinalized session with empty sets.
    pub fn new() -> (r: Self)
        ensures
            !r@.plugin_registered,
            ctx_empty(r@.context),
            ctx_wf(r@.context),
    {
        FileState { plugin_registered: false, context: AutoPluginContext::new() }
    }
}

/// One store entry: a file path and its session.
pub struct FileEntry {
    pub file_path: String,
    pub state: FileState,
}

/// View of a store entry.
#[verifier::ext_equal]
pub struct EntryVu {
    pub file_path: Seq<char>,
    pub state: FileStateVu,
}

impl View for FileEntry {
    type V = EntryVu;

    open spec fn view(&self) -> EntryVu {
        EntryVu { file_path: self.file_path@, state: self.state@ }
    }
}

/// The session store, keyed by originating file path.
pub struct FileStateMap {
    pub entries: Vec<FileEntry>,
}

impl View for FileStateMap {
    type V = Seq<EntryVu>;

    open spec fn view(&self) -> Seq<EntryVu> {
        self.entries@.map_values(|e: FileEntry| e@)
    }
}

impl FileStateMap {
    /// An empty store.
    pub fn new() -> (r: Self)
        ensures
            r@.len() == 0,
            map_wf(r@),
    {
        let r = FileStateMap { entries: Vec::new() };
        proof {
            assert(r@ =~= Seq::<EntryVu>::empty());
            assert(keys_of(r@) =~= Seq::<Seq<char>>::empty());
        }
        r
    }
}

pub open spec fn keys_of(s: Seq<EntryVu>) -> Seq<Seq<char>> {
    s.map_values(|e: EntryVu| e.file_path)
}

/// The store's invariant: keys are pairwise distinct and every session's
/// sets are free of duplicates.
pub open spec fn map_wf(s: Seq<EntryVu>) -> bool {
    no_dup(keys_of(s)) && forall|i: int| 0 <= i < s.len() ==> ctx_wf(#[trigger] s[i].state.context)
}

/// The first index at or after `i` whose entry has key `k`, or the length
/// when no entry does.
pub open spec fn find_idx(s: Seq<EntryVu>, k: Seq<char>, i: int) -> int
    decreases s.len() - i,
{
    if i >= s.len() {
        s.len() as int
    } else if s[i].file_path == k {
        i
    } else {
        find_idx(s, k, i + 1)
    }
}

pub proof fn lemma_find_idx_props(s: Seq<EntryVu>, k: Seq<char>, i: int)
    requires
        0 <= i <= s.len(),
    ensures
        i <= find_idx(s, k, i) <= s.len(),
        find_idx(s, k, i) < s.len() ==> s[find_idx(s, k, i)].file_path == k,
        forall|j: int| i <= j < find_idx(s, k, i) ==> s[j].file_path != k,
        find_idx(s, k, i) == s.len() ==> forall|j: int| i <= j < s.len() ==> s[j].file_path != k,
    decreases s.len() - i,
{
    if i < s.len() && s[i].file_path != k {
        lemma_find_idx_props(s, k, i + 1);
    }
}

fn find_entry(map: &FileStateMap, key: &String) -> (r: Option<usize>)
    ensures
        ({
            let fi = find_idx(map@, key@, 0);
            match r {
                Some(i) => fi == i && i < map@.len(),
                None => fi == map@.len(),
            }
        }),
{
    let mut i: usize = 0;
    while i < map.entries.len()
        invariant
            i <= map.entries.len(),
            find_idx(map@, key@, 0) == find_idx(map@, key@, i as int),
        decreases map.entries.len() - i,
    {
        let e: &FileEntry = &map.entries[i];
        if e.file_path.eq(key) {
            proof {
                assert(map@[i as int].file_path == key@);
            }
            return Some(i);
        }
        i = i + 1;
    }
    None
}

/// The empty accumulation sets.
pub open spec fn empty_ctx() -> CtxVu {
    CtxVu {
        register_types: Seq::empty(),
        add_events: Seq::empty(),
        init_resources: Seq::empty(),
        auto_names: Seq::empty(),
    }
}

/// `c` with `x` appended to the set of kind `t`.
pub open spec fn ctx_insert_vu(c: CtxVu, t: Target, x: Seq<char>) -> CtxVu {
    match t {
        Target::RegisterTypes => CtxVu { register_types: c.register_types.push(x), ..c },
        Target::AddEvents => CtxVu { add_events: c.add_events.push(x), ..c },
        Target::InitResources => CtxVu { init_resources: c.init_resources.push(x), ..c },
        Target::RequiredComponentAutoName => CtxVu { auto_names: c.auto_names.push(x), ..c },
    }
}

/// The store transition of recording canonical path `c` under kind `t` in
/// the session keyed `k`: the new store contents and the result. A missing
/// session is created; a finalized session rejects the insertion; a path
/// already in the kind's set is a duplicate.
pub open spec fn update_state_spec(s: Seq<EntryVu>, k: Seq<char>, c: Seq<char>, t: Target) -> (
    Seq<EntryVu>,
    Result<(), UpdateStateError>,
) {
    let i = find_idx(s, k, 0);
    if i == s.len() {
        let e = EntryVu {
            file_path: k,
            state: FileStateVu {
                plugin_registered: false,
                context: ctx_insert_vu(empty_ctx(), t, c),
            },
        };
        (s.push(e), Ok(()))
    } else if s[i].state.plugin_registered {
        (s, Err(UpdateStateError::PluginAlreadyRegistered))
    } else if ctx_target(s[i].state.context, t).contains(c) {
        (s, Err(UpdateStateError::Duplicate))
    } else {
        let e = EntryVu {
            file_path: s[i].file_path,
            state: FileStateVu {
                plugin_registered: false,
                context: ctx_insert_vu(s[i].state.context, t, c),
            },
        };
        (s.update(i, e), Ok(()))
    }
}

/// Records the canonical text of `path` under kind `target` in the session
/// of `file_path`, creating the session on first use; fails on a duplicate
/// path and on a finalized session, leaving the store unchanged.
pub fn update_state(
    map: &mut FileStateMap,
    file_path: String,
    path: TypePath,
    target: Target,
) -> (r: Result<(), UpdateStateError>)
    requires
        map_wf(old(map)@),
    ensures
        ({
            let (s2, res) = update_state_spec(old(map)@, file_path@, path_text(path@), target);
            final(map)@ == s2 && r == res
        }),
        map_wf(final(map)@),
{
    proof {
        lemma_find_idx_props(old(map)@, file_path@, 0);
    }
    let key = path_to_string(&path);
    match find_entry(map, &file_path) {
        None => {
            let mut state = FileState::new();
            let inserted = match target {
                Target::RegisterTypes => insert_unique(&mut state.context.register_types, key),
                Target::AddEvents => insert_unique(&mut state.context.add_events, key),
                Target::InitResources => insert_unique(&mut state.context.init_resources, key),
                Target::RequiredComponentAutoName => insert_unique(
                    &mut state.context.auto_names,
                    key,
                ),
            };
            proof {
                assert(inserted);
                assert(state@.context =~~= ctx_insert_vu(empty_ctx(), target, path_text(path@)));
            }
            let entry = FileEntry { file_path, state };
            map.entries.push(entry);
            proof {
                let (s2, _) = update_state_spec(old(map)@, file_path@, path_text(path@), target);
                assert(final(map)@ =~= s2);
                assert(keys_of(final(map)@) =~= keys_of(old(map)@).push(file_path@));
                assert forall|i: int| 0 <= i < final(map)@.len() implies ctx_wf(
                    #[trigger] final(map)@[i].state.context,
                ) by {
                    if i < old(map)@.len() {
                        assert(final(map)@[i] == old(map)@[i]);
                    }
                }
            }
            Ok(())
        },
        Some(i) => {
            let ghost s0 = map@;
            let mut entry = map.entries.remove(i);
            if entry.state.plugin_registered {
                map.entries.insert(i, entry);
                proof {
                    assert(final(map)@ =~= s0);
                }
                return Err(UpdateStateError::PluginAlreadyRegistered);
            }
            let ghost ctx0 = entry.state.context@;
            let inserted = match target {
                Target::RegisterTypes => insert_unique(&mut entry.state.context.register_types, key),
                Target::AddEvents => insert_unique(&mut entry.state.context.add_events, key),
                Target::InitResources => insert_unique(&mut entry.state.context.init_resources, key),
                Target::RequiredComponentAutoName => insert_unique(
                    &mut entry.state.context.auto_names,
                    key,
                ),
            };
            map.entries.insert(i, entry);
            if inserted {
                proof {
                    let (s2, _) = update_state_spec(s0, file_path@, path_text(path@), target);
                    assert(entry@.state.context =~~= ctx_insert_vu(ctx0, target, path_text(path@)));
                    assert(final(map)@ =~= s2);
                    assert(keys_of(final(map)@) =~= keys_of(s0));
                    assert(!ctx_target(ctx0, target).contains(path_text(path@)));
                    lemma_insert_unique_no_dup(
                        ctx_target(ctx0, target),
                        path_text(path@),
                    );
                    assert forall|j: int| 0 <= j < final(map)@.len() implies ctx_wf(
                        #[trigger] final(map)@[j].state.context,
                    ) by {
                        if j != i {
                            assert(final(map)@[j] == s0[j]);
                        }
                    }
                }
                Ok(())
            } else {
                proof {
                    assert(ctx_target(ctx0, target).contains(path_text(path@)));
                    assert(entry@.state.context =~~= ctx0);
                    assert(final(map)@ =~= s0);
                }
                Err(UpdateStateError::Duplicate)
            }
        },
    }
}

/// The store transition of finalizing and draining the session keyed `k`:
/// the new store contents, the drained sets handed back on success, and
/// the result kind. A missing session is created already finalized, with
/// nothing to drain; a finalized session rejects re-finalization.
pub open spec fn finalize_spec(s: Seq<EntryVu>, k: Seq<char>) -> (
    Seq<EntryVu>,
    Result<CtxVu, UpdateStateError>,
) {
    let i = find_idx(s, k, 0);
    if i == s.len() {
        let e = EntryVu {
            file_path: k,
            state: FileStateVu { plugin_registered: true, context: empty_ctx() },
        };
        (s.push(e), Ok(empty_ctx()))
    } else if s[i].state.plugin_registered {
        (s, Err(UpdateStateError::PluginAlreadyRegistered))
    } else {
        let e = EntryVu {
            file_path: s[i].file_path,
            state: FileStateVu { plugin_registered: true, context: empty_ctx() },
        };
        (s.update(i, e), Ok(s[i].state.context))
    }
}

/// Marks the session of `file_path` finalized and hands its accumulated
/// sets out by move, leaving them drained; a second finalization of the
/// same session fails and drains nothing.
pub fn finalize_and_drain(map: &mut FileStateMap, file_path: String) -> (r: Result<
    AutoPluginContext,
    UpdateStateError,
>)
    requires
        map_wf(old(map)@),
    ensures
        ({
            let (s2, res) = finalize_spec(old(map)@, file_path@);
            final(map)@ == s2 && (match (r, res) {
                (Ok(ctx), Ok(cv)) => ctx@ == cv,
                (Err(e), Err(f)) => e == f,
                _ => false,
            })
        }),
        map_wf(final(map)@),
{
    proof {
        lemma_find_idx_props(old(map)@, file_path@, 0);
    }
    match find_entry(map, &file_path) {
        None => {
            let state = FileState { plugin_registered: true, context: AutoPluginContext::new() };
            let entry = FileEntry { file_path, state };
            map.entries.push(entry);
            proof {
                let (s2, _) = finalize_spec(old(map)@, file_path@);
                assert(entry@.state.context =~~= empty_ctx());
                assert(final(map)@ =~= s2);
                assert(keys_of(final(map)@) =~= keys_of(old(map)@).push(file_path@));
                assert forall|j: int| 0 <= j < final(map)@.len() implies ctx_wf(
                    #[trigger] final(map)@[j].state.context,
                ) by {
                    if j < old(map)@.len() {
                        assert(final(map)@[j] == old(map)@[j]);
                    }
                }
            }
            let drained = AutoPluginContext::new();
            proof {
                assert(drained@ =~~= empty_ctx());
            }
            Ok(drained)
        },
        Some(i) => {
            let ghost s0 = map@;
            let entry = map.entries.remove(i);
            if entry.state.plugin_registered {
                map.entries.insert(i, entry);
                proof {
                    assert(final(map)@ =~= s0);
                }
                return Err(UpdateStateError::PluginAlreadyRegistered);
            }
            let FileEntry { file_path: fp, state } = entry;
            let FileState { plugin_registered: _, context } = state;
            let new_entry = FileEntry {
                file_path: fp,
                state: FileState { plugin_registered: true, context: AutoPluginContext::new() },
            };
            map.entries.insert(i, new_entry);
            proof {
                let (s2, _) = finalize_spec(s0, file_path@);
                assert(new_entry@.state.context =~~= empty_ctx());
                assert(final(map)@ =~= s2);
                assert(keys_of(final(map)@) =~= keys_of(s0));
                assert forall|j: int| 0 <= j < final(map)@.len() implies ctx_wf(
                    #[trigger] final(map)@[j].state.context,
                ) by {
                    if j != i {
                        assert(final(map)@[j] == s0[j]);
                    }
                }
            }
            Ok(context)
        },
    }
}

/// The file paths, in store order, whose sessions were never finalized.
pub open spec fn missing_at(s: Seq<EntryVu>, i: int) -> Seq<Seq<char>>
    decreases s.len() - i,
{
    if i >= s.len() {
        Seq::empty()
    } else if s[i].state.plugin_registered {
        missing_at(s, i + 1)
    } else {
        seq![s[i].file_path] + missing_at(s, i + 1)
    }
}

fn missing_from(map: &FileStateMap, i: usize) -> (r: Vec<String>)
    requires
        i <= map@.len(),
    ensures
        seq_views(r@) == missing_at(map@, i as int),
    decreases map@.len() - i,
{
    if i == map.entries.len() {
        let r: Vec<String> = Vec::new();
        proof {
            assert(seq_views(r@) =~= Seq::<Seq<char>>::empty());
        }
        r
    } else {
        let e: &FileEntry = &map.entries[i];
        if e.state.plugin_registered {
            missing_from(map, i + 1)
        } else {
            let mut r: Vec<String> = Vec::new();
            r.push(e.file_path.clone());
            let mut rest = missing_from(map, i + 1);
            r.append(&mut rest);
            proof {
                assert(seq_views(r@) =~= missing_at(map@, i as int));
            }
            r
        }
    }
}

/// Lists every file with marker occurrences whose session was never
/// finalized, in store order.
pub fn get_files_missing_plugin(map: &FileStateMap) -> (r: Vec<String>)
    ensures
        seq_views(r@) == missing_at(map@, 0),
{
    missing_from(map, 0)
}

} // verus!
