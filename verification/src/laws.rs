//! The library's general laws, stated and proved over the spec-level
//! models that the executable functions' contracts are written against.

use vstd::prelude::*;

use crate::codegen::ctx_target;
use crate::errors::MacroError;
use crate::state::{find_idx, finalize_spec, update_state_spec, EntryVu, UpdateStateError};
use crate::state::lemma_find_idx_props;
use crate::syntax::{path_wf, AttrVu, DeclVu, ItemVu, PathVu};
use crate::util::{
    attr_resolve_spec, count_generics_vu, decl_of, ident_path_vu, resolve_spec, Target,
};

verus! {

// ---------------------------------------------------------------------------
// Deduplication
// ---------------------------------------------------------------------------

/// One insertion attempt into a kind's set, exactly as `update_state_spec`
/// treats the targeted set of an unfinalized session: the path is appended
/// when absent, and the attempt reports whether it was.
pub open spec fn record_step(s: Seq<Seq<char>>, p: Seq<char>) -> (Seq<Seq<char>>, bool) {
    if s.contains(p) {
        (s, false)
    } else {
        (s.push(p), true)
    }
}

/// The set after attempting the insertions at indices `i..j` in order;
/// a rejected insertion leaves the set unchanged.
pub open spec fn record_prefix(s: Seq<Seq<char>>, ps: Seq<Seq<char>>, i: int, j: int) -> Seq<
    Seq<char>,
>
    decreases j - i,
{
    if i >= j {
        s
    } else {
        record_prefix(record_step(s, ps[i]).0, ps, i + 1, j)
    }
}

/// All insertion attempts at indices `i..` succeed.
pub open spec fn all_records_ok(s: Seq<Seq<char>>, ps: Seq<Seq<char>>, i: int) -> bool
    decreases ps.len() - i,
{
    if i >= ps.len() {
        true
    } else {
        record_step(s, ps[i]).1 && all_records_ok(record_step(s, ps[i]).0, ps, i + 1)
    }
}

/// On an unfinalized session, recording is exactly `record_step` on the
/// targeted kind's set: the set is appended to iff the canonical path was
/// absent, success reports the append, and a duplicate changes nothing.
pub proof fn lemma_update_state_is_record_step(
    s: Seq<EntryVu>,
    k: Seq<char>,
    c: Seq<char>,
    t: Target,
)
    requires
        find_idx(s, k, 0) < s.len(),
        !s[find_idx(s, k, 0)].state.plugin_registered,
    ensures
        ({
            let i = find_idx(s, k, 0);
            let (s2, res) = update_state_spec(s, k, c, t);
            let (set2, ok) = record_step(ctx_target(s[i].state.context, t), c);
            &&& ctx_target(s2[i].state.context, t) == set2
            &&& (res is Ok) == ok
        }),
{
    lemma_find_idx_props(s, k, 0);
    let i = find_idx(s, k, 0);
    let set0 = ctx_target(s[i].state.context, t);
    if !set0.contains(c) {
        let (s2, res) = update_state_spec(s, k, c, t);
        assert(s2 == s.update(i, s2[i]));
        match t {
            Target::RegisterTypes => {
                assert(ctx_target(s2[i].state.context, t) == set0.push(c));
            },
            Target::AddEvents => {
                assert(ctx_target(s2[i].state.context, t) == set0.push(c));
            },
            Target::InitResources => {
                assert(ctx_target(s2[i].state.context, t) == set0.push(c));
            },
            Target::RequiredComponentAutoName => {
                assert(ctx_target(s2[i].state.context, t) == set0.push(c));
            },
        }
    }
}

/// Dedup, success half: inserting pairwise-distinct canonical paths, none
/// of them present yet, succeeds throughout and grows the set by exactly
/// one member per insertion.
pub proof fn lemma_dedup_distinct(s: Seq<Seq<char>>, ps: Seq<Seq<char>>, i: int)
    requires
        0 <= i <= ps.len(),
        forall|a: int, b: int| i <= a < b < ps.len() ==> ps[a] != ps[b],
        forall|a: int| i <= a < ps.len() ==> !s.contains(#[trigger] ps[a]),
    ensures
        all_records_ok(s, ps, i),
        record_prefix(s, ps, i, ps.len() as int).len() == s.len() + (ps.len() - i),
    decreases ps.len() - i,
{
    if i < ps.len() {
        let s2 = s.push(ps[i]);
        assert(record_step(s, ps[i]).1);
        assert forall|a: int| i + 1 <= a < ps.len() implies !s2.contains(#[trigger] ps[a]) by {
            if s2.contains(ps[a]) {
                let j = choose|j: int| 0 <= j < s2.len() && s2[j] == ps[a];
                if j < s.len() {
                    assert(s[j] == ps[a]);
                    assert(s.contains(ps[a]));
                } else {
                    assert(ps[a] == ps[i]);
                }
            }
        }
        lemma_dedup_distinct(s2, ps, i + 1);
    }
}

proof fn lemma_record_prefix_mono(s: Seq<Seq<char>>, ps: Seq<Seq<char>>, i: int, j: int, x: Seq<
    char,
>)
    requires
        i <= j,
        s.contains(x),
    ensures
        record_prefix(s, ps, i, j).contains(x),
    decreases j - i,
{
    if i < j {
        let s2 = record_step(s, ps[i]).0;
        let idx = choose|idx: int| 0 <= idx < s.len() && s[idx] == x;
        assert(s2[idx] == x);
        assert(s2.contains(x));
        lemma_record_prefix_mono(s2, ps, i + 1, j, x);
    }
}

proof fn lemma_record_prefix_contains(s: Seq<Seq<char>>, ps: Seq<Seq<char>>, i: int, k: int, j: int)
    requires
        i <= k < j,
    ensures
        record_prefix(s, ps, i, j).contains(ps[k]),
    decreases j - i,
{
    if i == k {
        let s2 = record_step(s, ps[i]).0;
        if s.contains(ps[i]) {
            lemma_record_prefix_mono(s2, ps, i + 1, j, ps[i]);
        } else {
            assert(s2[s.len() as int] == ps[i]);
            assert(s2.contains(ps[i]));
            lemma_record_prefix_mono(s2, ps, i + 1, j, ps[i]);
        }
    } else {
        lemma_record_prefix_contains(record_step(s, ps[i]).0, ps, i + 1, k, j);
    }
}

/// Dedup, failure half: when the same canonical path occurs twice in an
/// insertion sequence, the later occurrence's insertion is rejected.
pub proof fn lemma_duplicate_fails(s: Seq<Seq<char>>, ps: Seq<Seq<char>>, i: int, j: int)
    requires
        0 <= i < j < ps.len(),
        ps[i] == ps[j],
    ensures
        !record_step(record_prefix(s, ps, 0, j), ps[j]).1,
{
    lemma_record_prefix_contains(s, ps, 0, i, j);
}

// ---------------------------------------------------------------------------
// Arity and identifier matching
// ---------------------------------------------------------------------------

/// Arity: a single explicit path argument with a matching base identifier
/// resolves exactly when it supplies as many generic arguments as the
/// declaration declares type parameters, and fails with `ArityMismatch`
/// otherwise; the bare marker always resolves to the unqualified
/// identifier, whatever the declaration's arity.
pub proof fn lemma_arity_property(item: ItemVu, d: DeclVu, p: PathVu)
    requires
        decl_of(item) == Some(d),
        path_wf(p),
        p.segments[0].ident == d.ident,
    ensures
        count_generics_vu(p) == d.generics ==> resolve_spec(item, Some(seq![p])) == Ok::<
            PathVu,
            MacroError,
        >(p),
        count_generics_vu(p) != d.generics ==> resolve_spec(item, Some(seq![p])) == Err::<
            PathVu,
            MacroError,
        >(MacroError::ArityMismatch),
        resolve_spec(item, None) == Ok::<PathVu, MacroError>(ident_path_vu(d.ident)),
{
    assert(seq![p][0] == p);
}

/// Identifier matching: a path argument whose base identifier differs from
/// the declaration's identifier always fails with `IdentifierMismatch`,
/// regardless of its generic arity, through both the resolver and the
/// scanner's per-attribute resolution.
pub proof fn lemma_identifier_mismatch(item: ItemVu, d: DeclVu, p: PathVu, a: AttrVu)
    requires
        decl_of(item) == Some(d),
        path_wf(p),
        p.segments[0].ident != d.ident,
        a.args == Some(seq![p]),
    ensures
        resolve_spec(item, Some(seq![p])) == Err::<PathVu, MacroError>(
            MacroError::IdentifierMismatch,
        ),
        attr_resolve_spec(d, a) == Err::<PathVu, MacroError>(MacroError::IdentifierMismatch),
{
    assert(seq![p][0] == p);
}

// ---------------------------------------------------------------------------
// One-shot finalization
// ---------------------------------------------------------------------------

proof fn lemma_find_idx_is(s: Seq<EntryVu>, k: Seq<char>, i: int, m: int)
    requires
        0 <= i <= m < s.len(),
        s[m].file_path == k,
        forall|j: int| i <= j < m ==> s[j].file_path != k,
    ensures
        find_idx(s, k, i) == m,
    decreases m - i,
{
    if i < m {
        lemma_find_idx_is(s, k, i + 1, m);
    }
}

/// After a successful finalization, the session stands finalized: its
/// entry is found and flagged.
proof fn lemma_finalized_entry(s: Seq<EntryVu>, k: Seq<char>)
    requires
        finalize_spec(s, k).1 is Ok,
    ensures
        ({
            let s1 = finalize_spec(s, k).0;
            let i1 = find_idx(s1, k, 0);
            i1 < s1.len() && s1[i1].state.plugin_registered
        }),
{
    lemma_find_idx_props(s, k, 0);
    let i = find_idx(s, k, 0);
    let s1 = finalize_spec(s, k).0;
    if i == s.len() {
        lemma_find_idx_is(s1, k, 0, s.len() as int);
    } else {
        assert(forall|j: int| 0 <= j < i ==> s1[j] == s[j]);
        lemma_find_idx_is(s1, k, 0, i);
    }
}

/// One-shot finalize, first half: a second finalization of a session that
/// was already finalized fails with `PluginAlreadyRegistered` and changes
/// nothing.
pub proof fn lemma_finalize_one_shot(s: Seq<EntryVu>, k: Seq<char>)
    requires
        finalize_spec(s, k).1 is Ok,
    ensures
        ({
            let s1 = finalize_spec(s, k).0;
            finalize_spec(s1, k) == (
                s1,
                Err::<crate::codegen::CtxVu, UpdateStateError>(
                    UpdateStateError::PluginAlreadyRegistered,
                ),
            )
        }),
{
    lemma_finalized_entry(s, k);
}

/// One-shot finalize, second half: recording any path under any kind into
/// a finalized session fails with `PluginAlreadyRegistered` and changes
/// nothing.
pub proof fn lemma_record_after_finalize(s: Seq<EntryVu>, k: Seq<char>, c: Seq<char>, t: Target)
    requires
        finalize_spec(s, k).1 is Ok,
    ensures
        ({
            let s1 = finalize_spec(s, k).0;
            update_state_spec(s1, k, c, t) == (
                s1,
                Err::<(), UpdateStateError>(UpdateStateError::PluginAlreadyRegistered),
            )
        }),
{
    lemma_finalized_entry(s, k);
}

} // verus!
