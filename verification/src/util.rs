//! Path resolution and attribute scanning.
//!
//! A canonical path text is the segments joined by `::`, each segment its
//! identifier followed, when generic arguments are present, by the argument
//! texts joined by `,` inside angle brackets. Resolution validates an
//! explicit path argument against the annotated declaration: the base
//! identifier must equal the declaration's identifier and the
//! generic-argument count must equal the declared type-parameter count.
//! The bare (argument-less) marker form always resolves to the unqualified
//! identifier, deliberately without an arity check.

use vstd::prelude::*;
use vstd::string::*;

use crate::errors::MacroError;
use crate::strutil::str_eq;
use crate::syntax::{
    seq_views, AttrVu, AttributeData, DeclVu, FnDecl, ItemVu, ModuleItem, ModuleModel, PathVu,
    SegVu, StructOrEnumRef, TypePath, TypePathSegment,
};

verus! {

/// The registration kind a marker occurrence belongs to; selects the
/// accumulation set and the synthesized call form.
#[derive(Clone, Copy, Debug, PartialEq, Eq, Structural)]
pub enum Target {
    RegisterTypes,
    AddEvents,
    InitResources,
    RequiredComponentAutoName,
}

// ---------------------------------------------------------------------------
// Canonical path text
// ---------------------------------------------------------------------------

/// The generic-argument texts from index `i` on, joined by `,`.
pub open spec fn args_text(args: Seq<Seq<char>>, i: int) -> Seq<char>
    decreases args.len() - i,
{
    if i >= args.len() {
        Seq::empty()
    } else if i == args.len() - 1 {
        args[i]
    } else {
        args[i] + ","@ + args_text(args, i + 1)
    }
}

/// One segment's text: the identifier, with `<args>` when arguments are
/// present.
pub open spec fn segment_text(s: SegVu) -> Seq<char> {
    if s.args.len() == 0 {
        s.ident
    } else {
        s.ident + "<"@ + args_text(s.args, 0) + ">"@
    }
}

/// The segment texts from index `i` on, joined by `::`.
pub open spec fn segments_text(segs: Seq<SegVu>, i: int) -> Seq<char>
    decreases segs.len() - i,
{
    if i >= segs.len() {
        Seq::empty()
    } else if i == segs.len() - 1 {
        segment_text(segs[i])
    } else {
        segment_text(segs[i]) + "::"@ + segments_text(segs, i + 1)
    }
}

/// The canonical text of a whole path.
pub open spec fn path_text(p: PathVu) -> Seq<char> {
    segments_text(p.segments, 0)
}

/// No character of `s` is a space.
pub open spec fn no_spaces(s: Seq<char>) -> bool {
    forall|i: int| 0 <= i < s.len() ==> s[i] != ' '
}

/// The segment's identifier and argument texts hold no space.
pub open spec fn seg_normalized(s: SegVu) -> bool {
    no_spaces(s.ident) && forall|k: int| 0 <= k < s.args.len() ==> no_spaces(#[trigger] s.args[k])
}

/// Every component text of the path holds no space.
pub open spec fn path_normalized(p: PathVu) -> bool {
    forall|k: int| 0 <= k < p.segments.len() ==> seg_normalized(#[trigger] p.segments[k])
}

proof fn lemma_args_text_no_spaces(args: Seq<Seq<char>>, i: int)
    requires
        forall|k: int| 0 <= k < args.len() ==> no_spaces(#[trigger] args[k]),
        i >= 0,
    ensures
        no_spaces(args_text(args, i)),
    decreases args.len() - i,
{
    reveal_strlit(",");
    if i < args.len() && i != args.len() - 1 {
        lemma_args_text_no_spaces(args, i + 1);
    }
}

proof fn lemma_segment_text_no_spaces(s: SegVu)
    requires
        seg_normalized(s),
    ensures
        no_spaces(segment_text(s)),
{
    reveal_strlit("<");
    reveal_strlit(">");
    if s.args.len() > 0 {
        lemma_args_text_no_spaces(s.args, 0);
    }
}

proof fn lemma_segments_text_no_spaces(segs: Seq<SegVu>, i: int)
    requires
        forall|k: int| 0 <= k < segs.len() ==> seg_normalized(#[trigger] segs[k]),
        i >= 0,
    ensures
        no_spaces(segments_text(segs, i)),
    decreases segs.len() - i,
{
    reveal_strlit("::");
    if i >= segs.len() {
    } else if i == segs.len() - 1 {
        lemma_segment_text_no_spaces(segs[i]);
    } else {
        lemma_segment_text_no_spaces(segs[i]);
        lemma_segments_text_no_spaces(segs, i + 1);
    }
}

/// Normalization: a path whose component texts hold no whitespace renders
/// to a canonical text that holds none either, so canonical equality is
/// insensitive to whitespace that surface syntax may have carried.
pub proof fn lemma_canonical_text_no_spaces(p: PathVu)
    requires
        path_normalized(p),
    ensures
        no_spaces(path_text(p)),
{
    lemma_segments_text_no_spaces(p.segments, 0);
}

fn args_to_string(args: &Vec<String>, i: usize) -> (r: String)
    requires
        i <= args@.len(),
    ensures
        r@ == args_text(seq_views(args@), i as int),
    decreases args@.len() - i,
{
    if i == args.len() {
        String::new()
    } else if i + 1 == args.len() {
        let a: &String = &args[i];
        a.clone()
    } else {
        let a: &String = &args[i];
        let mut s = a.clone();
        s.append(",");
        let rest = args_to_string(args, i + 1);
        s.append(rest.as_str());
        proof {
            assert(s@ =~= args_text(seq_views(args@), i as int));
        }
        s
    }
}

fn segment_to_string(seg: &TypePathSegment) -> (r: String)
    ensures
        r@ == segment_text(seg@),
{
    if seg.args.len() == 0 {
        seg.ident.clone()
    } else {
        let mut s = seg.ident.clone();
        s.append("<");
        let a = args_to_string(&seg.args, 0);
        s.append(a.as_str());
        s.append(">");
        proof {
            assert(s@ =~= segment_text(seg@));
        }
        s
    }
}

fn segments_to_string(segs: &Vec<TypePathSegment>, i: usize) -> (r: String)
    requires
        i <= segs@.len(),
    ensures
        r@ == segments_text(segs@.map_values(|s: TypePathSegment| s@), i as int),
    decreases segs@.len() - i,
{
    if i == segs.len() {
        String::new()
    } else if i + 1 == segs.len() {
        segment_to_string(&segs[i])
    } else {
        let mut s = segment_to_string(&segs[i]);
        s.append("::");
        let rest = segments_to_string(segs, i + 1);
        s.append(rest.as_str());
        proof {
            assert(s@ =~= segments_text(segs@.map_values(|x: TypePathSegment| x@), i as int));
        }
        s
    }
}

/// Renders a path as its canonical text.
pub fn path_to_string(path: &TypePath) -> (r: String)
    ensures
        r@ == path_text(path@),
{
    segments_to_string(&path.segments, 0)
}

// ---------------------------------------------------------------------------
// Generic-argument counting and validation
// ---------------------------------------------------------------------------

/// The argument count of the first segment from index `i` on that carries
/// an angle-bracketed argument list; zero when none does.
pub open spec fn count_generics_at(segs: Seq<SegVu>, i: int) -> nat
    decreases segs.len() - i,
{
    if i >= segs.len() {
        0
    } else if segs[i].args.len() > 0 {
        segs[i].args.len()
    } else {
        count_generics_at(segs, i + 1)
    }
}

/// The number of generic arguments a path supplies.
pub open spec fn count_generics_vu(p: PathVu) -> nat {
    count_generics_at(p.segments, 0)
}

/// Counts the generic arguments of `path`: the argument count of its first
/// segment with an angle-bracketed list, or zero.
pub fn count_generics(path: &TypePath) -> (r: usize)
    ensures
        r as nat == count_generics_vu(path@),
{
    let ghost segs = path@.segments;
    let mut i: usize = 0;
    while i < path.segments.len()
        invariant
            i <= path.segments.len(),
            segs == path@.segments,
            count_generics_at(segs, 0) == count_generics_at(segs, i as int),
        decreases path.segments.len() - i,
    {
        let seg: &TypePathSegment = &path.segments[i];
        if seg.args.len() > 0 {
            return seg.args.len();
        }
        i = i + 1;
    }
    0
}

/// Accepts an explicit path argument only when its generic-argument count
/// equals the declaration's declared type-parameter count.
pub fn validate_generic_counts(generics: usize, path: &TypePath) -> (r: Result<(), MacroError>)
    ensures
        count_generics_vu(path@) == generics as nat ==> r == Ok::<(), MacroError>(()),
        count_generics_vu(path@) != generics as nat ==> r == Err::<(), MacroError>(
            MacroError::ArityMismatch,
        ),
{
    let found = count_generics(path);
    if found == generics {
        Ok(())
    } else {
        Err(MacroError::ArityMismatch)
    }
}

// ---------------------------------------------------------------------------
// Bare paths and declaration references
// ---------------------------------------------------------------------------

/// The single-segment path holding just an identifier.
pub open spec fn ident_path_vu(id: Seq<char>) -> PathVu {
    PathVu { segments: seq![SegVu { ident: id, args: Seq::empty() }] }
}

/// Builds the single-segment path holding just `ident`.
pub fn ident_to_path(ident: &String) -> (r: TypePath)
    ensures
        r@ == ident_path_vu(ident@),
{
    let segment = TypePathSegment { ident: ident.clone(), args: Vec::new() };
    let mut segments: Vec<TypePathSegment> = Vec::new();
    segments.push(segment);
    let r = TypePath { segments };
    proof {
        assert(seq_views(Seq::<String>::empty()) =~= Seq::<Seq<char>>::empty());
        assert(r@.segments =~= ident_path_vu(ident@).segments);
    }
    r
}

/// The declaration data of a struct or enum item.
pub open spec fn decl_of(item: ItemVu) -> Option<DeclVu> {
    match item {
        ItemVu::StructVu(d) => Some(d),
        ItemVu::EnumVu(d) => Some(d),
        ItemVu::FnVu(_) => None,
        ItemVu::OtherVu => None,
    }
}

impl StructOrEnumRef {
    /// Packs a declaration's data.
    pub fn new(ident: String, generics: usize, attributes: Vec<AttributeData>) -> (r: Self)
        ensures
            r.ident == ident,
            r.generics == generics,
            r.attributes == attributes,
    {
        StructOrEnumRef { ident, generics, attributes }
    }

    /// Extracts the declaration data of a struct or enum item; any other
    /// item kind is not a candidate for markers.
    pub fn try_from(item: &ModuleItem) -> (r: Result<StructOrEnumRef, MacroError>)
        ensures
            (decl_of(item@) is Some) == (r is Ok),
            r matches Ok(d) ==> decl_of(item@) == Some(d@),
            r matches Err(e) ==> e == MacroError::NotAStructOrEnum,
    {
        match item {
            ModuleItem::StructItem(d) => Ok(d.clone()),
            ModuleItem::EnumItem(d) => Ok(d.clone()),
            _ => Err(MacroError::NotAStructOrEnum),
        }
    }
}

// ---------------------------------------------------------------------------
// Path resolution
// ---------------------------------------------------------------------------

/// What resolving a declaration with optional explicit path arguments
/// yields: the bare identifier path when no arguments were written;
/// otherwise the single validated argument, or the error that validation
/// hits first (identifier before arity).
pub open spec fn resolve_spec(item: ItemVu, args: Option<Seq<PathVu>>) -> Result<
    PathVu,
    MacroError,
> {
    match decl_of(item) {
        None => Err(MacroError::NotAStructOrEnum),
        Some(d) => match args {
            None => Ok(ident_path_vu(d.ident)),
            Some(ps) => if ps.len() == 0 {
                Err(MacroError::MissingPathArgument)
            } else if ps.len() > 1 {
                Err(MacroError::MultiplePathArguments)
            } else if ps[0].segments[0].ident != d.ident {
                Err(MacroError::IdentifierMismatch)
            } else if count_generics_vu(ps[0]) != d.generics {
                Err(MacroError::ArityMismatch)
            } else {
                Ok(ps[0])
            },
        },
    }
}

pub open spec fn args_views(a: Option<Vec<TypePath>>) -> Option<Seq<PathVu>> {
    match a {
        Some(v) => Some(v@.map_values(|p: TypePath| p@)),
        None => None,
    }
}

pub open spec fn args_wf(a: Option<Seq<PathVu>>) -> bool {
    match a {
        Some(ps) => forall|k: int| 0 <= k < ps.len() ==> crate::syntax::path_wf(ps[k]),
        None => true,
    }
}

pub open spec fn path_result_matches(
    r: Result<TypePath, MacroError>,
    m: Result<PathVu, MacroError>,
) -> bool {
    match r {
        Ok(p) => m == Ok::<PathVu, MacroError>(p@),
        Err(e) => m == Err::<PathVu, MacroError>(e),
    }
}

/// Resolves the path to register for one marked declaration: the bare
/// declaration identifier when `args` is `None`, else the single supplied
/// path validated against the declaration.
pub fn resolve_path_from_item_or_args(item: &ModuleItem, args: Option<Vec<TypePath>>) -> (r: Result<
    TypePath,
    MacroError,
>)
    requires
        args_wf(args_views(args)),
    ensures
        path_result_matches(r, resolve_spec(item@, args_views(args))),
{
    let decl = match StructOrEnumRef::try_from(item) {
        Ok(d) => d,
        Err(e) => {
            return Err(e);
        },
    };
    match args {
        None => Ok(ident_to_path(&decl.ident)),
        Some(paths) => {
            if paths.len() == 0 {
                return Err(MacroError::MissingPathArgument);
            }
            if paths.len() > 1 {
                return Err(MacroError::MultiplePathArguments);
            }
            let mut paths = paths;
            let path = paths.remove(0);
            let head: &TypePathSegment = &path.segments[0];
            if !head.ident.eq(&decl.ident) {
                return Err(MacroError::IdentifierMismatch);
            }
            match validate_generic_counts(decl.generics, &path) {
                Ok(()) => Ok(path),
                Err(e) => Err(e),
            }
        },
    }
}

// ---------------------------------------------------------------------------
// Host-parameter validation
// ---------------------------------------------------------------------------

/// Outcome of looking for the designated host parameter in a signature.
pub enum ParamCheck {
    ParamOk,
    ParamNotMutable,
    ParamNotFound,
}

/// Scans the parameters from index `i` on for the first plain-identifier
/// binding named `name`; that binding decides.
pub open spec fn host_param_at(
    params: Seq<crate::syntax::ParamVu>,
    name: Seq<char>,
    i: int,
) -> ParamCheck
    decreases params.len() - i,
{
    if i >= params.len() {
        ParamCheck::ParamNotFound
    } else {
        match params[i].name {
            Some(n) => if n == name {
                if params[i].is_mut_ref {
                    ParamCheck::ParamOk
                } else {
                    ParamCheck::ParamNotMutable
                }
            } else {
                host_param_at(params, name, i + 1)
            },
            None => host_param_at(params, name, i + 1),
        }
    }
}

/// Checks that the parameter named `param_ident` exists and is declared as
/// a mutable reference.
pub fn check_fn_param_mutable(item: &FnDecl, param_ident: &String) -> (r: Result<(), MacroError>)
    ensures
        (host_param_at(item@, param_ident@, 0) is ParamOk) == (r is Ok),
        r matches Err(e) ==> e == (if host_param_at(item@, param_ident@, 0) is ParamNotMutable {
            MacroError::HostParameterNotMutableReference
        } else {
            MacroError::HostParameterNotFound
        }),
{
    let mut i: usize = 0;
    while i < item.params.len()
        invariant
            i <= item.params.len(),
            host_param_at(item@, param_ident@, 0) == host_param_at(item@, param_ident@, i as int),
        decreases item.params.len() - i,
    {
        let p: &crate::syntax::FnParam = &item.params[i];
        match &p.name {
            Some(n) => {
                if n.eq(param_ident) {
                    if p.is_mut_ref {
                        return Ok(());
                    } else {
                        return Err(MacroError::HostParameterNotMutableReference);
                    }
                }
            },
            None => {},
        }
        i = i + 1;
    }
    Err(MacroError::HostParameterNotFound)
}

// ---------------------------------------------------------------------------
// Attribute scanning
// ---------------------------------------------------------------------------

/// View of one marker occurrence found by scanning: the carrying item, the
/// resolved path, and the attribute itself.
pub struct MatchVu {
    pub item: ItemVu,
    pub path: PathVu,
    pub attr: AttrVu,
}

/// One marker occurrence found by scanning.
pub struct ItemWithAttributeMatch {
    pub item: ModuleItem,
    pub path: TypePath,
    pub attributes: AttributeData,
}

impl View for ItemWithAttributeMatch {
    type V = MatchVu;

    open spec fn view(&self) -> MatchVu {
        MatchVu { item: self.item@, path: self.path@, attr: self.attributes@ }
    }
}

impl ItemWithAttributeMatch {
    /// The canonical text of the occurrence's resolved path.
    pub fn into_path_string(self) -> (r: String)
        ensures
            r@ == path_text(self.path@),
    {
        path_to_string(&self.path)
    }
}

pub open spec fn match_views(s: Seq<ItemWithAttributeMatch>) -> Seq<MatchVu> {
    s.map_values(|x: ItemWithAttributeMatch| x@)
}

pub open spec fn item_views(s: Seq<ModuleItem>) -> Seq<ItemVu> {
    s.map_values(|x: ModuleItem| x@)
}

pub open spec fn matches_result(
    r: Result<Vec<ItemWithAttributeMatch>, MacroError>,
    m: Result<Seq<MatchVu>, MacroError>,
) -> bool {
    match r {
        Ok(v) => m == Ok::<Seq<MatchVu>, MacroError>(match_views(v@)),
        Err(e) => m == Err::<Seq<MatchVu>, MacroError>(e),
    }
}

/// Every path argument of the attribute has at least one segment.
pub open spec fn attr_wf(a: AttrVu) -> bool {
    match a.args {
        Some(ps) => forall|k: int| 0 <= k < ps.len() ==> crate::syntax::path_wf(ps[k]),
        None => true,
    }
}

pub open spec fn decl_wf(d: DeclVu) -> bool {
    forall|k: int| 0 <= k < d.attrs.len() ==> attr_wf(#[trigger] d.attrs[k])
}

pub open spec fn item_wf(item: ItemVu) -> bool {
    match decl_of(item) {
        Some(d) => decl_wf(d),
        None => true,
    }
}

pub open spec fn items_wf(s: Seq<ItemVu>) -> bool {
    forall|k: int| 0 <= k < s.len() ==> item_wf(#[trigger] s[k])
}

/// What one marker attribute on a declaration resolves to: the bare
/// identifier path for the argument-less form (no arity check, by design);
/// otherwise exactly one path argument, validated as in `resolve_spec`,
/// where an argument list without exactly one path is rejected.
pub open spec fn attr_resolve_spec(d: DeclVu, a: AttrVu) -> Result<PathVu, MacroError> {
    match a.args {
        None => Ok(ident_path_vu(d.ident)),
        Some(ps) => if ps.len() != 1 {
            Err(MacroError::MultiplePathArguments)
        } else if ps[0].segments[0].ident != d.ident {
            Err(MacroError::IdentifierMismatch)
        } else if count_generics_vu(ps[0]) != d.generics {
            Err(MacroError::ArityMismatch)
        } else {
            Ok(ps[0])
        },
    }
}

/// The occurrences contributed by the attributes of one declaration from
/// index `i` on, in source order; the first failing occurrence aborts the
/// scan.
pub open spec fn scan_attrs_spec(
    item: ItemVu,
    d: DeclVu,
    name: Seq<char>,
    i: int,
) -> Result<Seq<MatchVu>, MacroError>
    decreases d.attrs.len() - i,
{
    if i >= d.attrs.len() {
        Ok(Seq::empty())
    } else if d.attrs[i].name != name {
        scan_attrs_spec(item, d, name, i + 1)
    } else {
        match attr_resolve_spec(d, d.attrs[i]) {
            Err(e) => Err(e),
            Ok(p) => match scan_attrs_spec(item, d, name, i + 1) {
                Err(e) => Err(e),
                Ok(ms) => Ok(seq![MatchVu { item: item, path: p, attr: d.attrs[i] }] + ms),
            },
        }
    }
}

/// The occurrences of marker `name` over the items from index `i` on, in
/// source order; items that are not structs or enums are skipped.
pub open spec fn scan_spec(items: Seq<ItemVu>, name: Seq<char>, i: int) -> Result<
    Seq<MatchVu>,
    MacroError,
>
    decreases items.len() - i,
{
    if i >= items.len() {
        Ok(Seq::empty())
    } else {
        match decl_of(items[i]) {
            None => scan_spec(items, name, i + 1),
            Some(d) => match scan_attrs_spec(items[i], d, name, 0) {
                Err(e) => Err(e),
                Ok(ms) => match scan_spec(items, name, i + 1) {
                    Err(e) => Err(e),
                    Ok(rest) => Ok(ms + rest),
                },
            },
        }
    }
}

fn attr_resolve(d: &StructOrEnumRef, attr: &AttributeData) -> (r: Result<TypePath, MacroError>)
    requires
        attr_wf(attr@),
    ensures
        path_result_matches(r, attr_resolve_spec(d@, attr@)),
{
    match &attr.args {
        None => Ok(ident_to_path(&d.ident)),
        Some(ps) => {
            if ps.len() != 1 {
                return Err(MacroError::MultiplePathArguments);
            }
            let first: &TypePath = &ps[0];
            let path = first.clone();
            let head: &TypePathSegment = &path.segments[0];
            if !head.ident.eq(&d.ident) {
                return Err(MacroError::IdentifierMismatch);
            }
            match validate_generic_counts(d.generics, &path) {
                Ok(()) => Ok(path),
                Err(e) => Err(e),
            }
        },
    }
}

fn scan_attrs(item: &ModuleItem, d: &StructOrEnumRef, name: &str, i: usize) -> (r: Result<
    Vec<ItemWithAttributeMatch>,
    MacroError,
>)
    requires
        decl_of(item@) == Some(d@),
        decl_wf(d@),
        i <= d.attributes@.len(),
    ensures
        matches_result(r, scan_attrs_spec(item@, d@, name@, i as int)),
    decreases d.attributes@.len() - i,
{
    if i == d.attributes.len() {
        let v: Vec<ItemWithAttributeMatch> = Vec::new();
        proof {
            assert(match_views(v@) =~= Seq::<MatchVu>::empty());
        }
        Ok(v)
    } else {
        let attr: &AttributeData = &d.attributes[i];
        if !str_eq(attr.name.as_str(), name) {
            scan_attrs(item, d, name, i + 1)
        } else {
            let path = match attr_resolve(d, attr) {
                Ok(p) => p,
                Err(e) => {
                    return Err(e);
                },
            };
            let mut rest = match scan_attrs(item, d, name, i + 1) {
                Ok(v) => v,
                Err(e) => {
                    return Err(e);
                },
            };
            let m = ItemWithAttributeMatch { item: item.clone(), path, attributes: attr.clone() };
            let mut out: Vec<ItemWithAttributeMatch> = Vec::new();
            out.push(m);
            out.append(&mut rest);
            proof {
                let spec_r = scan_attrs_spec(item@, d@, name@, i as int);
                assert(match_views(out@) =~= spec_r->Ok_0);
            }
            Ok(out)
        }
    }
}

fn scan_items(items: &Vec<ModuleItem>, name: &str, i: usize) -> (r: Result<
    Vec<ItemWithAttributeMatch>,
    MacroError,
>)
    requires
        items_wf(item_views(items@)),
        i <= items@.len(),
    ensures
        matches_result(r, scan_spec(item_views(items@), name@, i as int)),
    decreases items@.len() - i,
{
    if i == items.len() {
        let v: Vec<ItemWithAttributeMatch> = Vec::new();
        proof {
            assert(match_views(v@) =~= Seq::<MatchVu>::empty());
        }
        Ok(v)
    } else {
        let item: &ModuleItem = &items[i];
        let d = match item {
            ModuleItem::StructItem(d) => d,
            ModuleItem::EnumItem(d) => d,
            _ => {
                return scan_items(items, name, i + 1);
            },
        };
        proof {
            assert(item_views(items@)[i as int] == item@);
            assert(item_wf(item@));
        }
        let mut head = match scan_attrs(item, d, name, 0) {
            Ok(v) => v,
            Err(e) => {
                return Err(e);
            },
        };
        let mut rest = match scan_items(items, name, i + 1) {
            Ok(v) => v,
            Err(e) => {
                return Err(e);
            },
        };
        head.append(&mut rest);
        proof {
            let spec_r = scan_spec(item_views(items@), name@, i as int);
            assert(match_views(head@) =~= spec_r->Ok_0);
        }
        Ok(head)
    }
}

/// Finds every occurrence of the marker `attribute_name` on the struct and
/// enum declarations of `items`, resolving each occurrence's path.
pub fn items_with_attribute_macro(items: &Vec<ModuleItem>, attribute_name: &str) -> (r: Result<
    Vec<ItemWithAttributeMatch>,
    MacroError,
>)
    requires
        items_wf(item_views(items@)),
    ensures
        matches_result(r, scan_spec(item_views(items@), attribute_name@, 0)),
{
    scan_items(items, attribute_name, 0)
}

/// Scans a module's own declaration list for the marker `attribute_name`;
/// a module without a body has no occurrences.
pub fn get_all_items_in_module_by_attribute(module: &ModuleModel, attribute_name: &str) -> (r:
    Result<Vec<ItemWithAttributeMatch>, MacroError>)
    requires
        module.content matches Some(items) ==> items_wf(item_views(items@)),
    ensures
        module.content is None ==> (r matches Ok(v) && v@.len() == 0),
        module.content matches Some(items) ==> matches_result(
            r,
            scan_spec(item_views(items@), attribute_name@, 0),
        ),
{
    match &module.content {
        None => Ok(Vec::new()),
        Some(items) => items_with_attribute_macro(items, attribute_name),
    }
}

/// Appends an item to a module's declaration list; a module without a body
/// is left untouched.
pub fn inject_module(module: &mut ModuleModel, item: ModuleItem)
    ensures
        old(module).content matches Some(items) ==> final(module).content matches Some(items2)
            && items2@ == items@.push(item),
        old(module).content is None ==> *final(module) == *old(module),
{
    match &mut module.content {
        Some(items) => items.push(item),
        None => {},
    }
}

/// The diagnostic texts a host-parameter check reports with.
pub struct FnParamMutabilityCheckErrMessages {
    pub not_mutable_message: String,
    pub not_found_message: String,
}

/// Checks that `param_ident` names a mutable-reference parameter of `item`,
/// reporting with the caller's own message texts.
pub fn is_fn_param_mutable_reference(
    item: &FnDecl,
    param_ident: &String,
    messages: FnParamMutabilityCheckErrMessages,
) -> (r: Result<(), String>)
    ensures
        (host_param_at(item@, param_ident@, 0) is ParamOk) == (r is Ok),
        r matches Err(m) ==> m@ == (if host_param_at(item@, param_ident@, 0) is ParamNotMutable {
            messages.not_mutable_message@
        } else {
            messages.not_found_message@
        }),
{
    match check_fn_param_mutable(item, param_ident) {
        Ok(()) => Ok(()),
        Err(MacroError::HostParameterNotMutableReference) => Err(messages.not_mutable_message),
        Err(_) => Err(messages.not_found_message),
    }
}

} // verus!
