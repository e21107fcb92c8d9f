//! Plain-value model of the declaration syntax the engine works on.
//!
//! A type path is a list of segments, each an identifier with optional
//! generic-argument texts; a marker attribute carries its name and, when
//! parenthesized arguments were written, a list of paths; a module item is
//! a struct or enum declaration (identifier, declared type-parameter count,
//! attribute list), a function item carried as text, or anything else.
//! Conversion from and to concrete surface syntax happens outside the
//! library; every value here is already normalized, in particular free of
//! whitespace inside identifiers and generic-argument texts.

use vstd::prelude::*;

verus! {

/// One path segment: an identifier plus the texts of its generic arguments
/// (empty when the segment has no angle-bracketed argument list).
#[derive(Debug, PartialEq, Eq)]
pub struct TypePathSegment {
    pub ident: String,
    pub args: Vec<String>,
}

/// A type path such as `Foo` or `Bar<bool, u32>`: a non-empty segment list.
#[derive(Debug, PartialEq, Eq)]
pub struct TypePath {
    pub segments: Vec<TypePathSegment>,
}

/// A marker attribute occurrence: its name and, when written with
/// parentheses, the list of path arguments (`None` means the bare form).
#[derive(Debug, PartialEq, Eq)]
pub struct AttributeData {
    pub name: String,
    pub args: Option<Vec<TypePath>>,
}

/// The data of a struct or enum declaration that the engine reads: its
/// identifier, the number of declared generic type parameters, and its
/// attributes.
#[derive(Debug, PartialEq, Eq)]
pub struct StructOrEnumRef {
    pub ident: String,
    pub generics: usize,
    pub attributes: Vec<AttributeData>,
}

/// One item of a module's declaration list.
#[derive(Debug, PartialEq, Eq)]
pub enum ModuleItem {
    StructItem(StructOrEnumRef),
    EnumItem(StructOrEnumRef),
    FnItem(String),
    OtherItem,
}

/// A module: `content` is `None` for a declaration without a body and
/// `Some` with the item list otherwise.
pub struct ModuleModel {
    pub content: Option<Vec<ModuleItem>>,
}

/// One parameter of a function signature: the binding's identifier when the
/// pattern is a plain identifier (`None` for receivers and other patterns),
/// and whether its type is a mutable reference.
pub struct FnParam {
    pub name: Option<String>,
    pub is_mut_ref: bool,
}

/// The part of a function declaration the engine reads: its parameters.
pub struct FnDecl {
    pub params: Vec<FnParam>,
}

// ---------------------------------------------------------------------------
// Mathematical views
// ---------------------------------------------------------------------------

/// View of a path segment: identifier and argument texts as char sequences.
#[verifier::ext_equal]
pub struct SegVu {
    pub ident: Seq<char>,
    pub args: Seq<Seq<char>>,
}

/// View of a type path.
#[verifier::ext_equal]
pub struct PathVu {
    pub segments: Seq<SegVu>,
}

/// View of a marker attribute occurrence.
#[verifier::ext_equal]
pub struct AttrVu {
    pub name: Seq<char>,
    pub args: Option<Seq<PathVu>>,
}

/// View of a struct or enum declaration.
#[verifier::ext_equal]
pub struct DeclVu {
    pub ident: Seq<char>,
    pub generics: nat,
    pub attrs: Seq<AttrVu>,
}

/// View of a module item.
#[verifier::ext_equal]
pub enum ItemVu {
    StructVu(DeclVu),
    EnumVu(DeclVu),
    FnVu(Seq<char>),
    OtherVu,
}

pub open spec fn seq_views(s: Seq<String>) -> Seq<Seq<char>> {
    s.map_values(|x: String| x@)
}

impl View for TypePathSegment {
    type V = SegVu;

    open spec fn view(&self) -> SegVu {
        SegVu { ident: self.ident@, args: seq_views(self.args@) }
    }
}

impl View for TypePath {
    type V = PathVu;

    open spec fn view(&self) -> PathVu {
        PathVu { segments: self.segments@.map_values(|s: TypePathSegment| s@) }
    }
}

impl View for AttributeData {
    type V = AttrVu;

    open spec fn view(&self) -> AttrVu {
        AttrVu {
            name: self.name@,
            args: match self.args {
                Some(ps) => Some(ps@.map_values(|p: TypePath| p@)),
                None => None,
            },
        }
    }
}

impl View for StructOrEnumRef {
    type V = DeclVu;

    open spec fn view(&self) -> DeclVu {
        DeclVu {
            ident: self.ident@,
            generics: self.generics as nat,
            attrs: self.attributes@.map_values(|a: AttributeData| a@),
        }
    }
}

impl View for ModuleItem {
    type V = ItemVu;

    open spec fn view(&self) -> ItemVu {
        match self {
            ModuleItem::StructItem(d) => ItemVu::StructVu(d@),
            ModuleItem::EnumItem(d) => ItemVu::EnumVu(d@),
            ModuleItem::FnItem(s) => ItemVu::FnVu(s@),
            ModuleItem::OtherItem => ItemVu::OtherVu,
        }
    }
}

/// View of a function parameter.
pub struct ParamVu {
    pub name: Option<Seq<char>>,
    pub is_mut_ref: bool,
}

impl View for FnParam {
    type V = ParamVu;

    open spec fn view(&self) -> ParamVu {
        ParamVu {
            name: match self.name {
                Some(ref n) => Some(n@),
                None => None,
            },
            is_mut_ref: self.is_mut_ref,
        }
    }
}

impl View for FnDecl {
    type V = Seq<ParamVu>;

    open spec fn view(&self) -> Seq<ParamVu> {
        self.params@.map_values(|p: FnParam| p@)
    }
}

/// A path must have at least one segment; its head identifier is the base
/// identifier that resolution compares against a declaration's identifier.
pub open spec fn path_wf(p: PathVu) -> bool {
    p.segments.len() >= 1
}

// ---------------------------------------------------------------------------
// Cloning (with view-preserving contracts)
// ---------------------------------------------------------------------------

pub fn clone_string_vec(v: &Vec<String>) -> (r: Vec<String>)
    ensures
        seq_views(r@) == seq_views(v@),
{
    let mut r: Vec<String> = Vec::new();
    let mut i: usize = 0;
    while i < v.len()
        invariant
            i <= v.len(),
            r@.len() == i,
            forall|j: int| 0 <= j < i ==> r@[j]@ == v@[j]@,
        decreases v.len() - i,
    {
        r.push(v[i].clone());
        i = i + 1;
    }
    proof {
        assert(seq_views(r@) =~= seq_views(v@));
    }
    r
}

impl Clone for TypePathSegment {
    fn clone(&self) -> (r: Self)
        ensures
            r@ == self@,
    {
        TypePathSegment { ident: self.ident.clone(), args: clone_string_vec(&self.args) }
    }
}

impl Clone for TypePath {
    fn clone(&self) -> (r: Self)
        ensures
            r@ == self@,
    {
        let mut segments: Vec<TypePathSegment> = Vec::new();
        let mut i: usize = 0;
        while i < self.segments.len()
            invariant
                i <= self.segments.len(),
                segments@.len() == i,
                forall|j: int| 0 <= j < i ==> segments@[j]@ == self.segments@[j]@,
            decreases self.segments.len() - i,
        {
            segments.push(self.segments[i].clone());
            i = i + 1;
        }
        let r = TypePath { segments };
        proof {
            assert(r@.segments =~= self@.segments);
        }
        r
    }
}

pub fn clone_path_vec(v: &Vec<TypePath>) -> (r: Vec<TypePath>)
    ensures
        r@.map_values(|p: TypePath| p@) == v@.map_values(|p: TypePath| p@),
{
    let mut r: Vec<TypePath> = Vec::new();
    let mut i: usize = 0;
    while i < v.len()
        invariant
            i <= v.len(),
            r@.len() == i,
            forall|j: int| 0 <= j < i ==> r@[j]@ == v@[j]@,
        decreases v.len() - i,
    {
        r.push(v[i].clone());
        i = i + 1;
    }
    proof {
        assert(r@.map_values(|p: TypePath| p@) =~= v@.map_values(|p: TypePath| p@));
    }
    r
}

impl Clone for AttributeData {
    fn clone(&self) -> (r: Self)
        ensures
            r@ == self@,
    {
        let args = match &self.args {
            Some(ps) => Some(clone_path_vec(ps)),
            None => None,
        };
        let r = AttributeData { name: self.name.clone(), args };
        proof {
            assert(r@ == self@);
        }
        r
    }
}

pub fn clone_attr_vec(v: &Vec<AttributeData>) -> (r: Vec<AttributeData>)
    ensures
        r@.map_values(|a: AttributeData| a@) == v@.map_values(|a: AttributeData| a@),
{
    let mut r: Vec<AttributeData> = Vec::new();
    let mut i: usize = 0;
    while i < v.len()
        invariant
            i <= v.len(),
            r@.len() == i,
            forall|j: int| 0 <= j < i ==> r@[j]@ == v@[j]@,
        decreases v.len() - i,
    {
        r.push(v[i].clone());
        i = i + 1;
    }
    proof {
        assert(r@.map_values(|a: AttributeData| a@) =~= v@.map_values(|a: AttributeData| a@));
    }
    r
}

impl Clone for StructOrEnumRef {
    fn clone(&self) -> (r: Self)
        ensures
            r@ == self@,
    {
        let r = StructOrEnumRef {
            ident: self.ident.clone(),
            generics: self.generics,
            attributes: clone_attr_vec(&self.attributes),
        };
        proof {
            assert(r@ == self@);
        }
        r
    }
}

impl Clone for ModuleItem {
    fn clone(&self) -> (r: Self)
        ensures
            r@ == self@,
    {
        match self {
            ModuleItem::StructItem(d) => ModuleItem::StructItem(d.clone()),
            ModuleItem::EnumItem(d) => ModuleItem::EnumItem(d.clone()),
            ModuleItem::FnItem(s) => ModuleItem::FnItem(s.clone()),
            ModuleItem::OtherItem => ModuleItem::OtherItem,
        }
    }
}

} // verus!
