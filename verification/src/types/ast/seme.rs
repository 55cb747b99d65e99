//! Folding declaration specifiers into the form the type rules use.
use crate::types::ast::ast_nodes::{ConstantKind, Expression, ExpressionKind, Qualifiers, StorageClass, Type, TypeKind};
use crate::types::ast::decl_info::{ArraySizeModifier, DeclChunk, DeclChunkKind, Declarator, PointerChunk, TypeQual};
use vstd::prelude::*;

verus! {

/// Whether `quals` holds a `const`.
pub open spec fn has_const(quals: Seq<TypeQual>) -> bool {
    exists|i: int| 0 <= i < quals.len() && #[trigger] quals[i] is Const
}

/// Whether `quals` holds a `volatile`.
pub open spec fn has_volatile(quals: Seq<TypeQual>) -> bool {
    exists|i: int| 0 <= i < quals.len() && #[trigger] quals[i] is Volatile
}

/// The qualifiers a list of qualifiers gives; a repeated qualifier is
/// allowed and counts once.
pub fn list2qualifiers(quals: Vec<TypeQual>) -> (r: Qualifiers)
    ensures
        r.is_const == has_const(quals@),
        r.is_volatile == has_volatile(quals@),
{
    let mut data = Qualifiers { is_const: false, is_volatile: false };
    let mut i: usize = 0;
    while i < quals.len()
        invariant
            i <= quals.len(),
            data.is_const == has_const(quals@.take(i as int)),
            data.is_volatile == has_volatile(quals@.take(i as int)),
        decreases quals.len() - i,
    {
        let ghost t = quals@.take(i as int);
        let ghost t1 = quals@.take(i + 1);
        proof {
            assert(t1 =~= t.push(quals@[i as int]));
            assert(has_const(t1) == (has_const(t) || quals@[i as int] is Const)) by {
                if has_const(t) {
                    let j = choose|j: int| 0 <= j < t.len() && #[trigger] t[j] is Const;
                    assert(t1[j] == t[j]);
                }
                if quals@[i as int] is Const {
                    assert(t1[i as int] is Const);
                }
            }
            assert(has_volatile(t1) == (has_volatile(t) || quals@[i as int] is Volatile)) by {
                if has_volatile(t) {
                    let j = choose|j: int| 0 <= j < t.len() && #[trigger] t[j] is Volatile;
                    assert(t1[j] == t[j]);
                }
                if quals@[i as int] is Volatile {
                    assert(t1[i as int] is Volatile);
                }
            }
        }
        match quals[i] {
            TypeQual::Const(_x) => {
                data.is_const = true;
            },
            TypeQual::Volatile(_x) => {
                data.is_volatile = true;
            },
        }
        i = i + 1;
    }
    assert(quals@.take(quals.len() as int) =~= quals@);
    data
}

/// The storage class a list of storage classes gives: the first, if any;
/// any further one is dropped.
pub fn list2storage(storage: Vec<StorageClass>) -> (r: Option<StorageClass>)
    ensures
        r == (if storage.len() > 0 {
            Some(storage@[0])
        } else {
            None
        }),
{
    if storage.len() > 0 {
        Some(storage[0])
    } else {
        None
    }
}

/// A part of a declarator in the order it applies to the base type:
/// pointers and the array and function parts.
#[derive(Debug)]
pub enum TypeSuffix {
    Pointer(PointerChunk),
    DeclChunk(DeclChunk),
}

/// The pointers of a declarator as suffixes, in order.
pub open spec fn pointer_suffixes(d: Declarator) -> Seq<TypeSuffix> {
    d.pointer_chunks@.map_values(|p: PointerChunk| TypeSuffix::Pointer(p))
}

/// Flattening the first `k` other parts of `d`, read from the last back:
/// the suffixes met before the name, and the name. A part in parentheses
/// ends the scan and is flattened in its place.
pub open spec fn flat_from(d: Declarator, k: int) -> (Seq<TypeSuffix>, Option<Seq<char>>)
    decreases d, k,
{
    if k <= 0 || k > d.decl_chunks@.len() {
        (Seq::empty(), None)
    } else {
        let x = d.decl_chunks@[k - 1];
        match x.chunk {
            DeclChunkKind::Ident { name } => (Seq::empty(), Some(name@)),
            DeclChunkKind::Paren(delim) => {
                proof {
                    assert(decreases_to!(d => d.decl_chunks));
                }
                let inner = flat_from(delim.inner, delim.inner.decl_chunks@.len() as int);
                (pointer_suffixes(delim.inner) + inner.0, inner.1)
            },
            _ => {
                let rest = flat_from(d, k - 1);
                (seq![TypeSuffix::DeclChunk(x)] + rest.0, rest.1)
            },
        }
    }
}

/// Flattening a declarator: its pointers, then the parts met from the end
/// back to the name, a nested declarator flattened in its place; and the
/// name, if one is found.
pub open spec fn flat_spec(d: Declarator) -> (Seq<TypeSuffix>, Option<Seq<char>>) {
    let rest = flat_from(d, d.decl_chunks@.len() as int);
    (pointer_suffixes(d) + rest.0, rest.1)
}

/// The text of an optional name.
pub open spec fn opt_text(n: Option<String>) -> Option<Seq<char>> {
    match n {
        Some(s) => Some(s@),
        None => None,
    }
}

/// Flattens the nested declarator into `out`, in the order the parts
/// apply to the base type, and gives the declared name if there is one.
pub fn flat_chunks(declarator: Declarator, out: &mut Vec<TypeSuffix>) -> (r: Option<String>)
    ensures
        final(out)@ == old(out)@ + flat_spec(declarator).0,
        opt_text(r) == flat_spec(declarator).1,
    decreases declarator,
{
    let ghost d = declarator;
    let ghost start = out@;
    let mut pointers = declarator.pointer_chunks;
    let decl_chunks = declarator.decl_chunks;
    while pointers.len() > 0
        invariant
            out@.len() - start.len() + pointers@.len() == d.pointer_chunks@.len(),
            out@.len() >= start.len(),
            pointers@ == d.pointer_chunks@.subrange(out@.len() - start.len(), d.pointer_chunks@.len() as int),
            out@ == start + pointer_suffixes(d).subrange(0, out@.len() - start.len()),
        decreases pointers.len(),
    {
        let ghost k = out@.len() - start.len();
        let p = pointers.remove(0);
        out.push(TypeSuffix::Pointer(p));
        proof {
            assert(pointers@ =~= d.pointer_chunks@.subrange(k + 1, d.pointer_chunks@.len() as int));
            assert(pointer_suffixes(d).subrange(0, k + 1) =~= pointer_suffixes(d).subrange(0, k).push(
                TypeSuffix::Pointer(p),
            ));
        }
    }
    proof {
        assert(pointer_suffixes(d).subrange(0, d.pointer_chunks@.len() as int) =~= pointer_suffixes(d));
    }
    let ghost mid = out@;
    let mut chunks = decl_chunks;
    while chunks.len() > 0
        invariant
            chunks@ == d.decl_chunks@.subrange(0, chunks@.len() as int),
            chunks@.len() <= d.decl_chunks@.len(),
            out@ + flat_from(d, chunks@.len() as int).0 == mid + flat_from(d, d.decl_chunks@.len() as int).0,
            flat_from(d, chunks@.len() as int).1 == flat_from(d, d.decl_chunks@.len() as int).1,
            mid == start + pointer_suffixes(d),
            d == declarator,
            start == old(out)@,
        decreases chunks.len(),
    {
        let ghost k = chunks@.len() as int;
        let x = chunks.pop().unwrap();
        assert(x == d.decl_chunks@[k - 1]);
        let span = x.span;
        match x.chunk {
            DeclChunkKind::Ident { name } => {
                proof {
                    assert(flat_from(d, k).0 =~= Seq::<TypeSuffix>::empty());
                    assert(out@ =~= start + flat_spec(d).0);
                    assert(flat_from(d, k).1 == Some(name@));
                    assert(opt_text(Some(name)) == flat_spec(d).1);
                }
                return Some(name);
            },
            DeclChunkKind::Paren(delim) => {
                proof {
                    assert(decreases_to!(d => d.decl_chunks));
                }
                let r = flat_chunks(delim.inner, out);
                return r;
            },
            other => {
                let ghost before = out@;
                let chunk = DeclChunk { chunk: other, span };
                assert(chunk == x);
                out.push(TypeSuffix::DeclChunk(chunk));
                proof {
                    assert(chunks@ =~= d.decl_chunks@.subrange(0, k - 1));
                    assert(before + flat_from(d, k).0 =~= out@ + flat_from(d, k - 1).0);
                }
            },
        }
    }
    None
}

/// The size a `Static` array part gives: the value of its integer literal.
pub open spec fn array_size(size: Option<Box<Expression>>) -> Option<u64> {
    match size {
        Some(e) => match e.kind {
            ExpressionKind::Literal(c) => match c.kind {
                ConstantKind::Int(v) => Some(v as u64),
                _ => None,
            },
            _ => None,
        },
        None => None,
    }
}

/// A suffix that `chunks2type` can apply: a pointer; an array `a[n]`
/// (`Normal`) sized by a nonnegative integer literal, or an open array
/// `a[]` (`Static`); or a function part without parameter list (a
/// parameter carries no type from which the function's parameter types
/// could be built).
pub open spec fn suffix_ok(s: TypeSuffix) -> bool {
    match s {
        TypeSuffix::Pointer(_) => true,
        TypeSuffix::DeclChunk(x) => match x.chunk {
            DeclChunkKind::Array { size, size_modifier } => match size_modifier {
                ArraySizeModifier::Normal => size matches Some(e) && e.kind matches ExpressionKind::Literal(c)
                    && c.kind matches ConstantKind::Int(v) && v >= 0,
                ArraySizeModifier::Static => true,
                ArraySizeModifier::VLA => false,
            },
            DeclChunkKind::Function { param_list } => param_list.inner is None,
            _ => false,
        },
    }
}

/// The type that `t` is built around: what it points to, its element
/// type, or its return type.
pub open spec fn inner_of(t: Type) -> Type {
    match t.kind {
        TypeKind::Pointer(b) => *b,
        TypeKind::Array { elem_ty, .. } => *elem_ty,
        TypeKind::Function { ret_ty, .. } => *ret_ty,
        _ => t,
    }
}

/// `t` has the outermost shape that suffix `s` gives: a pointer, an array
/// of the literal size of `a[n]` or of open size for `a[]`, or a function
/// of no parameters, not variadic, named by the span of `s`.
pub open spec fn shaped_by(s: TypeSuffix, t: Type) -> bool {
    match s {
        TypeSuffix::Pointer(p) => t.span == p.span && t.kind is Pointer,
        TypeSuffix::DeclChunk(x) => t.span == x.span && match x.chunk {
            DeclChunkKind::Array { size, size_modifier } => t.kind matches TypeKind::Array { size: sz, .. } && sz == (
            match size_modifier {
                ArraySizeModifier::Normal => array_size(size),
                _ => None,
            }),
            DeclChunkKind::Function { .. } => t.kind matches TypeKind::Function { params, is_variadic, .. }
                && params@.len() == 0 && !is_variadic,
            _ => false,
        },
    }
}

/// `t` is `base` with the suffixes `chunks` applied in order, the last
/// outermost.
pub open spec fn builds(chunks: Seq<TypeSuffix>, base: Type, t: Type) -> bool
    decreases chunks.len(),
{
    if chunks.len() == 0 {
        t == base
    } else {
        shaped_by(chunks.last(), t) && builds(chunks.drop_last(), base, inner_of(t))
    }
}

/// Applies the flattened suffixes to `base` in order, each wrapping the
/// type built so far: a pointer to it, an array of it, or a function
/// returning it.
pub fn chunks2type(chunks: Vec<TypeSuffix>, base: Box<Type>) -> (r: Box<Type>)
    requires
        forall|i: int| 0 <= i < chunks@.len() ==> suffix_ok(#[trigger] chunks@[i]),
    ensures
        builds(chunks@, *base, *r),
{
    let ghost all = chunks@;
    let mut chunks = chunks;
    let mut curr = base;
    let ghost b = *base;
    while chunks.len() > 0
        invariant
            chunks@.len() <= all.len(),
            chunks@ == all.subrange(all.len() - chunks@.len(), all.len() as int),
            forall|i: int| 0 <= i < all.len() ==> suffix_ok(#[trigger] all[i]),
            builds(all.subrange(0, all.len() - chunks@.len()), b, *curr),
        decreases chunks.len(),
    {
        let ghost k = all.len() - chunks@.len();
        let x = chunks.remove(0);
        assert(x == all[k]);
        let ghost xs = x;
        let ghost prev = *curr;
        let next = match x {
            TypeSuffix::Pointer(p) => Type { kind: TypeKind::Pointer(curr), span: p.span },
            TypeSuffix::DeclChunk(c) => {
                let span = c.span;
                match c.chunk {
                    DeclChunkKind::Array { size, size_modifier } => {
                        let kind = match size_modifier {
                            ArraySizeModifier::Static | ArraySizeModifier::VLA => TypeKind::Array {
                                elem_ty: curr,
                                size: None,
                            },
                            ArraySizeModifier::Normal => {
                                let n: u64 = match size {
                                    Some(e) => match e.kind {
                                        ExpressionKind::Literal(c) => match c.kind {
                                            ConstantKind::Int(v) => v as u64,
                                            _ => 0,
                                        },
                                        _ => 0,
                                    },
                                    None => 0,
                                };
                                TypeKind::Array { elem_ty: curr, size: Some(n) }
                            },
                        };
                        Type { kind, span }
                    },
                    _ => Type { kind: TypeKind::Function { ret_ty: curr, params: Vec::new(), is_variadic: false }, span },
                }
            },
        };
        proof {
            assert(all.subrange(0, k + 1).drop_last() =~= all.subrange(0, k));
            assert(all.subrange(0, k + 1).last() == xs);
            assert(inner_of(next) == prev);
            assert(chunks@ =~= all.subrange(k + 1, all.len() as int));
        }
        curr = Box::new(next);
    }
    assert(all.subrange(0, all.len() as int) =~= all);
    curr
}

} // verus!
