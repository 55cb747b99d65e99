//! Typing rules of C expressions over the types of `parser::ast`.
//!
//! Each rule is defined here as a spec function that gives `None` where the
//! rule rejects its operands; the executable rule requires a `Some` and
//! returns its value.

use crate::parser::ast::{
    binary_span, spec_is_arithmetic, spec_rank, type_span, with_span, AssignOp, BinaryOp, FloatSize, IntegerSize,
    Type, TypeV,
};
use crate::parser::span::Span;
use vstd::prelude::*;

verus! {

/// The signed integer type of the given size.
pub open spec fn signed_int(size: IntegerSize, span: Span) -> TypeV {
    TypeV::Integer { signed: true, size, span }
}

/// The integer size of a rank of the usual conversions.
pub open spec fn size_of_rank(rank: u8) -> IntegerSize {
    if rank == 1 {
        IntegerSize::Char
    } else if rank == 2 {
        IntegerSize::Short
    } else if rank == 4 {
        IntegerSize::Long
    } else {
        IntegerSize::Int
    }
}

/// The larger of two floating sizes.
pub open spec fn max_float(a: FloatSize, b: FloatSize) -> FloatSize {
    if a is Double || b is Double {
        FloatSize::Double
    } else {
        FloatSize::Float
    }
}

/// The larger of two ranks.
pub open spec fn max_rank(a: u8, b: u8) -> u8 {
    if a >= b { a } else { b }
}

/// Comparison and logical operators.
pub open spec fn is_comparison(op: BinaryOp) -> bool {
    op is LogicalAnd || op is LogicalOr || op is Lt || op is Gt || op is Le || op is Ge || op is Eq || op is Ne
}

/// Additive and multiplicative operators.
pub open spec fn is_arith_op(op: BinaryOp) -> bool {
    op is Add || op is Sub || op is Mul || op is Div || op is Mod
}

/// Shift and bitwise operators.
pub open spec fn is_bit_op(op: BinaryOp) -> bool {
    op is Shl || op is Shr || op is BitAnd || op is BitXor || op is BitOr
}

/// The type of `lhs op rhs` for an additive or multiplicative operator.
///
/// A pointer plus or minus an integer is that pointer type; a pointer minus
/// a pointer is a signed long; two arithmetic operands go through the usual
/// conversions: the larger floating size if either is floating, else the
/// integer size of the larger rank, signed.
pub open spec fn spec_arithmetic_result(lhs: TypeV, op: BinaryOp, rhs: TypeV) -> Option<TypeV> {
    let span = binary_span(op);
    if lhs is Pointer || rhs is Pointer {
        let base = if lhs is Pointer { lhs->Pointer_0 } else { rhs->Pointer_0 };
        let other = if lhs is Pointer { rhs } else { lhs };
        if !(op is Add || op is Sub) {
            None
        } else if other is Integer {
            Some(TypeV::Pointer(base, span))
        } else if lhs is Pointer && rhs is Pointer && op is Sub {
            Some(signed_int(IntegerSize::Long, span))
        } else {
            None
        }
    } else if spec_is_arithmetic(lhs) && spec_is_arithmetic(rhs) {
        if lhs is Floating || rhs is Floating {
            let size = if lhs is Floating && rhs is Floating {
                max_float(lhs->Floating_size, rhs->Floating_size)
            } else if lhs is Floating {
                lhs->Floating_size
            } else {
                rhs->Floating_size
            };
            Some(TypeV::Floating { size, span })
        } else {
            Some(signed_int(size_of_rank(max_rank(spec_rank(lhs), spec_rank(rhs))), span))
        }
    } else {
        None
    }
}

/// The type of `lhs op rhs`: comparisons and logical operators give a
/// signed int, shifts and bitwise operators on two integers give a signed
/// int, the others follow `spec_arithmetic_result`. Operands named by a
/// typedef are not handled.
pub open spec fn spec_type_binary(lhs: TypeV, op: BinaryOp, rhs: TypeV) -> Option<TypeV> {
    let span = binary_span(op);
    if lhs is NamedType || rhs is NamedType {
        None
    } else if is_comparison(op) {
        Some(signed_int(IntegerSize::Int, span))
    } else if is_arith_op(op) {
        spec_arithmetic_result(lhs, op, rhs)
    } else if lhs is Integer && rhs is Integer {
        Some(signed_int(IntegerSize::Int, span))
    } else {
        None
    }
}

/// The binary operator a compound assignment applies, with its span.
pub open spec fn compound_op(op: AssignOp) -> BinaryOp {
    match op {
        AssignOp::AddAssign(s) => BinaryOp::Add(s),
        AssignOp::SubAssign(s) => BinaryOp::Sub(s),
        AssignOp::MulAssign(s) => BinaryOp::Mul(s),
        AssignOp::DivAssign(s) => BinaryOp::Div(s),
        AssignOp::ModAssign(s) => BinaryOp::Mod(s),
        AssignOp::ShlAssign(s) => BinaryOp::Shl(s),
        AssignOp::ShrAssign(s) => BinaryOp::Shr(s),
        AssignOp::AndAssign(s) => BinaryOp::BitAnd(s),
        AssignOp::XorAssign(s) => BinaryOp::BitXor(s),
        AssignOp::OrAssign(s) => BinaryOp::BitOr(s),
        AssignOp::Assign(s) => BinaryOp::Add(s),
    }
}

/// The type of `lhs op rhs` for an assignment operator: always the type of
/// `lhs`, when the assignment is allowed.
///
/// A plain `=` is allowed between two arithmetic types, two pointers, or a
/// pointer and an integer. A compound assignment is allowed when the binary
/// operation is, and its result is arithmetic for an arithmetic `lhs` or a
/// pointer for a pointer `lhs`.
pub open spec fn spec_assign_type(lhs: TypeV, op: AssignOp, rhs: TypeV) -> Option<TypeV> {
    if op is Assign {
        if (spec_is_arithmetic(lhs) && spec_is_arithmetic(rhs)) || (lhs is Pointer && rhs is Pointer) || (lhs is Pointer
            && rhs is Integer) {
            Some(lhs)
        } else {
            None
        }
    } else {
        match spec_type_binary(lhs, compound_op(op), rhs) {
            None => None,
            Some(res) => if (spec_is_arithmetic(lhs) && spec_is_arithmetic(res)) || (lhs is Pointer && res is Pointer) {
                Some(lhs)
            } else {
                None
            },
        }
    }
}

/// The type of `base[index]`: the element type of a pointer or array base,
/// its span widened to cover the base's, for an integer index.
pub open spec fn spec_array_access_type(base: TypeV, index: TypeV) -> Option<TypeV> {
    if !(index is Integer) {
        None
    } else {
        match base {
            TypeV::Pointer(elem, span) => Some(with_span(*elem, crate::parser::span::spec_merge(span, type_span(*elem)))),
            TypeV::Array { elem_ty, span, .. } => Some(
                with_span(*elem_ty, crate::parser::span::spec_merge(span, type_span(*elem_ty))),
            ),
            _ => None,
        }
    }
}

/// The type of a call: the return type of a function type, or of the
/// function a pointer points to.
pub open spec fn spec_func_call_type(func: TypeV) -> Option<TypeV> {
    match func {
        TypeV::Pointer(inner, _) => match *inner {
            TypeV::Function { ret_ty, .. } => Some(*ret_ty),
            _ => None,
        },
        TypeV::Function { ret_ty, .. } => Some(*ret_ty),
        _ => None,
    }
}

/// The integer promotion: char and short become signed int, int and long
/// keep their sign; other types are unchanged.
pub open spec fn spec_promote_type(t: TypeV) -> TypeV {
    match t {
        TypeV::Integer { signed, size, span } => match size {
            IntegerSize::Char => TypeV::Integer { signed: true, size: IntegerSize::Int, span },
            IntegerSize::Short => TypeV::Integer { signed: true, size: IntegerSize::Int, span },
            IntegerSize::Int => TypeV::Integer { signed, size: IntegerSize::Int, span },
            IntegerSize::Long => TypeV::Integer { signed, size: IntegerSize::Long, span },
        },
        _ => t,
    }
}

/// The type a dereference gives: the pointee, the element of an array, or a
/// function type itself.
pub open spec fn spec_deref_type(t: TypeV) -> Option<TypeV> {
    match t {
        TypeV::Pointer(inner, _) => Some(*inner),
        TypeV::Array { elem_ty, .. } => Some(*elem_ty),
        TypeV::Function { .. } => Some(t),
        _ => None,
    }
}

/// The type of `lhs op rhs`.
fn type_binary(lhs: &Type, op: &BinaryOp, rhs: &Type) -> (r: Type)
    requires
        spec_type_binary(lhs@, *op, rhs@) is Some,
    ensures
        Some(r@) == spec_type_binary(lhs@, *op, rhs@),
{
    let span = op.unwrap_span();
    match op {
        BinaryOp::LogicalAnd(_) | BinaryOp::LogicalOr(_) | BinaryOp::Lt(_) | BinaryOp::Gt(_) | BinaryOp::Le(_)
        | BinaryOp::Ge(_) | BinaryOp::Eq(_) | BinaryOp::Ne(_) => {
            Type::Integer { signed: true, size: IntegerSize::Int, span }
        },
        BinaryOp::Add(_) | BinaryOp::Sub(_) | BinaryOp::Mul(_) | BinaryOp::Div(_) | BinaryOp::Mod(_) => {
            arithmetic_result(lhs, op, rhs)
        },
        BinaryOp::Shl(_) | BinaryOp::Shr(_) | BinaryOp::BitAnd(_) | BinaryOp::BitXor(_) | BinaryOp::BitOr(_) => {
            Type::Integer { signed: true, size: IntegerSize::Int, span }
        },
    }
}

/// The pointer arithmetic case: `ptr` is a pointer operand with pointee
/// `base`, `other` the other operand.
fn pointer_result(base: &Type, other: &Type, both_pointers: bool, op: &BinaryOp) -> (r: Type)
    requires
        op is Add || op is Sub,
        other@ is Integer || (both_pointers && op is Sub),
    ensures
        other@ is Integer ==> r@ == TypeV::Pointer(Box::new(base@), binary_span(*op)),
        !(other@ is Integer) ==> r@ == signed_int(IntegerSize::Long, binary_span(*op)),
{
    let span = op.unwrap_span();
    if other.is_integer() {
        Type::Pointer(Box::new(base.duplicate()), span)
    } else {
        Type::Integer { signed: true, size: IntegerSize::Long, span }
    }
}

/// The type of `lhs op rhs` for an additive or multiplicative operator.
fn arithmetic_result(lhs: &Type, op: &BinaryOp, rhs: &Type) -> (r: Type)
    requires
        spec_arithmetic_result(lhs@, *op, rhs@) is Some,
    ensures
        Some(r@) == spec_arithmetic_result(lhs@, *op, rhs@),
{
    let span = op.unwrap_span();
    let both = lhs.is_pointer() && rhs.is_pointer();
    match lhs {
        Type::Pointer(base, _) => {
            return pointer_result(base, rhs, both, op);
        },
        _ => {},
    }
    match rhs {
        Type::Pointer(base, _) => {
            return pointer_result(base, lhs, both, op);
        },
        _ => {},
    }
    if lhs.is_floating() || rhs.is_floating() {
        let size = match (lhs, rhs) {
            (Type::Floating { size: ls, .. }, Type::Floating { size: rs, .. }) => {
                match (ls, rs) {
                    (FloatSize::Float, FloatSize::Float) => FloatSize::Float,
                    _ => FloatSize::Double,
                }
            },
            (Type::Floating { size: ls, .. }, _) => *ls,
            (_, Type::Floating { size: rs, .. }) => *rs,
            _ => FloatSize::Double,
        };
        Type::Floating { size, span }
    } else {
        let lr = lhs.rank();
        let rr = rhs.rank();
        let rank = if lr >= rr { lr } else { rr };
        let size = if rank == 1 {
            IntegerSize::Char
        } else if rank == 2 {
            IntegerSize::Short
        } else if rank == 3 {
            IntegerSize::Int
        } else if rank == 4 {
            IntegerSize::Long
        } else {
            IntegerSize::Int
        };
        Type::Integer { signed: true, size, span }
    }
}

/// The type of an assignment `lhs op rhs`, which is the type of `lhs`.
pub fn assign_type(lhs: &Type, op: &AssignOp, rhs: &Type) -> (r: Type)
    requires
        spec_assign_type(lhs@, *op, rhs@) is Some,
    ensures
        Some(r@) == spec_assign_type(lhs@, *op, rhs@),
{
    match op {
        AssignOp::Assign(_) => lhs.duplicate(),
        _ => {
            let bop = match op {
                AssignOp::AddAssign(s) => BinaryOp::Add(*s),
                AssignOp::SubAssign(s) => BinaryOp::Sub(*s),
                AssignOp::MulAssign(s) => BinaryOp::Mul(*s),
                AssignOp::DivAssign(s) => BinaryOp::Div(*s),
                AssignOp::ModAssign(s) => BinaryOp::Mod(*s),
                AssignOp::ShlAssign(s) => BinaryOp::Shl(*s),
                AssignOp::ShrAssign(s) => BinaryOp::Shr(*s),
                AssignOp::AndAssign(s) => BinaryOp::BitAnd(*s),
                AssignOp::XorAssign(s) => BinaryOp::BitXor(*s),
                AssignOp::OrAssign(s) => BinaryOp::BitOr(*s),
                AssignOp::Assign(s) => BinaryOp::Add(*s),
            };
            let _result_type = type_binary(lhs, &bop, rhs);
            lhs.duplicate()
        },
    }
}

/// The type of `base[index]`.
pub fn array_access_type(base: &Type, index: &Type) -> (r: Type)
    requires
        spec_array_access_type(base@, index@) is Some,
    ensures
        Some(r@) == spec_array_access_type(base@, index@),
{
    match base {
        Type::Pointer(elem_ty, span) => {
            let mut new_typ = (**elem_ty).duplicate();
            let span = span.merge(&new_typ.unwarp_span());
            new_typ.set_span(span);
            new_typ
        },
        Type::Array { elem_ty, span, .. } => {
            let mut new_typ = (**elem_ty).duplicate();
            let span = span.merge(&new_typ.unwarp_span());
            new_typ.set_span(span);
            new_typ
        },
        _ => {
            proof {
                assert(false);
            }
            base.duplicate()
        },
    }
}

/// The type of a call of an expression of type `func`; `args` are the
/// types of the arguments, which the rule does not look at.
pub fn func_call_type(func: &Type, args: Vec<&Type>) -> (r: Type)
    requires
        spec_func_call_type(func@) is Some,
    ensures
        Some(r@) == spec_func_call_type(func@),
{
    proof {
        reveal_with_fuel(crate::parser::ast::type_view, 2);
    }
    match func {
        Type::Pointer(typ, _) => {
            match &**typ {
                Type::Function { ret_ty, .. } => (**ret_ty).duplicate(),
                _ => {
                    proof {
                        assert(false);
                    }
                    func.duplicate()
                },
            }
        },
        Type::Function { ret_ty, .. } => (**ret_ty).duplicate(),
        _ => {
            proof {
                assert(false);
            }
            func.duplicate()
        },
    }
}

/// The integer promotion of a type.
fn promote_type(typ: Type) -> (r: Type)
    ensures
        r@ == spec_promote_type(typ@),
{
    match typ {
        Type::Integer { signed, size, span } => {
            let (signed, size) = match size {
                IntegerSize::Char => (true, IntegerSize::Int),
                IntegerSize::Short => (true, IntegerSize::Int),
                IntegerSize::Int => (signed, IntegerSize::Int),
                IntegerSize::Long => (signed, IntegerSize::Long),
            };
            Type::Integer { signed, size, span }
        },
        _ => typ,
    }
}

/// The type a dereference of `typ` gives.
fn deref_type(typ: Type) -> (r: Type)
    requires
        spec_deref_type(typ@) is Some,
    ensures
        Some(r@) == spec_deref_type(typ@),
{
    match typ {
        Type::Pointer(inner, _) => *inner,
        Type::Array { elem_ty, .. } => *elem_ty,
        Type::Function { .. } => typ,
        _ => {
            proof {
                assert(false);
            }
            typ
        },
    }
}

/// The usual arithmetic conversions do not depend on the order of the
/// operands: `a op b` and `b op a` have the same type, pointer arithmetic
/// included.
pub proof fn lemma_arithmetic_result_symmetric(lhs: TypeV, op: BinaryOp, rhs: TypeV)
    ensures
        spec_arithmetic_result(lhs, op, rhs) == spec_arithmetic_result(rhs, op, lhs),
{
}

/// The type of a binary operation does not depend on the order of its
/// operands.
pub proof fn lemma_type_binary_symmetric(lhs: TypeV, op: BinaryOp, rhs: TypeV)
    ensures
        spec_type_binary(lhs, op, rhs) == spec_type_binary(rhs, op, lhs),
{
}

/// Comparisons and logical operators on operands not named by a typedef
/// always give a signed int.
pub proof fn lemma_comparison_is_int(lhs: TypeV, op: BinaryOp, rhs: TypeV)
    requires
        is_comparison(op),
        !(lhs is NamedType),
        !(rhs is NamedType),
    ensures
        spec_type_binary(lhs, op, rhs) == Some(signed_int(IntegerSize::Int, binary_span(op))),
{
}

/// The type of a binary operation on operands not named by a typedef:
/// comparisons and logical operators give a signed int; shifts and bitwise
/// operators give a signed int on two integers and are refused otherwise;
/// additive and multiplicative operators follow the arithmetic rule.
pub proof fn lemma_type_binary_cases(lhs: TypeV, op: BinaryOp, rhs: TypeV)
    requires
        !(lhs is NamedType),
        !(rhs is NamedType),
    ensures
        is_comparison(op) ==> spec_type_binary(lhs, op, rhs) == Some(signed_int(IntegerSize::Int, binary_span(op))),
        is_bit_op(op) ==> spec_type_binary(lhs, op, rhs) == (if lhs is Integer && rhs is Integer {
            Some(signed_int(IntegerSize::Int, binary_span(op)))
        } else {
            None
        }),
        is_arith_op(op) ==> spec_type_binary(lhs, op, rhs) == spec_arithmetic_result(lhs, op, rhs),
{
}

/// The type of an assignment, when it is allowed, is the type of its left
/// operand.
pub proof fn lemma_assign_type_is_lhs(lhs: TypeV, op: AssignOp, rhs: TypeV)
    ensures
        spec_assign_type(lhs, op, rhs) is Some ==> spec_assign_type(lhs, op, rhs) == Some(lhs),
{
}

/// Promoting twice is promoting once.
pub proof fn lemma_promote_idempotent(t: TypeV)
    ensures
        spec_promote_type(spec_promote_type(t)) == spec_promote_type(t),
{
}

/// A promoted integer is at least an int.
pub proof fn lemma_promote_at_least_int(t: TypeV)
    requires
        t is Integer,
    ensures
        spec_rank(spec_promote_type(t)) >= 3,
{
}

} // verus!
