//! What the v2 builders mean: a syntax tree for every value that can be
//! generated, and the IR node and type scopes that generating it yields.

use vstd::prelude::*;
use crate::ir::{
    any_type, nil_type, lookup_type, scope_index, BinaryOp, BindingView, Ir, IrNode, TypeInfo,
};

verus! {

/// The stack of type scopes of a builder: the global scope first.
pub type Scopes = Seq<Map<Seq<char>, TypeInfo>>;

/// A variable: its name, and for a local the scope depth and function depth.
pub struct VarView {
    pub name: Seq<char>,
    pub depth: Option<(usize, usize)>,
}

/// The syntax tree that a generatable value stands for.
pub enum Ast {
    Variable(VarView),
    Assignement(VarView, Box<Ast>),
    Call(Box<Ast>, Seq<Ast>),
    Return(Box<Ast>),
    Function(VarView, Seq<Seq<char>>, Box<Ast>),
    Conditional(Box<Ast>, Box<Ast>, Seq<(Ast, Ast)>, Option<Box<Ast>>),
    WhileLoop(Box<Ast>, Seq<Ast>),
    BinaryOperation(Box<Ast>, BinaryOp, Box<Ast>),
    GetElement(Box<Ast>, Box<Ast>),
    SetElement(Box<Ast>, Box<Ast>, Box<Ast>),
}

/// The binding a variable refers to: a global, or a local at its depths.
pub open spec fn var_binding(v: VarView) -> BindingView {
    match v.depth {
        Some((d, fd)) => BindingView { name: v.name, depth: Some(d), function_depth: fd },
        None => BindingView { name: v.name, depth: None, function_depth: 0 },
    }
}

/// The bindings of the parameters of a function bound to `v`: locals one
/// scope and one function deeper than `v`.
pub open spec fn param_bindings(v: VarView, params: Seq<Seq<char>>) -> Seq<BindingView> {
    let b = var_binding(v);
    let depth: int = match b.depth {
        Some(d) => d + 1,
        None => 1,
    };
    let function_depth: int = b.function_depth + 1;
    Seq::new(
        params.len(),
        |i: int|
            BindingView {
                name: params[i],
                depth: Some(depth as usize),
                function_depth: function_depth as usize,
            },
    )
}

/// The scopes after recording type `t` for `name` in the scope at index `i`.
pub open spec fn record(s: Scopes, i: int, name: Seq<char>, t: TypeInfo) -> Scopes {
    if 0 <= i < s.len() {
        s.update(i, s[i].insert(name, t))
    } else {
        s
    }
}

/// The scopes of a builder that was just created.
pub open spec fn fresh_scopes() -> Scopes {
    seq![Map::<Seq<char>, TypeInfo>::empty()]
}

pub open spec fn ir_node(expr: Ir, type_info: TypeInfo) -> IrNode {
    IrNode { expr, type_info }
}

/// The type information that a tree reports without generating anything.
pub open spec fn type_of(a: Ast) -> TypeInfo
    decreases a,
{
    match a {
        Ast::Variable(_) => any_type(),
        Ast::Assignement(_, _) => nil_type(),
        Ast::Call(callee, _) => type_of(*callee),
        Ast::Return(value) => type_of(*value),
        Ast::Function(_, _, _) => nil_type(),
        Ast::Conditional(_, if_true, _, if_false) => {
            let if_true_ty = type_of(*if_true);
            let if_false_ty = match if_false {
                Some(e) => type_of(*e),
                None => if_true_ty,
            };
            if if_true_ty == if_false_ty {
                if_false_ty
            } else {
                any_type()
            }
        },
        Ast::WhileLoop(_, _) => nil_type(),
        Ast::BinaryOperation(lhs, _, _) => type_of(*lhs),
        Ast::GetElement(_, _) => any_type(),
        Ast::SetElement(_, _, _) => nil_type(),
    }
}

/// Whether generating `a` in a builder with `n` scopes stays in bounds:
/// every assignment records into an existing scope, and the depths of
/// function parameters do not overflow.
pub open spec fn fits(a: Ast, n: nat) -> bool
    decreases a,
{
    match a {
        Ast::Variable(_) => true,
        Ast::Assignement(v, value) => scope_index(var_binding(v)) < n && fits(*value, n),
        Ast::Call(callee, args) => fits(*callee, n) && fits_all(args, n),
        Ast::Return(value) => fits(*value, n),
        Ast::Function(v, _, body) => {
            let b = var_binding(v);
            &&& (match b.depth {
                Some(d) => d < usize::MAX,
                None => true,
            })
            &&& b.function_depth < usize::MAX
            &&& fits(*body, 1)
        },
        Ast::Conditional(condition, if_true, elifs, if_false) => {
            &&& fits(*condition, n)
            &&& fits(*if_true, n)
            &&& fits_pairs(elifs, n)
            &&& (match if_false {
                Some(e) => fits(*e, n),
                None => true,
            })
        },
        Ast::WhileLoop(condition, body) => fits(*condition, n) && fits_all(body, 1),
        Ast::BinaryOperation(lhs, _, rhs) => fits(*lhs, n) && fits(*rhs, n),
        Ast::GetElement(object, index) => fits(*object, n) && fits(*index, n),
        Ast::SetElement(object, index, value) => fits(*object, n) && fits(*index, n) && fits(
            *value,
            n,
        ),
    }
}

pub open spec fn fits_all(xs: Seq<Ast>, n: nat) -> bool
    decreases xs,
{
    if xs.len() == 0 {
        true
    } else {
        fits_all(xs.subrange(0, xs.len() - 1), n) && fits(xs[xs.len() - 1], n)
    }
}

pub open spec fn fits_pairs(xs: Seq<(Ast, Ast)>, n: nat) -> bool
    decreases xs,
{
    if xs.len() == 0 {
        true
    } else {
        fits_pairs(xs.subrange(0, xs.len() - 1), n) && fits(xs[xs.len() - 1].0, n) && fits(
            xs[xs.len() - 1].1,
            n,
        )
    }
}

/// The IR node that generating `a` in scopes `s` yields, and the scopes after.
pub open spec fn generated(a: Ast, s: Scopes) -> (IrNode, Scopes)
    decreases a,
{
    match a {
        Ast::Variable(v) => (ir_node(Ir::Var(var_binding(v)), lookup_type(s, v.name)), s),
        Ast::Assignement(v, value) => {
            let b = var_binding(v);
            let i: int = scope_index(b);
            let (value_ir, s2) = generated(*value, record(s, i, b.name, type_of(*value)));
            (ir_node(Ir::Bind(b, Box::new(value_ir)), nil_type()), s2)
        },
        Ast::Call(callee, args) => {
            let (callee_ir, s1) = generated(*callee, s);
            let (args_ir, s2) = generated_all(args, s1);
            (ir_node(Ir::Call(Box::new(callee_ir), args_ir), type_of(*callee)), s2)
        },
        Ast::Return(value) => {
            let (value_ir, s1) = generated(*value, s);
            (ir_node(Ir::Return(Some(Box::new(value_ir))), type_of(*value)), s1)
        },
        Ast::Function(v, params, body) => {
            let (body_ir, _) = generated(*body, fresh_scopes());
            (
                ir_node(
                    Ir::Function(var_binding(v), param_bindings(v, params), false, seq![body_ir]),
                    any_type(),
                ),
                s,
            )
        },
        Ast::Conditional(condition, if_true, elifs, if_false) => {
            let (true_ir, s1) = generated(*if_true, s);
            let (false_ir, s2) = match if_false {
                Some(e) => {
                    let (e_ir, s2) = generated(*e, s1);
                    (Some(Box::new(e_ir)), s2)
                },
                None => (None, s1),
            };
            let (elifs_ir, s3) = generated_pairs(elifs, s2);
            let (condition_ir, s4) = generated(*condition, s3);
            (
                ir_node(
                    Ir::If(Box::new(condition_ir), Box::new(true_ir), elifs_ir, false_ir),
                    nil_type(),
                ),
                s4,
            )
        },
        Ast::WhileLoop(condition, body) => {
            let (body_ir, _) = generated_all(body, fresh_scopes());
            let block = ir_node(Ir::Block(body_ir), nil_type());
            let (condition_ir, s1) = generated(*condition, s);
            (ir_node(Ir::While(Box::new(condition_ir), Box::new(block)), nil_type()), s1)
        },
        Ast::BinaryOperation(lhs, op, rhs) => {
            let (lhs_ir, s1) = generated(*lhs, s);
            let (rhs_ir, s2) = generated(*rhs, s1);
            (
                ir_node(
                    Ir::Binary(Box::new(lhs_ir), op, Box::new(rhs_ir)),
                    lhs_ir.type_info,
                ),
                s2,
            )
        },
        Ast::GetElement(object, index) => {
            let (object_ir, s1) = generated(*object, s);
            let (index_ir, s2) = generated(*index, s1);
            (ir_node(Ir::GetElement(Box::new(object_ir), Box::new(index_ir)), any_type()), s2)
        },
        Ast::SetElement(object, index, value) => {
            let (object_ir, s1) = generated(*object, s);
            let (index_ir, s2) = generated(*index, s1);
            let (value_ir, s3) = generated(*value, s2);
            (
                ir_node(
                    Ir::SetElement(Box::new(object_ir), Box::new(index_ir), Box::new(value_ir)),
                    any_type(),
                ),
                s3,
            )
        },
    }
}

/// Generating a sequence of trees one after the other, from the first.
pub open spec fn generated_all(xs: Seq<Ast>, s: Scopes) -> (Seq<IrNode>, Scopes)
    decreases xs,
{
    if xs.len() == 0 {
        (Seq::empty(), s)
    } else {
        let (init_ir, s1) = generated_all(xs.subrange(0, xs.len() - 1), s);
        let (last_ir, s2) = generated(xs[xs.len() - 1], s1);
        (init_ir.push(last_ir), s2)
    }
}

/// Generating a sequence of (condition, body) pairs, condition first.
pub open spec fn generated_pairs(xs: Seq<(Ast, Ast)>, s: Scopes) -> (Seq<(IrNode, IrNode)>, Scopes)
    decreases xs,
{
    if xs.len() == 0 {
        (Seq::empty(), s)
    } else {
        let (init_ir, s1) = generated_pairs(xs.subrange(0, xs.len() - 1), s);
        let (c_ir, s2) = generated(xs[xs.len() - 1].0, s1);
        let (b_ir, s3) = generated(xs[xs.len() - 1].1, s2);
        (init_ir.push((c_ir, b_ir)), s3)
    }
}


/// Generating never opens or closes a scope of the builder it runs in.
pub proof fn lemma_generated_keeps_scope_count(a: Ast, s: Scopes)
    ensures
        generated(a, s).1.len() == s.len(),
    decreases a,
{
    match a {
        Ast::Variable(_) => {},
        Ast::Assignement(v, value) => {
            let b = var_binding(v);
            let i: int = scope_index(b);
            lemma_generated_keeps_scope_count(*value, record(s, i, b.name, type_of(*value)));
        },
        Ast::Call(callee, args) => {
            lemma_generated_keeps_scope_count(*callee, s);
            lemma_generated_all_keeps_scope_count(args, generated(*callee, s).1);
        },
        Ast::Return(value) => {
            lemma_generated_keeps_scope_count(*value, s);
        },
        Ast::Function(_, _, _) => {},
        Ast::Conditional(condition, if_true, elifs, if_false) => {
            lemma_generated_keeps_scope_count(*if_true, s);
            let s1 = generated(*if_true, s).1;
            let s2 = match if_false {
                Some(e) => {
                    lemma_generated_keeps_scope_count(*e, s1);
                    generated(*e, s1).1
                },
                None => s1,
            };
            lemma_generated_pairs_keeps_scope_count(elifs, s2);
            lemma_generated_keeps_scope_count(*condition, generated_pairs(elifs, s2).1);
        },
        Ast::WhileLoop(condition, _) => {
            lemma_generated_keeps_scope_count(*condition, s);
        },
        Ast::BinaryOperation(lhs, _, rhs) => {
            lemma_generated_keeps_scope_count(*lhs, s);
            lemma_generated_keeps_scope_count(*rhs, generated(*lhs, s).1);
        },
        Ast::GetElement(object, index) => {
            lemma_generated_keeps_scope_count(*object, s);
            lemma_generated_keeps_scope_count(*index, generated(*object, s).1);
        },
        Ast::SetElement(object, index, value) => {
            lemma_generated_keeps_scope_count(*object, s);
            let s1 = generated(*object, s).1;
            lemma_generated_keeps_scope_count(*index, s1);
            lemma_generated_keeps_scope_count(*value, generated(*index, s1).1);
        },
    }
}

pub proof fn lemma_generated_all_keeps_scope_count(xs: Seq<Ast>, s: Scopes)
    ensures
        generated_all(xs, s).1.len() == s.len(),
    decreases xs,
{
    if xs.len() != 0 {
        let init = xs.subrange(0, xs.len() - 1);
        lemma_generated_all_keeps_scope_count(init, s);
        lemma_generated_keeps_scope_count(xs[xs.len() - 1], generated_all(init, s).1);
    }
}

pub proof fn lemma_generated_pairs_keeps_scope_count(xs: Seq<(Ast, Ast)>, s: Scopes)
    ensures
        generated_pairs(xs, s).1.len() == s.len(),
    decreases xs,
{
    if xs.len() != 0 {
        let init = xs.subrange(0, xs.len() - 1);
        lemma_generated_pairs_keeps_scope_count(init, s);
        let s1 = generated_pairs(init, s).1;
        lemma_generated_keeps_scope_count(xs[xs.len() - 1].0, s1);
        lemma_generated_keeps_scope_count(xs[xs.len() - 1].1, generated(xs[xs.len() - 1].0, s1).1);
    }
}


/// Every tree of a sequence that fits, fits.
pub proof fn lemma_fits_all_elements(xs: Seq<Ast>, n: nat)
    requires
        fits_all(xs, n),
    ensures
        forall|i: int| 0 <= i < xs.len() ==> fits(#[trigger] xs[i], n),
    decreases xs,
{
    if xs.len() != 0 {
        let init = xs.subrange(0, xs.len() - 1);
        lemma_fits_all_elements(init, n);
        assert forall|i: int| 0 <= i < xs.len() implies fits(#[trigger] xs[i], n) by {
            if i < xs.len() - 1 {
                assert(init[i] == xs[i]);
            }
        }
    }
}

/// Every pair of a sequence that fits, fits.
pub proof fn lemma_fits_pairs_elements(xs: Seq<(Ast, Ast)>, n: nat)
    requires
        fits_pairs(xs, n),
    ensures
        forall|i: int| #![trigger xs[i]] 0 <= i < xs.len() ==> fits(xs[i].0, n) && fits(xs[i].1, n),
    decreases xs,
{
    if xs.len() != 0 {
        let init = xs.subrange(0, xs.len() - 1);
        lemma_fits_pairs_elements(init, n);
        assert forall|i: int| #![trigger xs[i]] 0 <= i < xs.len() implies fits(xs[i].0, n) && fits(
            xs[i].1,
            n,
        ) by {
            if i < xs.len() - 1 {
                assert(init[i] == xs[i]);
            }
        }
    }
}

/// Generating the first `i + 1` trees is generating the first `i`, then the next.
pub proof fn lemma_generated_all_step(xs: Seq<Ast>, i: int, s: Scopes)
    requires
        0 <= i < xs.len(),
    ensures
        generated_all(xs.take(i + 1), s) == ({
            let (init_ir, s1) = generated_all(xs.take(i), s);
            let (last_ir, s2) = generated(xs[i], s1);
            (init_ir.push(last_ir), s2)
        }),
{
    assert(xs.take(i + 1).subrange(0, i) =~= xs.take(i));
}

/// Generating the first `i + 1` pairs is generating the first `i`, then the next.
pub proof fn lemma_generated_pairs_step(xs: Seq<(Ast, Ast)>, i: int, s: Scopes)
    requires
        0 <= i < xs.len(),
    ensures
        generated_pairs(xs.take(i + 1), s) == ({
            let (init_ir, s1) = generated_pairs(xs.take(i), s);
            let (c_ir, s2) = generated(xs[i].0, s1);
            let (b_ir, s3) = generated(xs[i].1, s2);
            (init_ir.push((c_ir, b_ir)), s3)
        }),
{
    assert(xs.take(i + 1).subrange(0, i) =~= xs.take(i));
}


/// Whether generating `a` in a builder records a type for `name` in the
/// scope at index `i`.
pub open spec fn records(a: Ast, i: int, name: Seq<char>) -> bool
    decreases a,
{
    match a {
        Ast::Variable(_) => false,
        Ast::Assignement(v, value) => {
            let b = var_binding(v);
            (scope_index(b) == i && b.name == name) || records(*value, i, name)
        },
        Ast::Call(callee, args) => records(*callee, i, name) || records_any(args, i, name),
        Ast::Return(value) => records(*value, i, name),
        Ast::Function(_, _, _) => false,
        Ast::Conditional(condition, if_true, elifs, if_false) => {
            ||| records(*condition, i, name)
            ||| records(*if_true, i, name)
            ||| records_any_pair(elifs, i, name)
            ||| (match if_false {
                Some(e) => records(*e, i, name),
                None => false,
            })
        },
        Ast::WhileLoop(condition, _) => records(*condition, i, name),
        Ast::BinaryOperation(lhs, _, rhs) => records(*lhs, i, name) || records(*rhs, i, name),
        Ast::GetElement(object, index) => records(*object, i, name) || records(*index, i, name),
        Ast::SetElement(object, index, value) => records(*object, i, name) || records(
            *index,
            i,
            name,
        ) || records(*value, i, name),
    }
}

pub open spec fn records_any(xs: Seq<Ast>, i: int, name: Seq<char>) -> bool
    decreases xs,
{
    if xs.len() == 0 {
        false
    } else {
        records_any(xs.subrange(0, xs.len() - 1), i, name) || records(xs[xs.len() - 1], i, name)
    }
}

pub open spec fn records_any_pair(xs: Seq<(Ast, Ast)>, i: int, name: Seq<char>) -> bool
    decreases xs,
{
    if xs.len() == 0 {
        false
    } else {
        ||| records_any_pair(xs.subrange(0, xs.len() - 1), i, name)
        ||| records(xs[xs.len() - 1].0, i, name)
        ||| records(xs[xs.len() - 1].1, i, name)
    }
}

/// Whether `name` has the same entry in the scope at index `i` of both.
pub open spec fn same_entry(s1: Scopes, s2: Scopes, i: int, name: Seq<char>) -> bool {
    &&& s1[i].contains_key(name) == s2[i].contains_key(name)
    &&& s1[i].contains_key(name) ==> s1[i][name] == s2[i][name]
}

} // verus!
