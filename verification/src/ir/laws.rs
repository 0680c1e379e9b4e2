//! Properties that hold of every generation.

use vstd::prelude::*;
use crate::ir::{scope_index, BinaryOp, BindingView, Ir, IrNode, TypeInfo};
use crate::ir::semantics::{
    fits, generated, generated_all, ir_node, generated_pairs, lemma_generated_keeps_scope_count,
    lemma_generated_all_keeps_scope_count, lemma_generated_pairs_keeps_scope_count, record, records,
    records_any, records_any_pair, same_entry, type_of, var_binding, Ast, Scopes, VarView,
};

verus! {

/// Generating any tree leaves the number of scopes as it was.
pub proof fn law_generation_keeps_scope_count(a: Ast, s: Scopes)
    ensures
        generated(a, s).1.len() == s.len(),
{
    lemma_generated_keeps_scope_count(a, s);
}

/// Generating a tree changes the entry of `name` in scope `i` only if the
/// tree assigns to `name` in that scope.
pub proof fn law_generation_frame(a: Ast, s: Scopes, i: int, name: Seq<char>)
    requires
        0 <= i < s.len(),
        !records(a, i, name),
    ensures
        same_entry(generated(a, s).1, s, i, name),
    decreases a,
{
    match a {
        Ast::Variable(_) => {},
        Ast::Assignement(v, value) => {
            let b = var_binding(v);
            let s1 = record(s, scope_index(b), b.name, type_of(*value));
            law_generation_frame(*value, s1, i, name);
        },
        Ast::Call(callee, args) => {
            law_generation_frame(*callee, s, i, name);
            lemma_generated_keeps_scope_count(*callee, s);
            lemma_all_frame(args, generated(*callee, s).1, i, name);
        },
        Ast::Return(value) => {
            law_generation_frame(*value, s, i, name);
        },
        Ast::Function(_, _, _) => {},
        Ast::Conditional(condition, if_true, elifs, if_false) => {
            law_generation_frame(*if_true, s, i, name);
            lemma_generated_keeps_scope_count(*if_true, s);
            let s1 = generated(*if_true, s).1;
            let s2 = match if_false {
                Some(e) => {
                    law_generation_frame(*e, s1, i, name);
                    lemma_generated_keeps_scope_count(*e, s1);
                    generated(*e, s1).1
                },
                None => s1,
            };
            lemma_pairs_frame(elifs, s2, i, name);
            lemma_generated_pairs_keeps_scope_count(elifs, s2);
            law_generation_frame(*condition, generated_pairs(elifs, s2).1, i, name);
        },
        Ast::WhileLoop(condition, _) => {
            law_generation_frame(*condition, s, i, name);
        },
        Ast::BinaryOperation(lhs, _, rhs) => {
            law_generation_frame(*lhs, s, i, name);
            lemma_generated_keeps_scope_count(*lhs, s);
            law_generation_frame(*rhs, generated(*lhs, s).1, i, name);
        },
        Ast::GetElement(object, index) => {
            law_generation_frame(*object, s, i, name);
            lemma_generated_keeps_scope_count(*object, s);
            law_generation_frame(*index, generated(*object, s).1, i, name);
        },
        Ast::SetElement(object, index, value) => {
            law_generation_frame(*object, s, i, name);
            lemma_generated_keeps_scope_count(*object, s);
            let s1 = generated(*object, s).1;
            law_generation_frame(*index, s1, i, name);
            lemma_generated_keeps_scope_count(*index, s1);
            law_generation_frame(*value, generated(*index, s1).1, i, name);
        },
    }
}

proof fn lemma_all_frame(xs: Seq<Ast>, s: Scopes, i: int, name: Seq<char>)
    requires
        0 <= i < s.len(),
        !records_any(xs, i, name),
    ensures
        same_entry(generated_all(xs, s).1, s, i, name),
    decreases xs,
{
    if xs.len() != 0 {
        let init = xs.subrange(0, xs.len() - 1);
        lemma_all_frame(init, s, i, name);
        lemma_generated_all_keeps_scope_count(init, s);
        law_generation_frame(xs[xs.len() - 1], generated_all(init, s).1, i, name);
    }
}

proof fn lemma_pairs_frame(xs: Seq<(Ast, Ast)>, s: Scopes, i: int, name: Seq<char>)
    requires
        0 <= i < s.len(),
        !records_any_pair(xs, i, name),
    ensures
        same_entry(generated_pairs(xs, s).1, s, i, name),
    decreases xs,
{
    if xs.len() != 0 {
        let init = xs.subrange(0, xs.len() - 1);
        lemma_pairs_frame(init, s, i, name);
        lemma_generated_pairs_keeps_scope_count(init, s);
        let s1 = generated_pairs(init, s).1;
        law_generation_frame(xs[xs.len() - 1].0, s1, i, name);
        lemma_generated_keeps_scope_count(xs[xs.len() - 1].0, s1);
        law_generation_frame(xs[xs.len() - 1].1, generated(xs[xs.len() - 1].0, s1).1, i, name);
    }
}

/// After an assignment to a variable of the innermost scope, reading the
/// variable yields a node typed as the assigned value, unless the value
/// itself assigns to that variable again.
pub proof fn law_read_after_bind(v: VarView, value: Ast, s: Scopes)
    requires
        fits(Ast::Assignement(v, Box::new(value)), s.len()),
        scope_index(var_binding(v)) == s.len() - 1,
        !records(value, s.len() - 1, v.name),
    ensures
        generated(Ast::Variable(v), generated(Ast::Assignement(v, Box::new(value)), s).1).0.type_info
            == type_of(value),
{
    let b = var_binding(v);
    let i: int = s.len() - 1;
    let s1 = record(s, i, b.name, type_of(value));
    assert(s1[i].contains_key(v.name) && s1[i][v.name] == type_of(value));
    law_generation_frame(value, s1, i, v.name);
    lemma_generated_keeps_scope_count(value, s1);
}

/// A variable that no assignment has typed in the innermost scope reads as `nil`.
pub proof fn law_read_unbound(v: VarView, s: Scopes)
    requires
        !s.last().contains_key(v.name),
    ensures
        generated(Ast::Variable(v), s).0.type_info == (TypeInfo { kind: crate::ir::Type::Nil }),
        generated(Ast::Variable(v), s).1 == s,
{
}

/// A function definition generates the same node in every builder and
/// leaves the builder's scopes as they were: its body is generated apart.
pub proof fn law_function_is_self_contained(
    v: VarView,
    params: Seq<Seq<char>>,
    body: Ast,
    s1: Scopes,
    s2: Scopes,
)
    ensures
        generated(Ast::Function(v, params, Box::new(body)), s1).0 == generated(
            Ast::Function(v, params, Box::new(body)),
            s2,
        ).0,
        generated(Ast::Function(v, params, Box::new(body)), s1).1 == s1,
{
}

/// Opening a scope and closing it again leaves the scopes as they were.
pub proof fn law_scope_in_then_out(s: Scopes)
    ensures
        s.push(Map::<Seq<char>, TypeInfo>::empty()).drop_last() == s,
{
    assert(s.push(Map::<Seq<char>, TypeInfo>::empty()).drop_last() =~= s);
}

/// A conditional reports the type of its `if` body when it has no `else`
/// body or when both bodies report the same type, and `any` otherwise.
pub proof fn law_conditional_type(
    condition: Ast,
    if_true: Ast,
    elifs: Seq<(Ast, Ast)>,
    if_false: Option<Box<Ast>>,
)
    ensures
        type_of(Ast::Conditional(Box::new(condition), Box::new(if_true), elifs, if_false)) == (
        match if_false {
            Some(e) => if type_of(*e) == type_of(if_true) {
                type_of(if_true)
            } else {
                TypeInfo { kind: crate::ir::Type::Any }
            },
            None => type_of(if_true),
        }),
{
}


/// After an assignment to a variable of the innermost scope, reading the
/// variable yields a node typed as the assigned value, whenever generating
/// the value leaves the scopes as the assignment left them.
pub proof fn law_read_after_bind_when_value_keeps_scopes(v: VarView, value: Ast, s: Scopes)
    requires
        fits(Ast::Assignement(v, Box::new(value)), s.len()),
        scope_index(var_binding(v)) == s.len() - 1,
        generated(value, record(s, s.len() - 1, v.name, type_of(value))).1 == record(
            s,
            s.len() - 1,
            v.name,
            type_of(value),
        ),
    ensures
        generated(Ast::Variable(v), generated(Ast::Assignement(v, Box::new(value)), s).1).0
            == generated(Ast::Variable(v), record(s, s.len() - 1, v.name, type_of(value))).0,
        generated(Ast::Variable(v), generated(Ast::Assignement(v, Box::new(value)), s).1).0.type_info
            == type_of(value),
{
    let i: int = s.len() - 1;
    let s1 = record(s, i, v.name, type_of(value));
    assert(s1[i].contains_key(v.name) && s1[i][v.name] == type_of(value));
}

/// An arm appended to the `else if` arms is generated after all the arms
/// before it, which generate as they did without it: arms keep the order in
/// which they were added.
pub proof fn law_elif_appended_last(xs: Seq<(Ast, Ast)>, arm: (Ast, Ast), s: Scopes)
    ensures
        generated_pairs(xs.push(arm), s) == ({
            let (init_ir, s1) = generated_pairs(xs, s);
            let (c_ir, s2) = generated(arm.0, s1);
            let (b_ir, s3) = generated(arm.1, s2);
            (init_ir.push((c_ir, b_ir)), s3)
        }),
{
    assert(xs.push(arm).subrange(0, xs.len() as int) =~= xs);
}

/// A binary operation generates its left operand, then its right one, and
/// joins them with its operator into a node typed as the left operand.
pub proof fn law_binary_operation_generates_operands_in_order(
    lhs: Ast,
    op: BinaryOp,
    rhs: Ast,
    s: Scopes,
)
    ensures
        generated(Ast::BinaryOperation(Box::new(lhs), op, Box::new(rhs)), s) == ({
            let (lhs_ir, s1) = generated(lhs, s);
            let (rhs_ir, s2) = generated(rhs, s1);
            (ir_node(Ir::Binary(Box::new(lhs_ir), op, Box::new(rhs_ir)), lhs_ir.type_info), s2)
        }),
{
}


/// Generating a sequence of trees yields one node per tree, in order: the
/// `i`-th node is what the `i`-th tree generates after the trees before it.
pub proof fn law_sequence_generates_each_in_order(xs: Seq<Ast>, s: Scopes)
    ensures
        generated_all(xs, s).0.len() == xs.len(),
        forall|i: int|
            0 <= i < xs.len() ==> #[trigger] generated_all(xs, s).0[i] == generated(
                xs[i],
                generated_all(xs.take(i), s).1,
            ).0,
    decreases xs.len(),
{
    if xs.len() != 0 {
        let n: int = xs.len() - 1;
        let init = xs.subrange(0, n);
        law_sequence_generates_each_in_order(init, s);
        assert forall|i: int| 0 <= i < xs.len() implies #[trigger] generated_all(xs, s).0[i]
            == generated(xs[i], generated_all(xs.take(i), s).1).0 by {
            if i < n {
                assert(init[i] == xs[i]);
                assert(init.take(i) =~= xs.take(i));
            } else {
                assert(xs.take(i) =~= init);
            }
        }
    }
}

/// A call's node holds exactly one node per argument, in order: its
/// argument list is as long as the arguments, and its `i`-th entry is what
/// the `i`-th argument generates after the callee and the arguments before
/// it; the node is typed as the callee reports.
pub proof fn law_call_generates_every_argument(callee: Ast, args: Seq<Ast>, s: Scopes)
    ensures
        generated(Ast::Call(Box::new(callee), args), s).0.expr is Call,
        generated(Ast::Call(Box::new(callee), args), s).0.expr->Call_0 == Box::new(
            generated(callee, s).0,
        ),
        generated(Ast::Call(Box::new(callee), args), s).0.expr->Call_1.len() == args.len(),
        forall|i: int|
            0 <= i < args.len() ==> #[trigger] generated(
                Ast::Call(Box::new(callee), args),
                s,
            ).0.expr->Call_1[i] == generated(
                args[i],
                generated_all(args.take(i), generated(callee, s).1).1,
            ).0,
        generated(Ast::Call(Box::new(callee), args), s).0.type_info == type_of(callee),
{
    law_sequence_generates_each_in_order(args, generated(callee, s).1);
}

/// An assignment to a local at scope depth `d` and function depth `fd`
/// records the type of its value for its name in scope `d + fd`, then
/// generates the value; its node binds the local and is typed `nil`.
pub proof fn law_local_assignment_records_in_scope_depth_plus_function_depth(
    name: Seq<char>,
    d: usize,
    fd: usize,
    value: Ast,
    s: Scopes,
)
    requires
        d + fd < s.len(),
    ensures
        generated(Ast::Assignement(VarView { name, depth: Some((d, fd)) }, Box::new(value)), s)
            == ({
            let i: int = d + fd;
            let (value_ir, s2) = generated(
                value,
                s.update(i, s[i].insert(name, type_of(value))),
            );
            (
                IrNode {
                    expr: Ir::Bind(
                        BindingView { name, depth: Some(d), function_depth: fd },
                        Box::new(value_ir),
                    ),
                    type_info: TypeInfo { kind: crate::ir::Type::Nil },
                },
                s2,
            )
        }),
{
}

/// An assignment to a global records the type of its value for its name in
/// the global scope (index 0), then generates the value.
pub proof fn law_global_assignment_records_in_global_scope(name: Seq<char>, value: Ast, s: Scopes)
    requires
        s.len() >= 1,
    ensures
        generated(Ast::Assignement(VarView { name, depth: None }, Box::new(value)), s) == ({
            let (value_ir, s2) = generated(value, s.update(0, s[0].insert(name, type_of(value))));
            (
                IrNode {
                    expr: Ir::Bind(
                        BindingView { name, depth: None, function_depth: 0 },
                        Box::new(value_ir),
                    ),
                    type_info: TypeInfo { kind: crate::ir::Type::Nil },
                },
                s2,
            )
        }),
{
}

/// A function bound to a local at scope depth `d` and function depth `fd`
/// binds each of its parameters, in order, as a local at scope depth `d + 1`
/// and function depth `fd + 1`; its body is the single node its body
/// generates in a builder of its own; it is typed `any` and changes no scope.
pub proof fn law_local_function_parameters_one_level_deeper(
    name: Seq<char>,
    d: usize,
    fd: usize,
    params: Seq<Seq<char>>,
    body: Ast,
    s: Scopes,
)
    requires
        d < usize::MAX,
        fd < usize::MAX,
    ensures
        ({
            let g = generated(
                Ast::Function(VarView { name, depth: Some((d, fd)) }, params, Box::new(body)),
                s,
            );
            &&& g.1 == s
            &&& g.0.type_info == TypeInfo { kind: crate::ir::Type::Any }
            &&& g.0.expr is Function
            &&& g.0.expr->Function_0 == BindingView { name, depth: Some(d), function_depth: fd }
            &&& g.0.expr->Function_1.len() == params.len()
            &&& forall|i: int|
                0 <= i < params.len() ==> #[trigger] g.0.expr->Function_1[i] == BindingView {
                    name: params[i],
                    depth: Some((d + 1) as usize),
                    function_depth: (fd + 1) as usize,
                }
            &&& !g.0.expr->Function_2
            &&& g.0.expr->Function_3 == seq![
                generated(body, seq![Map::<Seq<char>, TypeInfo>::empty()]).0,
            ]
        }),
{
}

/// A function bound to a global binds each of its parameters, in order, as
/// a local at scope depth 1 and function depth 1.
pub proof fn law_global_function_parameters_at_first_level(
    name: Seq<char>,
    params: Seq<Seq<char>>,
    body: Ast,
    s: Scopes,
)
    ensures
        ({
            let g = generated(
                Ast::Function(VarView { name, depth: None }, params, Box::new(body)),
                s,
            );
            &&& g.1 == s
            &&& g.0.expr is Function
            &&& g.0.expr->Function_0 == BindingView { name, depth: None, function_depth: 0 }
            &&& g.0.expr->Function_1.len() == params.len()
            &&& forall|i: int|
                0 <= i < params.len() ==> #[trigger] g.0.expr->Function_1[i] == BindingView {
                    name: params[i],
                    depth: Some(1),
                    function_depth: 1,
                }
            &&& g.0.expr->Function_3 == seq![
                generated(body, seq![Map::<Seq<char>, TypeInfo>::empty()]).0,
            ]
        }),
{
}

/// A conditional keeps its `else` body: whatever its `else if` arms, its
/// node's `else` slot is the node its `else` body generates right after its
/// `if` body, and is empty when it has no `else` body. Its `if` slot is what
/// its `if` body generates first, and it has one arm node pair per arm.
pub proof fn law_conditional_keeps_its_branches(
    condition: Ast,
    if_true: Ast,
    elifs: Seq<(Ast, Ast)>,
    if_false: Option<Box<Ast>>,
    s: Scopes,
)
    ensures
        ({
            let g = generated(
                Ast::Conditional(Box::new(condition), Box::new(if_true), elifs, if_false),
                s,
            );
            let (true_ir, s1) = generated(if_true, s);
            &&& g.0.expr is If
            &&& g.0.expr->If_1 == Box::new(true_ir)
            &&& g.0.expr->If_3 == (match if_false {
                Some(e) => Some(Box::new(generated(*e, s1).0)),
                None => None,
            })
            &&& g.0.expr->If_2.len() == elifs.len()
            &&& g.0.type_info == TypeInfo { kind: crate::ir::Type::Nil }
        }),
{
    let (true_ir, s1) = generated(if_true, s);
    let s2 = match if_false {
        Some(e) => generated(*e, s1).1,
        None => s1,
    };
    law_pairs_generate_one_pair_per_arm(elifs, s2);
}

/// Generating `else if` arms yields one node pair per arm.
pub proof fn law_pairs_generate_one_pair_per_arm(xs: Seq<(Ast, Ast)>, s: Scopes)
    ensures
        generated_pairs(xs, s).0.len() == xs.len(),
    decreases xs.len(),
{
    if xs.len() != 0 {
        law_pairs_generate_one_pair_per_arm(xs.subrange(0, xs.len() - 1), s);
    }
}

/// A loop generates its condition in the builder it runs in: the loop
/// node's condition is what generating the condition alone there yields,
/// and the scopes afterwards are those that generation leaves. Its body is
/// a block of one node per statement, generated in order in a builder of
/// its own; the loop is typed `nil`.
pub proof fn law_loop_condition_in_enclosing_builder(condition: Ast, body: Seq<Ast>, s: Scopes)
    ensures
        ({
            let g = generated(Ast::WhileLoop(Box::new(condition), body), s);
            let fresh = seq![Map::<Seq<char>, TypeInfo>::empty()];
            &&& g.1 == generated(condition, s).1
            &&& g.0.expr is While
            &&& g.0.expr->While_0 == Box::new(generated(condition, s).0)
            &&& g.0.expr->While_1.expr is Block
            &&& g.0.expr->While_1.expr->Block_0.len() == body.len()
            &&& forall|i: int|
                0 <= i < body.len() ==> #[trigger] g.0.expr->While_1.expr->Block_0[i] == generated(
                    body[i],
                    generated_all(body.take(i), fresh).1,
                ).0
            &&& g.0.type_info == TypeInfo { kind: crate::ir::Type::Nil }
        }),
{
    let fresh = seq![Map::<Seq<char>, TypeInfo>::empty()];
    law_sequence_generates_each_in_order(body, fresh);
}

} // verus!
