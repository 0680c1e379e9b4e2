//! The v2 builders: values that stand for pieces of a program and generate
//! IR nodes into an `IrBuilder` only when asked to.

use vstd::prelude::*;
use crate::ir::{
    any_type, pair_views, views, BinaryOp, Binding, Expr, ExprNode, Ir, IrBuilder,
    IrFunction, TypeInfo,
};
use crate::ir::text::{ast_text, joined_texts, quoted_names, operand_warning_text};
use crate::ir::Type;
use crate::ir::semantics::{
    fits, fits_all, fits_pairs, generated, generated_all, generated_pairs, ir_node,
    lemma_generated_keeps_scope_count, lemma_generated_all_keeps_scope_count,
    lemma_generated_pairs_keeps_scope_count, lemma_fits_all_elements, lemma_fits_pairs_elements,
    lemma_generated_all_step, lemma_generated_pairs_step, param_bindings, type_of, var_binding, Ast, VarView,
};

mod operators;

verus! {

/// Any generatable value with its type forgotten, so that values of
/// different types can stand side by side (call arguments, `else if` arms).
pub enum Node {
    Variable(String, Option<(usize, usize)>),
    Assignement(String, Option<(usize, usize)>, Box<Node>),
    Call(Box<Node>, Vec<Node>),
    Return(Box<Node>),
    Function(String, Option<(usize, usize)>, Vec<String>, Box<Node>),
    Conditional(Box<Node>, Box<Node>, Vec<(Node, Node)>, Option<Box<Node>>),
    WhileLoop(Box<Node>, Vec<Node>),
    BinaryOperation(Box<Node>, BinaryOp, Box<Node>),
    GetElement(Box<Node>, Box<Node>),
    SetElement(Box<Node>, Box<Node>, Box<Node>),
}

pub open spec fn names_view(names: Seq<String>) -> Seq<Seq<char>> {
    Seq::new(names.len(), |i: int| names[i]@)
}

pub open spec fn node_ast(n: Node) -> Ast
    decreases n,
{
    match n {
        Node::Variable(name, depth) => Ast::Variable(VarView { name: name@, depth }),
        Node::Assignement(name, depth, value) => Ast::Assignement(
            VarView { name: name@, depth },
            Box::new(node_ast(*value)),
        ),
        Node::Call(callee, args) => Ast::Call(
            Box::new(node_ast(*callee)),
            Seq::new(
                args@.len(),
                |i: int|
                    if 0 <= i < args@.len() {
                        node_ast(args@[i])
                    } else {
                        arbitrary()
                    },
            ),
        ),
        Node::Return(value) => Ast::Return(Box::new(node_ast(*value))),
        Node::Function(name, depth, params, body) => Ast::Function(
            VarView { name: name@, depth },
            names_view(params@),
            Box::new(node_ast(*body)),
        ),
        Node::Conditional(condition, if_true, elifs, if_false) => Ast::Conditional(
            Box::new(node_ast(*condition)),
            Box::new(node_ast(*if_true)),
            Seq::new(
                elifs@.len(),
                |i: int|
                    if 0 <= i < elifs@.len() {
                        (node_ast(elifs@[i].0), node_ast(elifs@[i].1))
                    } else {
                        arbitrary()
                    },
            ),
            match if_false {
                Some(e) => Some(Box::new(node_ast(*e))),
                None => None,
            },
        ),
        Node::WhileLoop(condition, body) => Ast::WhileLoop(
            Box::new(node_ast(*condition)),
            Seq::new(
                body@.len(),
                |i: int|
                    if 0 <= i < body@.len() {
                        node_ast(body@[i])
                    } else {
                        arbitrary()
                    },
            ),
        ),
        Node::BinaryOperation(lhs, op, rhs) => Ast::BinaryOperation(
            Box::new(node_ast(*lhs)),
            op,
            Box::new(node_ast(*rhs)),
        ),
        Node::GetElement(object, index) => Ast::GetElement(
            Box::new(node_ast(*object)),
            Box::new(node_ast(*index)),
        ),
        Node::SetElement(object, index, value) => Ast::SetElement(
            Box::new(node_ast(*object)),
            Box::new(node_ast(*index)),
            Box::new(node_ast(*value)),
        ),
    }
}

impl View for Node {
    type V = Ast;

    open spec fn view(&self) -> Ast {
        node_ast(*self)
    }
}

pub open spec fn node_asts(ns: Seq<Node>) -> Seq<Ast> {
    Seq::new(ns.len(), |i: int| ns[i]@)
}

pub open spec fn node_pair_asts(ns: Seq<(Node, Node)>) -> Seq<(Ast, Ast)> {
    Seq::new(ns.len(), |i: int| (ns[i].0@, ns[i].1@))
}

/// The binding of a variable named `name` at `depth`.
fn var_binding_exec(name: &str, depth: Option<(usize, usize)>) -> (b: Binding)
    ensures
        b@ == var_binding(VarView { name: name@, depth }),
{
    match depth {
        None => Binding::global(name),
        Some((d, fd)) => Binding::local(name, d, fd),
    }
}

/// The node of a variable read: typed by what the innermost scope records.
fn variable_node(name: &str, depth: Option<(usize, usize)>, context: &IrBuilder) -> (n: ExprNode)
    ensures
        n@ == generated(Ast::Variable(VarView { name: name@, depth }), context@.scopes).0,
{
    let type_info = context.lookup(name);
    let n = Expr::Var(var_binding_exec(name, depth)).node(type_info);
    n
}

/// Records the type of an assigned value in the scope of its binding.
fn record_assignment(
    name: &str,
    depth: Option<(usize, usize)>,
    type_info: TypeInfo,
    context: &mut IrBuilder,
) -> (b: Binding)
    requires
        crate::ir::scope_index(var_binding(VarView { name: name@, depth }))
            < old(context)@.scopes.len(),
    ensures
        b@ == var_binding(VarView { name: name@, depth }),
        final(context)@.program == old(context)@.program,
        final(context)@.scopes == crate::ir::semantics::record(
            old(context)@.scopes,
            crate::ir::scope_index(b@),
            b@.name,
            type_info,
        ),
{
    proof {
        context.lemma_scope_count();
    }
    let b = var_binding_exec(name, depth);
    let index: usize = match b.depth {
        Some(d) => d + b.function_depth,
        None => b.function_depth,
    };
    context.record(index, name.to_owned(), type_info);
    b
}

/// The node of a function definition whose body generated to `inner`.
fn function_node(
    name: &str,
    depth: Option<(usize, usize)>,
    params: &Vec<String>,
    inner: Vec<ExprNode>,
) -> (n: ExprNode)
    requires
        (match depth {
            Some((d, _)) => d < usize::MAX,
            None => true,
        }),
        (match depth {
            Some((_, fd)) => fd < usize::MAX,
            None => true,
        }),
    ensures
        n@ == ir_node(
            Ir::Function(
                var_binding(VarView { name: name@, depth }),
                param_bindings(VarView { name: name@, depth }, names_view(params@)),
                false,
                views(inner@),
            ),
            any_type(),
        ),
{
    let var = var_binding_exec(name, depth);
    let (d, fd): (usize, usize) = match depth {
        Some((d, fd)) => (d + 1, fd + 1),
        None => (1, 1),
    };
    let ghost expected = param_bindings(VarView { name: name@, depth }, names_view(params@));
    let mut bindings: Vec<Binding> = Vec::new();
    let mut i: usize = 0;
    while i < params.len()
        invariant
            i <= params.len(),
            expected.len() == params@.len(),
            bindings@.len() == i,
            forall|j: int| 0 <= j < i ==> #[trigger] bindings@[j]@ == expected[j],
            forall|j: int|
                0 <= j < params@.len() ==> #[trigger] expected[j] == (crate::ir::BindingView {
                    name: params@[j]@,
                    depth: Some(d),
                    function_depth: fd,
                }),
        decreases params.len() - i,
    {
        bindings.push(Binding::local(params[i].as_str(), d, fd));
        i += 1;
    }
    let f = IrFunction { var, params: bindings, method: false, inner };
    let n = Expr::Function(f).node(TypeInfo::any());
    proof {
        assert(n@.expr is Function);
        assert(n@.expr->Function_1 =~= expected);
        assert(n@.expr->Function_3 =~= views(inner@));
    }
    n
}


/// The type information of a forgotten-type value.
fn node_type(n: &Node) -> (t: TypeInfo)
    ensures
        t == type_of(n@),
    decreases n,
{
    match n {
        Node::Variable(_, _) => TypeInfo::any(),
        Node::Assignement(_, _, _) => TypeInfo::nil(),
        Node::Call(callee, _) => node_type(callee),
        Node::Return(value) => node_type(value),
        Node::Function(_, _, _, _) => TypeInfo::nil(),
        Node::Conditional(_, if_true, _, if_false) => {
            let if_true_ty = node_type(if_true);
            let if_false_ty = match if_false {
                Some(e) => node_type(e),
                None => if_true_ty,
            };
            if if_true_ty == if_false_ty {
                if_false_ty
            } else {
                TypeInfo::any()
            }
        },
        Node::WhileLoop(_, _) => TypeInfo::nil(),
        Node::BinaryOperation(lhs, _, _) => node_type(lhs),
        Node::GetElement(_, _) => TypeInfo::any(),
        Node::SetElement(_, _, _) => TypeInfo::nil(),
    }
}

/// Generates a forgotten-type value.
fn generate_node(n: &Node, context: &mut IrBuilder) -> (r: ExprNode)
    requires
        fits(n@, old(context)@.scopes.len()),
    ensures
        r@ == generated(n@, old(context)@.scopes).0,
        final(context)@.scopes == generated(n@, old(context)@.scopes).1,
        final(context)@.program == old(context)@.program,
    decreases n, 1nat,
{
    match n {
        Node::Variable(name, depth) => variable_node(name.as_str(), *depth, context),
        Node::Assignement(_, _, _) => generate_assignement_node(n, context),
        Node::Call(_, _) => generate_call_node(n, context),
        Node::Return(value) => {
            let t = node_type(value);
            let v = generate_node(value, context);
            Expr::Return(Some(v)).node(t)
        },
        Node::Function(_, _, _, _) => generate_function_node(n, context),
        Node::Conditional(_, _, _, _) => generate_conditional_node(n, context),
        Node::WhileLoop(_, _) => generate_while_node(n, context),
        Node::BinaryOperation(_, _, _) => generate_binary_node(n, context),
        Node::GetElement(_, _) => generate_get_node(n, context),
        Node::SetElement(_, _, _) => generate_set_node(n, context),
    }
}

fn generate_assignement_node(n: &Node, context: &mut IrBuilder) -> (r: ExprNode)
    requires
        n is Assignement,
        fits(n@, old(context)@.scopes.len()),
    ensures
        r@ == generated(n@, old(context)@.scopes).0,
        final(context)@.scopes == generated(n@, old(context)@.scopes).1,
        final(context)@.program == old(context)@.program,
    decreases n, 0nat,
{
    match n {
        Node::Assignement(name, depth, value) => {
            let t = node_type(value);
            let b = record_assignment(name.as_str(), *depth, t, context);
            let v = generate_node(value, context);
            Expr::Bind(b, v).node(TypeInfo::nil())
        },
        _ => unreached(),
    }
}

fn generate_call_node(n: &Node, context: &mut IrBuilder) -> (r: ExprNode)
    requires
        n is Call,
        fits(n@, old(context)@.scopes.len()),
    ensures
        r@ == generated(n@, old(context)@.scopes).0,
        final(context)@.scopes == generated(n@, old(context)@.scopes).1,
        final(context)@.program == old(context)@.program,
    decreases n, 0nat,
{
    let ghost s0 = context@.scopes;
    match n {
        Node::Call(callee, args) => {
            let c = generate_node(callee, context);
            proof {
                lemma_generated_keeps_scope_count(callee@, s0);
                assert(node_ast(*n)->Call_1 =~= node_asts(args@));
                assert(decreases_to!(*n => (*n)->Call_1));
            }
            let a = generate_all(args, context);
            let t = node_type(callee);
            let r = Expr::Call(c, a).node(t);
            proof {
                assert(r@.expr->Call_1 =~= views(a@));
            }
            r
        },
        _ => unreached(),
    }
}

fn generate_function_node(n: &Node, context: &mut IrBuilder) -> (r: ExprNode)
    requires
        n is Function,
        fits(n@, old(context)@.scopes.len()),
    ensures
        r@ == generated(n@, old(context)@.scopes).0,
        final(context)@.scopes == generated(n@, old(context)@.scopes).1,
        final(context)@.program == old(context)@.program,
    decreases n, 0nat,
{
    let ghost s0 = context@.scopes;
    match n {
        Node::Function(name, depth, params, body) => {
            let mut body_builder = IrBuilder::new();
            let b = generate_node(body, &mut body_builder);
            body_builder.push(b);
            context.scope_in();
            let inner = body_builder.build();
            context.scope_out();
            proof {
                assert(context@.scopes =~= s0);
                assert(views(inner@) =~= seq![b@]);
            }
            function_node(name.as_str(), *depth, params, inner)
        },
        _ => unreached(),
    }
}

fn generate_conditional_node(n: &Node, context: &mut IrBuilder) -> (r: ExprNode)
    requires
        n is Conditional,
        fits(n@, old(context)@.scopes.len()),
    ensures
        r@ == generated(n@, old(context)@.scopes).0,
        final(context)@.scopes == generated(n@, old(context)@.scopes).1,
        final(context)@.program == old(context)@.program,
    decreases n, 0nat,
{
    let ghost s0 = context@.scopes;
    match n {
        Node::Conditional(condition, if_true, elifs, if_false) => {
            let t = generate_node(if_true, context);
            proof {
                lemma_generated_keeps_scope_count(if_true@, s0);
            }
            let ghost s1 = context@.scopes;
            let f = match if_false {
                Some(e) => {
                    let x = generate_node(e, context);
                    proof {
                        lemma_generated_keeps_scope_count(e@, s1);
                    }
                    Some(x)
                },
                None => None,
            };
            let ghost s2 = context@.scopes;
            proof {
                assert(node_ast(*n)->Conditional_2 =~= node_pair_asts(elifs@));
                assert(decreases_to!(*n => (*n)->Conditional_2));
            }
            let l = generate_pairs(elifs, context);
            proof {
                lemma_generated_pairs_keeps_scope_count(node_pair_asts(elifs@), s2);
            }
            let c = generate_node(condition, context);
            let r = Expr::If(c, t, l, f).node(TypeInfo::nil());
            proof {
                assert(r@.expr->If_2 =~= pair_views(l@));
            }
            r
        },
        _ => unreached(),
    }
}

fn generate_while_node(n: &Node, context: &mut IrBuilder) -> (r: ExprNode)
    requires
        n is WhileLoop,
        fits(n@, old(context)@.scopes.len()),
    ensures
        r@ == generated(n@, old(context)@.scopes).0,
        final(context)@.scopes == generated(n@, old(context)@.scopes).1,
        final(context)@.program == old(context)@.program,
    decreases n, 0nat,
{
    match n {
        Node::WhileLoop(condition, body) => {
            let mut body_builder = IrBuilder::new();
            proof {
                assert(node_ast(*n)->WhileLoop_1 =~= node_asts(body@));
                assert(decreases_to!(*n => (*n)->WhileLoop_1));
            }
            emit_all(body, &mut body_builder);
            let inner = body_builder.build();
            let block = Expr::Block(inner).node(TypeInfo::nil());
            proof {
                assert(block@.expr->Block_0 =~= views(inner@));
            }
            let c = generate_node(condition, context);
            Expr::While(c, block).node(TypeInfo::nil())
        },
        _ => unreached(),
    }
}

fn generate_binary_node(n: &Node, context: &mut IrBuilder) -> (r: ExprNode)
    requires
        n is BinaryOperation,
        fits(n@, old(context)@.scopes.len()),
    ensures
        r@ == generated(n@, old(context)@.scopes).0,
        final(context)@.scopes == generated(n@, old(context)@.scopes).1,
        final(context)@.program == old(context)@.program,
    decreases n, 0nat,
{
    let ghost s0 = context@.scopes;
    match n {
        Node::BinaryOperation(lhs, op, rhs) => {
            let l = generate_node(lhs, context);
            proof {
                lemma_generated_keeps_scope_count(lhs@, s0);
            }
            let r = generate_node(rhs, context);
            context.binary(l, *op, r)
        },
        _ => unreached(),
    }
}

fn generate_get_node(n: &Node, context: &mut IrBuilder) -> (r: ExprNode)
    requires
        n is GetElement,
        fits(n@, old(context)@.scopes.len()),
    ensures
        r@ == generated(n@, old(context)@.scopes).0,
        final(context)@.scopes == generated(n@, old(context)@.scopes).1,
        final(context)@.program == old(context)@.program,
    decreases n, 0nat,
{
    let ghost s0 = context@.scopes;
    match n {
        Node::GetElement(object, index) => {
            let o = generate_node(object, context);
            proof {
                lemma_generated_keeps_scope_count(object@, s0);
            }
            let i = generate_node(index, context);
            Expr::GetElement(o, i).node(TypeInfo::any())
        },
        _ => unreached(),
    }
}

fn generate_set_node(n: &Node, context: &mut IrBuilder) -> (r: ExprNode)
    requires
        n is SetElement,
        fits(n@, old(context)@.scopes.len()),
    ensures
        r@ == generated(n@, old(context)@.scopes).0,
        final(context)@.scopes == generated(n@, old(context)@.scopes).1,
        final(context)@.program == old(context)@.program,
    decreases n, 0nat,
{
    let ghost s0 = context@.scopes;
    match n {
        Node::SetElement(object, index, value) => {
            let o = generate_node(object, context);
            proof {
                lemma_generated_keeps_scope_count(object@, s0);
            }
            let ghost s1 = context@.scopes;
            let i = generate_node(index, context);
            proof {
                lemma_generated_keeps_scope_count(index@, s1);
            }
            let v = generate_node(value, context);
            Expr::SetElement(o, i, v).node(TypeInfo::any())
        },
        _ => unreached(),
    }
}

/// Generates forgotten-type values one after the other, from the first.
fn generate_all(args: &Vec<Node>, context: &mut IrBuilder) -> (r: Vec<ExprNode>)
    requires
        fits_all(node_asts(args@), old(context)@.scopes.len()),
    ensures
        views(r@) == generated_all(node_asts(args@), old(context)@.scopes).0,
        final(context)@.scopes == generated_all(node_asts(args@), old(context)@.scopes).1,
        final(context)@.program == old(context)@.program,
    decreases args, 0nat,
{
    let ghost s0 = context@.scopes;
    let ghost xs = node_asts(args@);
    proof {
        lemma_fits_all_elements(xs, s0.len());
    }
    let mut out: Vec<ExprNode> = Vec::new();
    let mut i: usize = 0;
    while i < args.len()
        invariant
            i <= args.len(),
            xs == node_asts(args@),
            forall|j: int| 0 <= j < xs.len() ==> fits(#[trigger] xs[j], s0.len()),
            views(out@) == generated_all(xs.take(i as int), s0).0,
            context@.scopes == generated_all(xs.take(i as int), s0).1,
            context@.program == old(context)@.program,
        decreases args.len() - i,
    {
        proof {
            lemma_generated_all_keeps_scope_count(xs.take(i as int), s0);
            lemma_generated_all_step(xs, i as int, s0);
            assert(decreases_to!(*args => args@));
            assert(decreases_to!(args@ => args@[i as int]));
        }
        let x = generate_node(&args[i], context);
        let ghost before = out@;
        out.push(x);
        proof {
            assert(views(out@) =~= views(before).push(x@));
        }
        i += 1;
    }
    proof {
        assert(xs.take(args@.len() as int) =~= xs);
    }
    out
}

/// Emits forgotten-type values into `builder` one after the other, from the
/// first: the program grows by exactly their nodes, in order.
fn emit_all(statements: &Vec<Node>, builder: &mut IrBuilder)
    requires
        fits_all(node_asts(statements@), old(builder)@.scopes.len()),
    ensures
        final(builder)@.program == old(builder)@.program + generated_all(
            node_asts(statements@),
            old(builder)@.scopes,
        ).0,
        final(builder)@.scopes == generated_all(node_asts(statements@), old(builder)@.scopes).1,
    decreases statements, 0nat,
{
    let ghost s0 = builder@.scopes;
    let ghost p0 = builder@.program;
    let ghost xs = node_asts(statements@);
    proof {
        lemma_fits_all_elements(xs, s0.len());
    }
    let mut i: usize = 0;
    while i < statements.len()
        invariant
            i <= statements.len(),
            xs == node_asts(statements@),
            forall|j: int| 0 <= j < xs.len() ==> fits(#[trigger] xs[j], s0.len()),
            builder@.program == p0 + generated_all(xs.take(i as int), s0).0,
            builder@.scopes == generated_all(xs.take(i as int), s0).1,
        decreases statements.len() - i,
    {
        proof {
            lemma_generated_all_keeps_scope_count(xs.take(i as int), s0);
            lemma_generated_all_step(xs, i as int, s0);
            assert(decreases_to!(*statements => statements@));
            assert(decreases_to!(statements@ => statements@[i as int]));
        }
        let ghost before = builder@.program;
        let x = generate_node(&statements[i], builder);
        builder.push(x);
        proof {
            assert(builder@.program =~= p0 + generated_all(xs.take(i + 1), s0).0);
        }
        i += 1;
    }
    proof {
        assert(xs.take(statements@.len() as int) =~= xs);
    }
}

/// Generates `else if` arms one after the other, each condition before its body.
fn generate_pairs(elifs: &Vec<(Node, Node)>, context: &mut IrBuilder) -> (r: Vec<(ExprNode, ExprNode)>)
    requires
        fits_pairs(node_pair_asts(elifs@), old(context)@.scopes.len()),
    ensures
        pair_views(r@) == generated_pairs(node_pair_asts(elifs@), old(context)@.scopes).0,
        final(context)@.scopes == generated_pairs(node_pair_asts(elifs@), old(context)@.scopes).1,
        final(context)@.program == old(context)@.program,
    decreases elifs, 0nat,
{
    let ghost s0 = context@.scopes;
    let ghost xs = node_pair_asts(elifs@);
    proof {
        lemma_fits_pairs_elements(xs, s0.len());
    }
    let mut out: Vec<(ExprNode, ExprNode)> = Vec::new();
    let mut i: usize = 0;
    while i < elifs.len()
        invariant
            i <= elifs.len(),
            xs == node_pair_asts(elifs@),
            forall|j: int| #![trigger xs[j]] 0 <= j < xs.len() ==> fits(xs[j].0, s0.len()) && fits(xs[j].1, s0.len()),
            pair_views(out@) == generated_pairs(xs.take(i as int), s0).0,
            context@.scopes == generated_pairs(xs.take(i as int), s0).1,
            context@.program == old(context)@.program,
        decreases elifs.len() - i,
    {
        proof {
            lemma_generated_pairs_keeps_scope_count(xs.take(i as int), s0);
            lemma_generated_pairs_step(xs, i as int, s0);
            assert(decreases_to!(*elifs => elifs@));
            assert(decreases_to!(elifs@ => elifs@[i as int]));
            assert(decreases_to!(elifs@[i as int] => elifs@[i as int].0));
            assert(decreases_to!(elifs@[i as int] => elifs@[i as int].1));
        }
        let ghost s1 = context@.scopes;
        let c = generate_node(&elifs[i].0, context);
        proof {
            lemma_generated_keeps_scope_count(xs[i as int].0, s1);
        }
        let b = generate_node(&elifs[i].1, context);
        let ghost before = out@;
        out.push((c, b));
        proof {
            assert(pair_views(out@) =~= pair_views(before).push((c@, b@)));
        }
        i += 1;
    }
    proof {
        assert(xs.take(elifs@.len() as int) =~= xs);
    }
    out
}

/// The debugging text of a forgotten-type value.
fn node_text(n: &Node) -> (text: String)
    ensures
        text@ == ast_text(n@),
    decreases n, 1nat,
{
    let mut s = String::new();
    match n {
        Node::Variable(name, _) => {
            s.append(name.as_str());
        },
        Node::Assignement(name, _, value) => {
            s.append("Assignement { variable: ");
            s.append(name.as_str());
            s.append(", value: ");
            let v = node_text(value);
            s.append(v.as_str());
            s.append(" }");
        },
        Node::Call(callee, args) => {
            s.append("Call { callee: ");
            let c = node_text(callee);
            s.append(c.as_str());
            s.append(", args: [");
            proof {
                assert(node_ast(*n)->Call_1 =~= node_asts(args@));
                assert(decreases_to!(*n => (*n)->Call_1));
            }
            let a = node_texts(args);
            s.append(a.as_str());
            s.append("] }");
        },
        Node::Return(value) => {
            s.append("Return { value: ");
            let v = node_text(value);
            s.append(v.as_str());
            s.append(" }");
        },
        Node::Function(name, _, params, _) => {
            s.append("Function { variable: ");
            s.append(name.as_str());
            s.append(", args: [");
            let q = quoted_names(params);
            proof {
                assert(names_view(params@) =~= Seq::new(params@.len(), |i: int| params@[i]@));
            }
            s.append(q.as_str());
            s.append("], function: \"<...>\" }");
        },
        Node::Conditional(_, _, _, _) => {
            s.append("Conditional { condition: \"<...>\", if_true: \"{...}\", if_false: \"{...}?\" }");
        },
        Node::WhileLoop(condition, _) => {
            s.append("while ");
            let c = node_text(condition);
            s.append(c.as_str());
            s.append(" { ... }");
        },
        Node::BinaryOperation(lhs, op, rhs) => {
            let l = node_text(lhs);
            s.append(l.as_str());
            s.append(" ");
            s.append(op.as_symbol());
            s.append(" ");
            let r = node_text(rhs);
            s.append(r.as_str());
        },
        Node::GetElement(object, index) => {
            s.append("GetElement { object: ");
            let o = node_text(object);
            s.append(o.as_str());
            s.append(", index: ");
            let i = node_text(index);
            s.append(i.as_str());
            s.append(" }");
        },
        Node::SetElement(object, index, value) => {
            s.append("SetElement { object: ");
            let o = node_text(object);
            s.append(o.as_str());
            s.append(", index: ");
            let i = node_text(index);
            s.append(i.as_str());
            s.append(", value: ");
            let v = node_text(value);
            s.append(v.as_str());
            s.append(" }");
        },
    }
    s
}

/// The debugging texts of forgotten-type values, separated by `", "`.
fn node_texts(args: &Vec<Node>) -> (text: String)
    ensures
        text@ == joined_texts(node_asts(args@)),
    decreases args, 0nat,
{
    let ghost xs = node_asts(args@);
    let mut s = String::new();
    let mut i: usize = 0;
    while i < args.len()
        invariant
            i <= args.len(),
            xs == node_asts(args@),
            s@ == joined_texts(xs.take(i as int)),
        decreases args.len() - i,
    {
        proof {
            assert(xs.take(i + 1).subrange(0, i as int) =~= xs.take(i as int));
            assert(decreases_to!(*args => args@));
            assert(decreases_to!(args@ => args@[i as int]));
        }
        if i != 0 {
            s.append(", ");
        }
        let t = node_text(&args[i]);
        s.append(t.as_str());
        proof {
            if i == 0 {
                assert(s@ =~= joined_texts(xs.take(1)));
            }
        }
        i += 1;
    }
    proof {
        assert(xs.take(args@.len() as int) =~= xs);
    }
    s
}

/// A value that stands for a piece of a program and generates an IR node
/// for it when asked to.
pub trait Generate: Sized {
    /// The syntax tree this value stands for.
    spec fn ast(&self) -> Ast;

    /// Generates the node of this value in `context`, recording the types
    /// of assignments in its scopes; the program of `context` is untouched.
    fn generate(&self, context: &mut IrBuilder) -> (node: ExprNode)
        requires
            fits(self.ast(), old(context)@.scopes.len()),
        ensures
            node@ == generated(self.ast(), old(context)@.scopes).0,
            final(context)@.scopes == generated(self.ast(), old(context)@.scopes).1,
            final(context)@.program == old(context)@.program,
    ;

    /// The type information this value reports without generating anything.
    fn type_info(&self, context: &IrBuilder) -> (t: TypeInfo)
        ensures
            t == type_of(self.ast()),
    ;

    /// This value with its type forgotten.
    fn into_node(self) -> (node: Node)
        ensures
            node@ == self.ast(),
    ;

    /// The debugging text of this value.
    fn debug_text(&self) -> (text: String)
        ensures
            text@ == ast_text(self.ast()),
    ;

    /// Generates this value and appends its node to the program of `context`.
    fn emit(&self, context: &mut IrBuilder)
        requires
            fits(self.ast(), old(context)@.scopes.len()),
        ensures
            final(context)@.program == old(context)@.program.push(
                generated(self.ast(), old(context)@.scopes).0,
            ),
            final(context)@.scopes == generated(self.ast(), old(context)@.scopes).1,
    {
        let gen = self.generate(context);
        context.push(gen);
    }

    fn boxed(self) -> (b: Box<Self>)
        ensures
            *b == self,
    {
        Box::new(self)
    }

    /// A `return` of this value.
    fn ret(self) -> (r: Return<Self>)
        ensures
            r.value() == self,
    {
        Return { value: self }
    }

    /// A call of this value with `args`.
    fn call(self, args: Vec<Node>) -> (c: Call<Self>)
        ensures
            c.callee() == self,
            c.args() == args@,
    {
        Call { callee: self, args }
    }

    /// A conditional on this value, with `body` as its `if` branch and no
    /// other branch yet.
    fn if_true_do<T, F>(self, body: T) -> (c: Conditional<Self, T, F>)
        ensures
            c.condition() == self,
            c.if_true() == body,
            c.elifs() == Seq::<(Node, Node)>::empty(),
            c.if_false() == Option::<F>::None,
    {
        Conditional { condition: self, if_true: body, elifs: Vec::new(), if_false: None }
    }

    /// A loop running the statements of `body`, in order, while this value
    /// holds.
    fn while_true_do(self, body: Vec<Node>) -> (w: WhileLoop<Self>)
        ensures
            w.condition() == self,
            w.body() == body@,
    {
        WhileLoop { condition: self, body }
    }

    /// The element of this value at `index`.
    fn get_element<T>(self, index: T) -> (g: GetElement<Self, T>)
        ensures
            g.object() == self,
            g.index() == index,
    {
        GetElement { object: self, index }
    }

    /// Sets the element of this value at `index` to `value`.
    fn set_element<T, V>(self, index: T, value: V) -> (s: SetElement<Self, T, V>)
        ensures
            s.object() == self,
            s.index() == index,
            s.value() == value,
    {
        SetElement { object: self, index, value }
    }
}

impl Generate for Node {
    open spec fn ast(&self) -> Ast {
        self@
    }

    fn generate(&self, context: &mut IrBuilder) -> (node: ExprNode) {
        generate_node(self, context)
    }

    fn type_info(&self, context: &IrBuilder) -> (t: TypeInfo) {
        node_type(self)
    }

    fn debug_text(&self) -> (text: String) {
        node_text(self)
    }

    fn into_node(self) -> (node: Node) {
        self
    }
}

/// A reference to a variable: a global, or a local at a scope depth and a
/// function depth.
#[derive(Clone, Copy)]
pub struct Variable<'n> {
    name: &'n str,
    depth: Option<(usize, usize)>,
}

impl<'n> View for Variable<'n> {
    type V = VarView;

    closed spec fn view(&self) -> VarView {
        VarView { name: self.name@, depth: self.depth }
    }
}

impl<'n> Variable<'n> {
    pub fn global(name: &'n str) -> (v: Self)
        ensures
            v@ == (VarView { name: name@, depth: None }),
    {
        Variable { name, depth: None }
    }

    pub fn local(name: &'n str, depth: (usize, usize)) -> (v: Self)
        ensures
            v@ == (VarView { name: name@, depth: Some(depth) }),
    {
        Variable { name, depth: Some(depth) }
    }

    /// The binding this variable refers to.
    pub fn binding(&self) -> (b: Binding)
        ensures
            b@ == var_binding(self@),
    {
        var_binding_exec(self.name, self.depth)
    }

    /// An assignment of `value` to this variable.
    pub fn bind<T>(&self, value: T) -> (a: Assignement<'n, T>)
        where
            T: Generate,
        ensures
            a.variable() == *self,
            a.value() == value,
    {
        Assignement { variable: *self, value }
    }
}

impl<'n> Generate for Variable<'n> {
    open spec fn ast(&self) -> Ast {
        Ast::Variable(self@)
    }

    fn generate(&self, context: &mut IrBuilder) -> (node: ExprNode) {
        variable_node(self.name, self.depth, context)
    }

    fn type_info(&self, context: &IrBuilder) -> (t: TypeInfo) {
        TypeInfo::any()
    }

    fn debug_text(&self) -> (text: String) {
        let mut s = String::new();
        s.append(self.name);
        s
    }

    fn into_node(self) -> (node: Node) {
        Node::Variable(self.name.to_owned(), self.depth)
    }
}

/// An assignment of a value to a variable.
pub struct Assignement<'n, T> {
    variable: Variable<'n>,
    value: T,
}

impl<'n, T> Assignement<'n, T> {
    pub closed spec fn variable(&self) -> Variable<'n> {
        self.variable
    }

    pub closed spec fn value(&self) -> T {
        self.value
    }
}

impl<'n, T> Generate for Assignement<'n, T> where T: Generate {
    open spec fn ast(&self) -> Ast {
        Ast::Assignement(self.variable()@, Box::new(self.value().ast()))
    }

    fn generate(&self, context: &mut IrBuilder) -> (node: ExprNode) {
        let t = self.value.type_info(context);
        let b = record_assignment(self.variable.name, self.variable.depth, t, context);
        let v = self.value.generate(context);
        Expr::Bind(b, v).node(TypeInfo::nil())
    }

    fn type_info(&self, context: &IrBuilder) -> (t: TypeInfo) {
        TypeInfo::nil()
    }

    fn debug_text(&self) -> (text: String) {
        let mut s = String::new();
        s.append("Assignement { variable: ");
        s.append(self.variable.name);
        s.append(", value: ");
        let v = self.value.debug_text();
        s.append(v.as_str());
        s.append(" }");
        s
    }

    fn into_node(self) -> (node: Node) {
        Node::Assignement(
            self.variable.name.to_owned(),
            self.variable.depth,
            Box::new(self.value.into_node()),
        )
    }
}


/// A call of a callee with arguments.
pub struct Call<T> {
    callee: T,
    args: Vec<Node>,
}

impl<T> Call<T> {
    pub closed spec fn callee(&self) -> T {
        self.callee
    }

    pub closed spec fn args(&self) -> Seq<Node> {
        self.args@
    }

    pub fn new(callee: T, args: Vec<Node>) -> (c: Self)
        ensures
            c.callee() == callee,
            c.args() == args@,
    {
        Self { callee, args }
    }
}

impl<T> Generate for Call<T> where T: Generate {
    open spec fn ast(&self) -> Ast {
        Ast::Call(Box::new(self.callee().ast()), node_asts(self.args()))
    }

    fn generate(&self, context: &mut IrBuilder) -> (node: ExprNode) {
        let ghost s0 = context@.scopes;
        let callee = self.callee.generate(context);
        proof {
            lemma_generated_keeps_scope_count(self.callee().ast(), s0);
        }
        let args = generate_all(&self.args, context);
        let t = self.callee.type_info(context);
        let r = Expr::Call(callee, args).node(t);
        proof {
            assert(r@.expr->Call_1 =~= views(args@));
        }
        r
    }

    fn type_info(&self, context: &IrBuilder) -> (t: TypeInfo) {
        self.callee.type_info(context)
    }

    fn debug_text(&self) -> (text: String) {
        let mut s = String::new();
        s.append("Call { callee: ");
        let c = self.callee.debug_text();
        s.append(c.as_str());
        s.append(", args: [");
        let a = node_texts(&self.args);
        s.append(a.as_str());
        s.append("] }");
        s
    }

    fn into_node(self) -> (node: Node) {
        let n = Node::Call(Box::new(self.callee.into_node()), self.args);
        proof {
            assert(node_ast(n)->Call_1 =~= node_asts(self.args()));
        }
        n
    }
}

/// A `return` of a value.
pub struct Return<T> {
    value: T,
}

impl<T> Return<T> {
    pub closed spec fn value(&self) -> T {
        self.value
    }

    pub fn new(value: T) -> (r: Self)
        ensures
            r.value() == value,
    {
        Self { value }
    }
}

impl<T> Generate for Return<T> where T: Generate {
    open spec fn ast(&self) -> Ast {
        Ast::Return(Box::new(self.value().ast()))
    }

    fn generate(&self, context: &mut IrBuilder) -> (node: ExprNode) {
        let type_info = self.value.type_info(context);
        let v = self.value.generate(context);
        Expr::Return(Some(v)).node(type_info)
    }

    fn type_info(&self, context: &IrBuilder) -> (t: TypeInfo) {
        self.value.type_info(context)
    }

    fn debug_text(&self) -> (text: String) {
        let mut s = String::new();
        s.append("Return { value: ");
        let v = self.value.debug_text();
        s.append(v.as_str());
        s.append(" }");
        s
    }

    fn into_node(self) -> (node: Node) {
        Node::Return(Box::new(self.value.into_node()))
    }
}

/// A function definition bound to a variable.
pub struct Function<'n, T> {
    variable: Variable<'n>,
    args: Vec<String>,
    body: T,
}

impl<'n, T> Function<'n, T> {
    pub closed spec fn variable(&self) -> Variable<'n> {
        self.variable
    }

    /// The names of the parameters.
    pub closed spec fn args(&self) -> Seq<Seq<char>> {
        names_view(self.args@)
    }

    pub closed spec fn body(&self) -> T {
        self.body
    }

    /// A function bound to `variable`, with parameters named by `args`.
    /// Its body is emitted into a builder of its own, so it should end in
    /// a `return`.
    pub fn new<'a>(variable: Variable<'n>, args: Vec<&'a str>, body: T) -> (f: Self)
        where
            T: Generate,
        ensures
            f.variable() == variable,
            f.args() == Seq::new(args@.len(), |i: int| args@[i]@),
            f.body() == body,
    {
        let mut names: Vec<String> = Vec::new();
        let mut i: usize = 0;
        while i < args.len()
            invariant
                i <= args.len(),
                names@.len() == i,
                forall|j: int| 0 <= j < i ==> #[trigger] names@[j]@ == args@[j]@,
            decreases args.len() - i,
        {
            names.push(args[i].to_owned());
            i += 1;
        }
        let f = Self { variable, args: names, body };
        proof {
            assert(f.args() =~= Seq::new(args@.len(), |i: int| args@[i]@));
        }
        f
    }
}

impl<'n, T> Generate for Function<'n, T> where T: Generate {
    open spec fn ast(&self) -> Ast {
        Ast::Function(self.variable()@, self.args(), Box::new(self.body().ast()))
    }

    fn generate(&self, context: &mut IrBuilder) -> (node: ExprNode) {
        let ghost s0 = context@.scopes;
        let mut body_builder = IrBuilder::new();
        self.body.emit(&mut body_builder);
        context.scope_in();
        let inner = body_builder.build();
        context.scope_out();
        proof {
            assert(context@.scopes =~= s0);
        }
        function_node(self.variable.name, self.variable.depth, &self.args, inner)
    }

    fn type_info(&self, context: &IrBuilder) -> (t: TypeInfo) {
        TypeInfo::nil()
    }

    fn debug_text(&self) -> (text: String) {
        let mut s = String::new();
        s.append("Function { variable: ");
        s.append(self.variable.name);
        s.append(", args: [");
        let q = quoted_names(&self.args);
        proof {
            assert(self.args() =~= Seq::new(self.args@.len(), |i: int| self.args@[i]@));
        }
        s.append(q.as_str());
        s.append("], function: \"<...>\" }");
        s
    }

    fn into_node(self) -> (node: Node) {
        Node::Function(
            self.variable.name.to_owned(),
            self.variable.depth,
            self.args,
            Box::new(self.body.into_node()),
        )
    }
}

/// A conditional: a condition with its body, `else if` arms, and an
/// optional `else` body.
pub struct Conditional<C, T, E> {
    condition: C,
    if_true: T,
    elifs: Vec<(Node, Node)>,
    if_false: Option<E>,
}

impl<C, T, E> Conditional<C, T, E> {
    pub closed spec fn condition(&self) -> C {
        self.condition
    }

    pub closed spec fn if_true(&self) -> T {
        self.if_true
    }

    pub closed spec fn elifs(&self) -> Seq<(Node, Node)> {
        self.elifs@
    }

    pub closed spec fn if_false(&self) -> Option<E> {
        self.if_false
    }

    /// Sets the `else` body of this conditional.
    pub fn else_do(self, else_body: E) -> (c: Self)
        ensures
            c.condition() == self.condition(),
            c.if_true() == self.if_true(),
            c.elifs() == self.elifs(),
            c.if_false() == Some(else_body),
    {
        let mut c = self;
        c.if_false = Some(else_body);
        c
    }

    /// Appends an `else if` arm to this conditional.
    pub fn else_if<A, B>(self, condition: A, body: B) -> (c: Self)
        where
            A: Generate,
            B: Generate,
        ensures
            c.condition() == self.condition(),
            c.if_true() == self.if_true(),
            c.elifs().len() == self.elifs().len() + 1,
            c.elifs().take(self.elifs().len() as int) == self.elifs(),
            c.elifs().last().0@ == condition.ast(),
            c.elifs().last().1@ == body.ast(),
            c.if_false() == self.if_false(),
    {
        let mut c = self;
        let tuple = (condition.into_node(), body.into_node());
        c.elifs.push(tuple);
        proof {
            assert(c.elifs().take(self.elifs().len() as int) =~= self.elifs());
        }
        c
    }

    /// Removes the `else` body of this conditional.
    pub fn else_none(self) -> (c: Self)
        ensures
            c.condition() == self.condition(),
            c.if_true() == self.if_true(),
            c.elifs() == self.elifs(),
            c.if_false() == Option::<E>::None,
    {
        let mut c = self;
        c.if_false = None;
        c
    }
}

impl<C, T, E> Generate for Conditional<C, T, E> where C: Generate, T: Generate, E: Generate {
    open spec fn ast(&self) -> Ast {
        Ast::Conditional(
            Box::new(self.condition().ast()),
            Box::new(self.if_true().ast()),
            node_pair_asts(self.elifs()),
            match self.if_false() {
                Some(e) => Some(Box::new(e.ast())),
                None => None,
            },
        )
    }

    fn generate(&self, context: &mut IrBuilder) -> (node: ExprNode) {
        let ghost s0 = context@.scopes;
        let tr = self.if_true.generate(context);
        proof {
            lemma_generated_keeps_scope_count(self.if_true().ast(), s0);
        }
        let ghost s1 = context@.scopes;
        let fl = match &self.if_false {
            Some(x) => {
                let g = x.generate(context);
                proof {
                    lemma_generated_keeps_scope_count(x.ast(), s1);
                }
                Some(g)
            },
            None => None,
        };
        let ghost s2 = context@.scopes;
        let elifs = generate_pairs(&self.elifs, context);
        proof {
            lemma_generated_pairs_keeps_scope_count(node_pair_asts(self.elifs()), s2);
        }
        let condition = self.condition.generate(context);
        let r = Expr::If(condition, tr, elifs, fl).node(TypeInfo::nil());
        proof {
            assert(r@.expr->If_2 =~= pair_views(elifs@));
        }
        r
    }

    fn type_info(&self, context: &IrBuilder) -> (t: TypeInfo) {
        let if_true_ty = self.if_true.type_info(context);
        let if_false_ty = match &self.if_false {
            Some(x) => x.type_info(context),
            None => if_true_ty,
        };
        if if_true_ty == if_false_ty {
            return if_false_ty;
        }
        TypeInfo::any()
    }

    fn debug_text(&self) -> (text: String) {
        let mut s = String::new();
        s.append("Conditional { condition: \"<...>\", if_true: \"{...}\", if_false: \"{...}?\" }");
        s
    }

    fn into_node(self) -> (node: Node) {
        let if_false = match self.if_false {
            Some(e) => Some(Box::new(e.into_node())),
            None => None,
        };
        let n = Node::Conditional(
            Box::new(self.condition.into_node()),
            Box::new(self.if_true.into_node()),
            self.elifs,
            if_false,
        );
        proof {
            assert(node_ast(n)->Conditional_2 =~= node_pair_asts(self.elifs()));
        }
        n
    }
}

/// A loop that runs its body, a sequence of statements, while its
/// condition holds.
pub struct WhileLoop<C> {
    condition: C,
    body: Vec<Node>,
}

impl<C> WhileLoop<C> {
    pub closed spec fn condition(&self) -> C {
        self.condition
    }

    /// The statements of the body, in the order they are emitted.
    pub closed spec fn body(&self) -> Seq<Node> {
        self.body@
    }
}

impl<C> Generate for WhileLoop<C> where C: Generate {
    open spec fn ast(&self) -> Ast {
        Ast::WhileLoop(Box::new(self.condition().ast()), node_asts(self.body()))
    }

    /// The body is emitted, statement after statement, into a builder of
    /// its own; the loop's block holds exactly the nodes emitted there.
    fn generate(&self, context: &mut IrBuilder) -> (node: ExprNode) {
        let mut body_builder = IrBuilder::new();
        emit_all(&self.body, &mut body_builder);
        let inner = body_builder.build();
        let body = Expr::Block(inner).node(TypeInfo::nil());
        proof {
            assert(body@.expr->Block_0 =~= views(inner@));
        }
        let condition = self.condition.generate(context);
        Expr::While(condition, body).node(TypeInfo::nil())
    }

    fn type_info(&self, context: &IrBuilder) -> (t: TypeInfo) {
        TypeInfo::nil()
    }

    fn debug_text(&self) -> (text: String) {
        let mut s = String::new();
        s.append("while ");
        let c = self.condition.debug_text();
        s.append(c.as_str());
        s.append(" { ... }");
        s
    }

    fn into_node(self) -> (node: Node) {
        let n = Node::WhileLoop(Box::new(self.condition.into_node()), self.body);
        proof {
            assert(node_ast(n)->WhileLoop_1 =~= node_asts(self.body()));
        }
        n
    }
}

/// A binary operation on two operands.
pub struct BinaryOperation<L, R> {
    lhs: L,
    rhs: R,
    operator: BinaryOp,
}

impl<L, R> BinaryOperation<L, R> {
    pub closed spec fn lhs(&self) -> L {
        self.lhs
    }

    pub closed spec fn rhs(&self) -> R {
        self.rhs
    }

    pub closed spec fn operator(&self) -> BinaryOp {
        self.operator
    }

    /// The warning about applying the operator to operands whose types are
    /// not both numerical, if they are not.
    pub fn operand_warning(&self, context: &IrBuilder) -> (w: Option<String>)
        where
            L: Generate,
            R: Generate,
        ensures
            w is Some <==> (type_of(self.lhs().ast()).kind != Type::Float || type_of(
                self.rhs().ast(),
            ).kind != Type::Float),
            w matches Some(m) ==> m@ == operand_warning_text(
                self.lhs().ast(),
                self.operator(),
                self.rhs().ast(),
                type_of(self.lhs().ast()).kind,
                type_of(self.rhs().ast()).kind,
            ),
    {
        let lhs_ty = self.lhs.type_info(context);
        let rhs_ty = self.rhs.type_info(context);
        if !lhs_ty.is_numerical() || !rhs_ty.is_numerical() {
            let symbol = self.operator.as_symbol();
            let mut m = String::new();
            m.append("Trying to apply '");
            m.append(symbol);
            m.append("' on types of ");
            m.append(lhs_ty.kind().name());
            m.append(" and ");
            m.append(rhs_ty.kind().name());
            m.append(" => ");
            let l = self.lhs.debug_text();
            m.append(l.as_str());
            m.append(" ");
            m.append(symbol);
            m.append(" ");
            let r = self.rhs.debug_text();
            m.append(r.as_str());
            Some(m)
        } else {
            None
        }
    }
}

impl<L, R> Generate for BinaryOperation<L, R> where L: Generate, R: Generate {
    open spec fn ast(&self) -> Ast {
        Ast::BinaryOperation(Box::new(self.lhs().ast()), self.operator(), Box::new(self.rhs().ast()))
    }

    fn generate(&self, context: &mut IrBuilder) -> (node: ExprNode) {
        let ghost s0 = context@.scopes;
        let lhs = self.lhs.generate(context);
        proof {
            lemma_generated_keeps_scope_count(self.lhs().ast(), s0);
        }
        let rhs = self.rhs.generate(context);
        context.binary(lhs, self.operator, rhs)
    }

    fn type_info(&self, context: &IrBuilder) -> (t: TypeInfo) {
        self.lhs.type_info(context)
    }

    fn debug_text(&self) -> (text: String) {
        let mut s = String::new();
        let l = self.lhs.debug_text();
        s.append(l.as_str());
        s.append(" ");
        s.append(self.operator.as_symbol());
        s.append(" ");
        let r = self.rhs.debug_text();
        s.append(r.as_str());
        s
    }

    fn into_node(self) -> (node: Node) {
        Node::BinaryOperation(
            Box::new(self.lhs.into_node()),
            self.operator,
            Box::new(self.rhs.into_node()),
        )
    }
}

/// Reading the element of an object at an index.
#[derive(Clone)]
pub struct GetElement<O, I> {
    object: O,
    index: I,
}

impl<O, I> GetElement<O, I> {
    pub closed spec fn object(&self) -> O {
        self.object
    }

    pub closed spec fn index(&self) -> I {
        self.index
    }
}

impl<O, I> Generate for GetElement<O, I> where O: Generate, I: Generate {
    open spec fn ast(&self) -> Ast {
        Ast::GetElement(Box::new(self.object().ast()), Box::new(self.index().ast()))
    }

    fn generate(&self, context: &mut IrBuilder) -> (node: ExprNode) {
        let ghost s0 = context@.scopes;
        let object = self.object.generate(context);
        proof {
            lemma_generated_keeps_scope_count(self.object().ast(), s0);
        }
        let index = self.index.generate(context);
        Expr::GetElement(object, index).node(TypeInfo::any())
    }

    fn type_info(&self, context: &IrBuilder) -> (t: TypeInfo) {
        TypeInfo::any()
    }

    fn debug_text(&self) -> (text: String) {
        let mut s = String::new();
        s.append("GetElement { object: ");
        let o = self.object.debug_text();
        s.append(o.as_str());
        s.append(", index: ");
        let i = self.index.debug_text();
        s.append(i.as_str());
        s.append(" }");
        s
    }

    fn into_node(self) -> (node: Node) {
        Node::GetElement(Box::new(self.object.into_node()), Box::new(self.index.into_node()))
    }
}

/// Writing a value into the element of an object at an index.
#[derive(Clone)]
pub struct SetElement<O, I, V> {
    object: O,
    index: I,
    value: V,
}

impl<O, I, V> SetElement<O, I, V> {
    pub closed spec fn object(&self) -> O {
        self.object
    }

    pub closed spec fn index(&self) -> I {
        self.index
    }

    pub closed spec fn value(&self) -> V {
        self.value
    }
}

impl<O, I, V> Generate for SetElement<O, I, V> where O: Generate, I: Generate, V: Generate {
    open spec fn ast(&self) -> Ast {
        Ast::SetElement(
            Box::new(self.object().ast()),
            Box::new(self.index().ast()),
            Box::new(self.value().ast()),
        )
    }

    fn generate(&self, context: &mut IrBuilder) -> (node: ExprNode) {
        let ghost s0 = context@.scopes;
        let object = self.object.generate(context);
        proof {
            lemma_generated_keeps_scope_count(self.object().ast(), s0);
        }
        let ghost s1 = context@.scopes;
        let index = self.index.generate(context);
        proof {
            lemma_generated_keeps_scope_count(self.index().ast(), s1);
        }
        let value = self.value.generate(context);
        Expr::SetElement(object, index, value).node(TypeInfo::any())
    }

    fn type_info(&self, context: &IrBuilder) -> (t: TypeInfo) {
        TypeInfo::nil()
    }

    fn debug_text(&self) -> (text: String) {
        let mut s = String::new();
        s.append("SetElement { object: ");
        let o = self.object.debug_text();
        s.append(o.as_str());
        s.append(", index: ");
        let i = self.index.debug_text();
        s.append(i.as_str());
        s.append(", value: ");
        let v = self.value.debug_text();
        s.append(v.as_str());
        s.append(" }");
        s
    }

    fn into_node(self) -> (node: Node) {
        Node::SetElement(
            Box::new(self.object.into_node()),
            Box::new(self.index.into_node()),
            Box::new(self.value.into_node()),
        )
    }
}

} // verus!
