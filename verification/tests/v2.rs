use lib::ir::v2::{Call, Function, Generate, Node, Return, Variable};
use lib::ir::{BinaryOp, Binding, Expr, ExprNode, IrBuilder, IrFunction, Type, TypeInfo};

fn global(name: &str) -> Binding {
    Binding { name: name.to_string(), depth: None, function_depth: 0 }
}

fn local(name: &str, depth: usize, function_depth: usize) -> Binding {
    Binding { name: name.to_string(), depth: Some(depth), function_depth }
}

fn node(expr: Expr, kind: Type) -> ExprNode {
    ExprNode { inner: Box::new(expr), type_info: TypeInfo { kind } }
}

fn var(b: Binding, kind: Type) -> ExprNode {
    node(Expr::Var(b), kind)
}

#[test]
fn variable_bindings() {
    assert_eq!(Variable::global("sum").binding(), global("sum"));
    assert_eq!(Variable::local("n", (2, 1)).binding(), local("n", 2, 1));
}

#[test]
fn binding_constructors() {
    assert_eq!(Binding::global("a"), global("a"));
    assert_eq!(Binding::local("a", 3, 4), local("a", 3, 4));
    assert_eq!(Binding::local("abc", 0, 0).name(), "abc");
}

#[test]
fn unbound_variable_reads_as_nil() {
    let mut b = IrBuilder::new();
    let n = Variable::global("x").generate(&mut b);
    assert_eq!(n, var(global("x"), Type::Nil));
}

#[test]
fn read_after_bind_gives_type_of_value() {
    let mut b = IrBuilder::new();
    let x = Variable::global("x");
    let y = Variable::global("y");
    let bound = x.bind(y).generate(&mut b);
    assert_eq!(bound, node(Expr::Bind(global("x"), var(global("y"), Type::Nil)), Type::Nil));
    // the variable `y` reports `any`, which is what was recorded for `x`
    assert_eq!(x.generate(&mut b), var(global("x"), Type::Any));
    // other names are left alone
    assert_eq!(y.generate(&mut b), var(global("y"), Type::Nil));
}

#[test]
fn assignment_of_an_assignment_records_the_inner_value() {
    let mut b = IrBuilder::new();
    let x = Variable::global("x");
    let y = Variable::global("y");
    // x = (x = y): the outer records nil for x first, then the inner records any
    let _ = x.bind(x.bind(y)).generate(&mut b);
    assert_eq!(x.generate(&mut b), var(global("x"), Type::Any));
}

#[test]
fn generate_does_not_emit_but_emit_does() {
    let mut b = IrBuilder::new();
    let x = Variable::global("x");
    let _ = x.generate(&mut b);
    let b2 = IrBuilder::new();
    assert_eq!(b2.build().len(), 0);
    x.emit(&mut b);
    x.bind(Variable::global("z")).emit(&mut b);
    let program = b.build();
    assert_eq!(program.len(), 2);
    assert_eq!(program[0], var(global("x"), Type::Nil));
    assert_eq!(program[1], node(Expr::Bind(global("x"), var(global("z"), Type::Nil)), Type::Nil));
}

#[test]
fn scopes_open_and_close() {
    let mut b = IrBuilder::new();
    b.record(0, "g".to_string(), TypeInfo::any());
    assert_eq!(b.lookup("g"), TypeInfo::any());
    b.scope_in();
    // the innermost scope is a new, empty one
    assert_eq!(b.lookup("g"), TypeInfo::nil());
    b.record(1, "g".to_string(), TypeInfo::new(Type::Float));
    assert_eq!(b.lookup("g"), TypeInfo::new(Type::Float));
    b.scope_out();
    assert_eq!(b.lookup("g"), TypeInfo::any());
}

#[test]
fn local_assignment_records_into_its_scope() {
    let mut b = IrBuilder::new();
    b.scope_in();
    let n = Variable::local("n", (1, 0));
    let _ = n.bind(Variable::global("v")).generate(&mut b);
    assert_eq!(n.generate(&mut b), var(local("n", 1, 0), Type::Any));
    b.scope_out();
    // the global scope was not touched
    assert_eq!(Variable::global("n").generate(&mut b), var(global("n"), Type::Nil));
}

#[test]
fn function_definition() {
    let square = Variable::global("square");
    let n = Variable::local("n", (1, 1));
    let body = (n * n).ret();
    let f = Function::new(square, vec!["n"], body);
    let mut b = IrBuilder::new();
    let generated = f.generate(&mut b);
    let body_node = node(
        Expr::Return(Some(node(
            Expr::Binary(var(local("n", 1, 1), Type::Nil), BinaryOp::Mul, var(local("n", 1, 1), Type::Nil)),
            Type::Nil,
        ))),
        Type::Any,
    );
    let expected = node(
        Expr::Function(IrFunction {
            var: global("square"),
            params: vec![local("n", 1, 1)],
            method: false,
            inner: vec![body_node],
        }),
        Type::Any,
    );
    assert_eq!(generated, expected);
    assert_eq!(f.type_info(&b), TypeInfo::nil());
}

#[test]
fn function_parameters_are_one_level_deeper() {
    let inner = Variable::local("inner", (2, 3));
    let f = Function::new(inner, vec!["a", "b"], Variable::global("a"));
    let mut b = IrBuilder::new();
    let generated = f.generate(&mut b);
    match *generated.inner {
        Expr::Function(ref func) => {
            assert_eq!(func.var, local("inner", 2, 3));
            assert_eq!(func.params, vec![local("a", 3, 4), local("b", 3, 4)]);
            assert!(!func.method);
        }
        _ => panic!("not a function"),
    }
}

#[test]
fn function_body_does_not_touch_enclosing_scopes() {
    let x = Variable::global("x");
    let body = x.bind(Variable::global("y"));
    let f = Function::new(Variable::global("f"), vec![], body);
    let mut b = IrBuilder::new();
    let first = f.generate(&mut b);
    assert_eq!(x.generate(&mut b), var(global("x"), Type::Nil));
    // the definition generates the same node in a builder in another state
    let mut b2 = IrBuilder::new();
    b2.record(0, "x".to_string(), TypeInfo::new(Type::Str));
    b2.scope_in();
    let second = f.generate(&mut b2);
    assert_eq!(first, second);
}

#[test]
fn conditional_generates_condition_last() {
    let x = Variable::global("x");
    let cond = x.if_true_do::<_, Variable>(x.bind(Variable::global("y"))).else_none();
    let mut b = IrBuilder::new();
    let generated = cond.generate(&mut b);
    let expected = node(
        Expr::If(
            // the condition sees the type recorded by the body
            var(global("x"), Type::Any),
            node(Expr::Bind(global("x"), var(global("y"), Type::Nil)), Type::Nil),
            vec![],
            None,
        ),
        Type::Nil,
    );
    assert_eq!(generated, expected);
}

#[test]
fn conditional_with_else_if_and_else() {
    let c = Variable::global("c");
    let d = Variable::global("d");
    let cond = c
        .if_true_do(Variable::global("a"))
        .else_if(d, Variable::global("b"))
        .else_do(Variable::global("e"));
    let mut b = IrBuilder::new();
    let generated = cond.generate(&mut b);
    let expected = node(
        Expr::If(
            var(global("c"), Type::Nil),
            var(global("a"), Type::Nil),
            vec![(var(global("d"), Type::Nil), var(global("b"), Type::Nil))],
            Some(var(global("e"), Type::Nil)),
        ),
        Type::Nil,
    );
    assert_eq!(generated, expected);
}

#[test]
fn conditional_type_info() {
    let b = IrBuilder::new();
    let c = Variable::global("c");
    // no else: the type of the if body
    let only_if = c.if_true_do::<_, Variable>(Variable::global("a"));
    assert_eq!(only_if.type_info(&b), TypeInfo::any());
    // equal types
    let same = c.if_true_do(Variable::global("a")).else_do(Variable::global("b"));
    assert_eq!(same.type_info(&b), TypeInfo::any());
    // different types: nil vs any gives any
    let differ = c.if_true_do(Variable::global("a").bind(c)).else_do(Variable::global("b"));
    assert_eq!(differ.type_info(&b), TypeInfo::any());
    // both nil
    let both_nil = c.if_true_do(Variable::global("a").bind(c)).else_do(Variable::global("b").bind(c));
    assert_eq!(both_nil.type_info(&b), TypeInfo::nil());
    // else_none removes the else body: back to the type of the if body
    let removed = c.if_true_do(Variable::global("a").bind(c)).else_do(Variable::global("b")).else_none();
    assert_eq!(removed.type_info(&b), TypeInfo::nil());
}

#[test]
fn while_loop_body_is_a_block() {
    let c = Variable::global("c");
    let w = c.while_true_do(vec![Variable::global("c").bind(Variable::global("d")).into_node()]);
    let mut b = IrBuilder::new();
    let generated = w.generate(&mut b);
    let block = node(
        Expr::Block(vec![node(Expr::Bind(global("c"), var(global("d"), Type::Nil)), Type::Nil)]),
        Type::Nil,
    );
    // the body was generated in a builder of its own: `c` is still untyped here
    assert_eq!(generated, node(Expr::While(var(global("c"), Type::Nil), block), Type::Nil));
    assert_eq!(w.type_info(&b), TypeInfo::nil());
}

#[test]
fn while_loop_body_of_several_statements_in_order() {
    let c = Variable::global("c");
    let x = Variable::global("x");
    let body = vec![
        x.bind(c).into_node(),
        // sees the type recorded by the statement before it
        x.into_node(),
        (x + c).into_node(),
    ];
    let w = c.while_true_do(body);
    let mut b = IrBuilder::new();
    let generated = w.generate(&mut b);
    let block = node(
        Expr::Block(vec![
            node(Expr::Bind(global("x"), var(global("c"), Type::Nil)), Type::Nil),
            var(global("x"), Type::Any),
            node(Expr::Binary(var(global("x"), Type::Any), BinaryOp::Add, var(global("c"), Type::Nil)), Type::Any),
        ]),
        Type::Nil,
    );
    assert_eq!(generated, node(Expr::While(var(global("c"), Type::Nil), block), Type::Nil));
    // the enclosing builder's scopes are not touched by the body
    assert_eq!(x.generate(&mut b), var(global("x"), Type::Nil));
    let erased = c.while_true_do(vec![x.bind(c).into_node(), x.into_node(), (x + c).into_node()]).into_node();
    assert_eq!(erased.generate(&mut IrBuilder::new()), generated);
}

#[test]
fn while_loop_with_empty_body() {
    let c = Variable::global("c");
    let w = c.while_true_do(vec![]);
    let generated = w.generate(&mut IrBuilder::new());
    assert_eq!(
        generated,
        node(Expr::While(var(global("c"), Type::Nil), node(Expr::Block(vec![]), Type::Nil)), Type::Nil)
    );
}

#[test]
fn else_if_arms_keep_their_order() {
    let c = Variable::global("c");
    let cond = c
        .if_true_do::<_, Variable>(Variable::global("t"))
        .else_if(Variable::global("a1"), Variable::global("b1"))
        .else_if(Variable::global("a2"), Variable::global("b2"));
    let generated = cond.generate(&mut IrBuilder::new());
    match *generated.inner {
        Expr::If(_, _, ref elifs, ref fl) => {
            assert_eq!(
                *elifs,
                vec![
                    (var(global("a1"), Type::Nil), var(global("b1"), Type::Nil)),
                    (var(global("a2"), Type::Nil), var(global("b2"), Type::Nil)),
                ]
            );
            assert!(fl.is_none());
        }
        _ => panic!("not a conditional"),
    }
}

#[test]
fn binary_operations() {
    let x = Variable::global("x");
    let y = Variable::global("y");
    let mut b = IrBuilder::new();
    let _ = x.bind(y).generate(&mut b);
    let ops: Vec<(ExprNode, BinaryOp)> = vec![
        ((x + y).generate(&mut b), BinaryOp::Add),
        ((x - y).generate(&mut b), BinaryOp::Sub),
        ((x * y).generate(&mut b), BinaryOp::Mul),
        ((x / y).generate(&mut b), BinaryOp::Div),
        ((x % y).generate(&mut b), BinaryOp::Rem),
        (x.equals(y).generate(&mut b), BinaryOp::Equal),
        (x.not_equals(y).generate(&mut b), BinaryOp::NEqual),
        (x.lt(y).generate(&mut b), BinaryOp::Lt),
        (x.lte(y).generate(&mut b), BinaryOp::LtEqual),
        (x.gt(y).generate(&mut b), BinaryOp::Gt),
        (x.gte(y).generate(&mut b), BinaryOp::GtEqual),
        (x.and(y).generate(&mut b), BinaryOp::And),
        (x.or(y).generate(&mut b), BinaryOp::Or),
    ];
    for (n, op) in ops {
        // the operation carries the type of its generated left operand
        let expected = node(
            Expr::Binary(var(global("x"), Type::Any), op, var(global("y"), Type::Nil)),
            Type::Any,
        );
        assert_eq!(n, expected);
    }
}

#[test]
fn chained_operations() {
    let x = Variable::global("x");
    let y = Variable::global("y");
    let chained = (x + y).lt(y) * x;
    let mut b = IrBuilder::new();
    let n = chained.generate(&mut b);
    let sum = node(Expr::Binary(var(global("x"), Type::Nil), BinaryOp::Add, var(global("y"), Type::Nil)), Type::Nil);
    let lt = node(Expr::Binary(sum, BinaryOp::Lt, var(global("y"), Type::Nil)), Type::Nil);
    assert_eq!(n, node(Expr::Binary(lt, BinaryOp::Mul, var(global("x"), Type::Nil)), Type::Nil));
    assert_eq!(chained.type_info(&b), TypeInfo::any());
}

#[test]
fn call_with_arguments() {
    let f = Variable::global("f");
    let a = Variable::global("a");
    let call = f.call(vec![a.bind(f).into_node(), a.into_node()]);
    let mut b = IrBuilder::new();
    let n = call.generate(&mut b);
    let expected = node(
        Expr::Call(
            var(global("f"), Type::Nil),
            vec![
                node(Expr::Bind(global("a"), var(global("f"), Type::Nil)), Type::Nil),
                // the second argument sees the type recorded by the first
                var(global("a"), Type::Any),
            ],
        ),
        Type::Any,
    );
    assert_eq!(n, expected);
    assert_eq!(call.type_info(&b), TypeInfo::any());
    let same = Call::new(f, vec![]).generate(&mut IrBuilder::new());
    assert_eq!(same, node(Expr::Call(var(global("f"), Type::Nil), vec![]), Type::Any));
}

#[test]
fn call_operators() {
    let f = Variable::global("f");
    let g = Variable::global("g");
    let n = (f.call(vec![]) + g).generate(&mut IrBuilder::new());
    let call = node(Expr::Call(var(global("f"), Type::Nil), vec![]), Type::Any);
    assert_eq!(n, node(Expr::Binary(call, BinaryOp::Add, var(global("g"), Type::Nil)), Type::Any));
    let m = f.call(vec![]).gte(g).generate(&mut IrBuilder::new());
    let call = node(Expr::Call(var(global("f"), Type::Nil), vec![]), Type::Any);
    assert_eq!(m, node(Expr::Binary(call, BinaryOp::GtEqual, var(global("g"), Type::Nil)), Type::Any));
}

#[test]
fn return_carries_type_of_value() {
    let r = Return::new(Variable::global("v"));
    let mut b = IrBuilder::new();
    assert_eq!(r.generate(&mut b), node(Expr::Return(Some(var(global("v"), Type::Nil))), Type::Any));
    assert_eq!(r.type_info(&b), TypeInfo::any());
    let r2 = Variable::global("v").bind(Variable::global("w")).ret();
    assert_eq!(r2.type_info(&b), TypeInfo::nil());
}

#[test]
fn element_access() {
    let o = Variable::global("o");
    let i = Variable::global("i");
    let v = Variable::global("v");
    let mut b = IrBuilder::new();
    let get = o.get_element(i);
    assert_eq!(
        get.generate(&mut b),
        node(Expr::GetElement(var(global("o"), Type::Nil), var(global("i"), Type::Nil)), Type::Any)
    );
    assert_eq!(get.type_info(&b), TypeInfo::any());
    let set = o.set_element(i, v);
    assert_eq!(
        set.generate(&mut b),
        node(
            Expr::SetElement(var(global("o"), Type::Nil), var(global("i"), Type::Nil), var(global("v"), Type::Nil)),
            Type::Any
        )
    );
    assert_eq!(set.type_info(&b), TypeInfo::nil());
}

#[test]
fn forgetting_the_type_keeps_the_meaning() {
    let x = Variable::global("x");
    let y = Variable::global("y");
    let make = || x.if_true_do(x.bind(y)).else_if(y, x * y).else_do(Return::new(y));
    let direct = make().generate(&mut IrBuilder::new());
    let erased: Node = make().into_node();
    assert_eq!(erased.generate(&mut IrBuilder::new()), direct);
    assert_eq!(erased.type_info(&IrBuilder::new()), make().type_info(&IrBuilder::new()));
    let f = Function::new(Variable::global("f"), vec!["p"], Variable::local("p", (1, 1)).ret());
    let direct_f = f.generate(&mut IrBuilder::new());
    let f2 = Function::new(Variable::global("f"), vec!["p"], Variable::local("p", (1, 1)).ret());
    assert_eq!(f2.into_node().generate(&mut IrBuilder::new()), direct_f);
}

#[test]
fn type_info_helpers() {
    assert_eq!(TypeInfo::nil().kind(), Type::Nil);
    assert_eq!(TypeInfo::any().kind(), Type::Any);
    assert!(TypeInfo::new(Type::Float).is_numerical());
    assert!(!TypeInfo::new(Type::Str).is_numerical());
    assert!(!TypeInfo::any().is_numerical());
}

#[test]
fn binary_keeps_left_type() {
    let b = IrBuilder::new();
    let l = var(global("l"), Type::Float);
    let r = var(global("r"), Type::Str);
    let n = b.binary(l, BinaryOp::Sub, r);
    assert_eq!(n.type_info, TypeInfo::new(Type::Float));
}

#[test]
fn boxed_keeps_value() {
    let x = Variable::global("x");
    let bx = x.boxed();
    assert_eq!(bx.binding(), global("x"));
}

#[test]
fn debug_text_of_variables_and_assignments() {
    let x = Variable::global("x");
    let y = Variable::local("y", (1, 2));
    assert_eq!(x.debug_text(), "x");
    assert_eq!(y.debug_text(), "y");
    assert_eq!(x.bind(y).debug_text(), "Assignement { variable: x, value: y }");
}

#[test]
fn debug_text_of_calls_and_returns() {
    let f = Variable::global("f");
    let a = Variable::global("a");
    let b = Variable::global("b");
    assert_eq!(f.call(vec![]).debug_text(), "Call { callee: f, args: [] }");
    let call = f.call(vec![a.into_node(), (a + b).into_node()]);
    assert_eq!(call.debug_text(), "Call { callee: f, args: [a, a + b] }");
    assert_eq!(Return::new(a).debug_text(), "Return { value: a }");
    assert_eq!(a.ret().into_node().debug_text(), "Return { value: a }");
}

#[test]
fn debug_text_of_functions_quotes_parameter_names() {
    let f = Function::new(Variable::global("f"), vec!["a", "b"], Variable::global("a").ret());
    assert_eq!(f.debug_text(), "Function { variable: f, args: [\"a\", \"b\"], function: \"<...>\" }");
    let odd = Function::new(Variable::global("g"), vec!["q\"uote", "back\\slash"], Variable::global("a"));
    let expected = format!(
        "Function {{ variable: g, args: [{:?}, {:?}], function: \"<...>\" }}",
        "q\"uote", "back\\slash"
    );
    assert_eq!(odd.debug_text(), expected);
    assert_eq!(odd.debug_text(), "Function { variable: g, args: [\"q\\\"uote\", \"back\\\\slash\"], function: \"<...>\" }");
    let none = Function::new(Variable::global("h"), vec![], Variable::global("a"));
    assert_eq!(none.debug_text(), "Function { variable: h, args: [], function: \"<...>\" }");
    assert_eq!(none.into_node().debug_text(), "Function { variable: h, args: [], function: \"<...>\" }");
}

#[test]
fn debug_text_of_conditionals_and_loops() {
    let c = Variable::global("c");
    let cond = c.if_true_do(Variable::global("a")).else_do(Variable::global("b"));
    assert_eq!(
        cond.debug_text(),
        "Conditional { condition: \"<...>\", if_true: \"{...}\", if_false: \"{...}?\" }"
    );
    let w = c.lt(Variable::global("n")).while_true_do(vec![Variable::global("a").into_node()]);
    assert_eq!(w.debug_text(), "while c < n { ... }");
}

#[test]
fn debug_text_of_operations_and_elements() {
    let x = Variable::global("x");
    let y = Variable::global("y");
    assert_eq!((x + y).debug_text(), "x + y");
    assert_eq!((x + y).lt(y).debug_text(), "x + y < y");
    assert_eq!(x.not_equals(y).debug_text(), "x != y");
    assert_eq!(x.and(y).or(x).debug_text(), "x and y or x");
    assert_eq!(x.get_element(y).debug_text(), "GetElement { object: x, index: y }");
    assert_eq!(x.set_element(y, x).debug_text(), "SetElement { object: x, index: y, value: x }");
}

#[test]
fn operator_symbols() {
    let all = [
        (BinaryOp::Add, "+"),
        (BinaryOp::Sub, "-"),
        (BinaryOp::Mul, "*"),
        (BinaryOp::Div, "/"),
        (BinaryOp::Rem, "%"),
        (BinaryOp::Equal, "=="),
        (BinaryOp::NEqual, "!="),
        (BinaryOp::Lt, "<"),
        (BinaryOp::LtEqual, "<="),
        (BinaryOp::Gt, ">"),
        (BinaryOp::GtEqual, ">="),
        (BinaryOp::And, "and"),
        (BinaryOp::Or, "or"),
    ];
    for (op, sym) in all {
        assert_eq!(op.as_symbol(), sym);
    }
    assert_eq!(Type::Float.name(), "Float");
    assert_eq!(Type::Any.name(), "Any");
}

#[test]
fn operand_warning_for_non_numerical_operands() {
    let x = Variable::global("x");
    let y = Variable::global("y");
    let b = IrBuilder::new();
    assert_eq!(
        (x * y).operand_warning(&b),
        Some("Trying to apply '*' on types of Any and Any => x * y".to_string())
    );
    let nested = x.bind(y).call(vec![]).equals(x);
    assert_eq!(
        nested.operand_warning(&b),
        Some(
            "Trying to apply '==' on types of Nil and Any => Call { callee: Assignement { variable: x, value: y }, args: [] } == x"
                .to_string()
        )
    );
}
