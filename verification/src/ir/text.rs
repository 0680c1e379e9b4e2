//! The debugging text of the builders: what each of them prints.

use vstd::prelude::*;
use crate::ir::{BinaryOp, Type};
use crate::ir::semantics::Ast;

verus! {

/// The symbol that an operator is written with.
pub open spec fn symbol_of(op: BinaryOp) -> Seq<char> {
    match op {
        BinaryOp::Add => "+"@,
        BinaryOp::Sub => "-"@,
        BinaryOp::Mul => "*"@,
        BinaryOp::Div => "/"@,
        BinaryOp::Rem => "%"@,
        BinaryOp::Equal => "=="@,
        BinaryOp::NEqual => "!="@,
        BinaryOp::Lt => "<"@,
        BinaryOp::LtEqual => "<="@,
        BinaryOp::Gt => ">"@,
        BinaryOp::GtEqual => ">="@,
        BinaryOp::And => "and"@,
        BinaryOp::Or => "or"@,
    }
}

impl BinaryOp {
    /// The symbol this operator is written with.
    pub fn as_symbol(&self) -> (s: &'static str)
        ensures
            s@ == symbol_of(*self),
    {
        match self {
            BinaryOp::Add => "+",
            BinaryOp::Sub => "-",
            BinaryOp::Mul => "*",
            BinaryOp::Div => "/",
            BinaryOp::Rem => "%",
            BinaryOp::Equal => "==",
            BinaryOp::NEqual => "!=",
            BinaryOp::Lt => "<",
            BinaryOp::LtEqual => "<=",
            BinaryOp::Gt => ">",
            BinaryOp::GtEqual => ">=",
            BinaryOp::And => "and",
            BinaryOp::Or => "or",
        }
    }
}

/// The name of a kind of type.
pub open spec fn kind_name(t: Type) -> Seq<char> {
    match t {
        Type::Float => "Float"@,
        Type::Bool => "Bool"@,
        Type::Str => "Str"@,
        Type::Nil => "Nil"@,
        Type::Any => "Any"@,
    }
}

impl Type {
    /// The name of this kind of type.
    pub fn name(&self) -> (s: &'static str)
        ensures
            s@ == kind_name(*self),
    {
        match self {
            Type::Float => "Float",
            Type::Bool => "Bool",
            Type::Str => "Str",
            Type::Nil => "Nil",
            Type::Any => "Any",
        }
    }
}

/// The debugging text of a string: quoted, with its special characters escaped.
pub uninterp spec fn debug_quoted(s: Seq<char>) -> Seq<char>;

/// The debugging text of `s`, as `format!("{:?}", s)` gives it (std's `Debug`
/// for `str`): between double quotes, with the characters that `char::escape_debug`
/// escapes escaped. The escaping rules are not restated here; the result
/// is only named, as a function of `s`.
#[verifier::external_body]
fn debug_quote(s: &str) -> (q: String)
    ensures
        q@ == debug_quoted(s@),
{
    format!("{:?}", s)
}

/// The texts of a sequence of trees, separated by `", "`.
pub open spec fn joined_texts(xs: Seq<Ast>) -> Seq<char>
    decreases xs,
{
    if xs.len() == 0 {
        Seq::empty()
    } else if xs.len() == 1 {
        ast_text(xs[0])
    } else {
        joined_texts(xs.subrange(0, xs.len() - 1)) + ", "@ + ast_text(xs[xs.len() - 1])
    }
}

/// The debugging texts of a sequence of names, separated by `", "`.
pub open spec fn joined_quoted(names: Seq<Seq<char>>) -> Seq<char>
    decreases names.len(),
{
    if names.len() == 0 {
        Seq::empty()
    } else if names.len() == 1 {
        debug_quoted(names[0])
    } else {
        joined_quoted(names.subrange(0, names.len() - 1)) + ", "@ + debug_quoted(
            names[names.len() - 1],
        )
    }
}

/// The debugging text of the value that a tree stands for.
pub open spec fn ast_text(a: Ast) -> Seq<char>
    decreases a,
{
    match a {
        Ast::Variable(v) => v.name,
        Ast::Assignement(v, value) => "Assignement { variable: "@ + v.name + ", value: "@
            + ast_text(*value) + " }"@,
        Ast::Call(callee, args) => "Call { callee: "@ + ast_text(*callee) + ", args: ["@
            + joined_texts(args) + "] }"@,
        Ast::Return(value) => "Return { value: "@ + ast_text(*value) + " }"@,
        Ast::Function(v, params, _) => "Function { variable: "@ + v.name + ", args: ["@
            + joined_quoted(params) + "], function: \"<...>\" }"@,
        Ast::Conditional(_, _, _, _) =>
            "Conditional { condition: \"<...>\", if_true: \"{...}\", if_false: \"{...}?\" }"@,
        Ast::WhileLoop(condition, _) => "while "@ + ast_text(*condition) + " { ... }"@,
        Ast::BinaryOperation(lhs, op, rhs) => ast_text(*lhs) + " "@ + symbol_of(op) + " "@
            + ast_text(*rhs),
        Ast::GetElement(object, index) => "GetElement { object: "@ + ast_text(*object)
            + ", index: "@ + ast_text(*index) + " }"@,
        Ast::SetElement(object, index, value) => "SetElement { object: "@ + ast_text(*object)
            + ", index: "@ + ast_text(*index) + ", value: "@ + ast_text(*value) + " }"@,
    }
}

/// The warning about a binary operation on operands whose types are not
/// both numerical.
pub open spec fn operand_warning_text(lhs: Ast, op: BinaryOp, rhs: Ast, lhs_kind: Type, rhs_kind: Type) -> Seq<char> {
    "Trying to apply '"@ + symbol_of(op) + "' on types of "@ + kind_name(lhs_kind) + " and "@
        + kind_name(rhs_kind) + " => "@ + ast_text(lhs) + " "@ + symbol_of(op) + " "@ + ast_text(rhs)
}

/// The debugging texts of `names`, separated by `", "`.
pub fn quoted_names(names: &Vec<String>) -> (s: String)
    ensures
        s@ == joined_quoted(Seq::new(names@.len(), |i: int| names@[i]@)),
{
    let ghost all = Seq::new(names@.len(), |i: int| names@[i]@);
    let mut s = String::new();
    let mut i: usize = 0;
    while i < names.len()
        invariant
            i <= names.len(),
            all == Seq::new(names@.len(), |i: int| names@[i]@),
            s@ == joined_quoted(all.take(i as int)),
        decreases names.len() - i,
    {
        proof {
            assert(all.take(i + 1).subrange(0, i as int) =~= all.take(i as int));
        }
        if i != 0 {
            s.append(", ");
        }
        let q = debug_quote(names[i].as_str());
        s.append(q.as_str());
        proof {
            if i == 0 {
                assert(s@ =~= joined_quoted(all.take(1)));
            }
        }
        i += 1;
    }
    proof {
        assert(all.take(names@.len() as int) =~= all);
    }
    s
}

} // verus!
