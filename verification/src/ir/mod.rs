//! The intermediate representation that the builders of `v2` produce, and
//! the `IrBuilder` that collects a program and tracks the types that
//! assignments record in each lexical scope.

use vstd::prelude::*;
use vstd::hash_map::StringHashMap;

pub mod v2;
pub mod semantics;
pub mod laws;
pub mod text;

verus! {

/// The kind of value an expression is known to produce.
#[derive(Clone, Copy, Debug, PartialEq, Eq, Structural)]
pub enum Type {
    Float,
    Bool,
    Str,
    Nil,
    Any,
}

/// Type information attached to every IR node.
#[derive(Clone, Copy, Debug, PartialEq, Eq, Structural)]
pub struct TypeInfo {
    pub kind: Type,
}

impl TypeInfo {
    /// The type of expressions that produce no value.
    pub fn nil() -> (t: TypeInfo)
        ensures
            t == (TypeInfo { kind: Type::Nil }),
    {
        TypeInfo { kind: Type::Nil }
    }

    /// The type of expressions about which nothing is known.
    pub fn any() -> (t: TypeInfo)
        ensures
            t == (TypeInfo { kind: Type::Any }),
    {
        TypeInfo { kind: Type::Any }
    }

    pub fn new(kind: Type) -> (t: TypeInfo)
        ensures
            t.kind == kind,
    {
        TypeInfo { kind }
    }

    pub fn kind(&self) -> (k: Type)
        ensures
            k == self.kind,
    {
        self.kind
    }

    /// Whether values of this type take part in arithmetic.
    pub fn is_numerical(&self) -> (b: bool)
        ensures
            b == (self.kind == Type::Float),
    {
        match self.kind {
            Type::Float => true,
            _ => false,
        }
    }
}

pub open spec fn nil_type() -> TypeInfo {
    TypeInfo { kind: Type::Nil }
}

pub open spec fn any_type() -> TypeInfo {
    TypeInfo { kind: Type::Any }
}

/// Binary operators of the IR.
#[derive(Clone, Copy, Debug, PartialEq, Eq, Structural)]
pub enum BinaryOp {
    Add,
    Sub,
    Mul,
    Div,
    Rem,
    Equal,
    NEqual,
    Lt,
    LtEqual,
    Gt,
    GtEqual,
    And,
    Or,
}

/// Where a name lives: a global (`depth == None`), or a local declared
/// `depth` scopes deep inside `function_depth` nested functions.
#[derive(Debug, PartialEq)]
pub struct Binding {
    pub name: String,
    pub depth: Option<usize>,
    pub function_depth: usize,
}

/// The mathematical content of a `Binding`.
pub struct BindingView {
    pub name: Seq<char>,
    pub depth: Option<usize>,
    pub function_depth: usize,
}

impl View for Binding {
    type V = BindingView;

    open spec fn view(&self) -> BindingView {
        BindingView { name: self.name@, depth: self.depth, function_depth: self.function_depth }
    }
}

impl Binding {
    pub fn global(name: &str) -> (b: Binding)
        ensures
            b@ == (BindingView { name: name@, depth: None, function_depth: 0 }),
    {
        Binding { name: name.to_owned(), depth: None, function_depth: 0 }
    }

    pub fn local(name: &str, depth: usize, function_depth: usize) -> (b: Binding)
        ensures
            b@ == (BindingView { name: name@, depth: Some(depth), function_depth }),
    {
        Binding { name: name.to_owned(), depth: Some(depth), function_depth }
    }

    pub fn name(&self) -> (n: &str)
        ensures
            n@ == self.name@,
    {
        self.name.as_str()
    }
}

/// The index of the type scope that an assignment to `b` records into.
pub open spec fn scope_index(b: BindingView) -> int {
    match b.depth {
        Some(d) => d + b.function_depth,
        None => b.function_depth as int,
    }
}

/// A node of the IR: an expression together with its type information.
#[derive(Debug, PartialEq)]
pub struct ExprNode {
    pub inner: Box<Expr>,
    pub type_info: TypeInfo,
}

/// The expressions of the IR.
#[derive(Debug, PartialEq)]
pub enum Expr {
    Var(Binding),
    Bind(Binding, ExprNode),
    Call(ExprNode, Vec<ExprNode>),
    Return(Option<ExprNode>),
    Function(IrFunction),
    If(ExprNode, ExprNode, Vec<(ExprNode, ExprNode)>, Option<ExprNode>),
    While(ExprNode, ExprNode),
    Block(Vec<ExprNode>),
    Binary(ExprNode, BinaryOp, ExprNode),
    GetElement(ExprNode, ExprNode),
    SetElement(ExprNode, ExprNode, ExprNode),
}

/// A function definition: the name it is bound to, its parameters and its body.
#[derive(Debug, PartialEq)]
pub struct IrFunction {
    pub var: Binding,
    pub params: Vec<Binding>,
    pub method: bool,
    pub inner: Vec<ExprNode>,
}

impl Expr {
    /// Attaches type information to an expression.
    pub fn node(self, type_info: TypeInfo) -> (n: ExprNode)
        ensures
            *n.inner == self,
            n.type_info == type_info,
    {
        ExprNode { inner: Box::new(self), type_info }
    }
}

/// The mathematical content of an `ExprNode`.
pub struct IrNode {
    pub expr: Ir,
    pub type_info: TypeInfo,
}

/// The mathematical content of an `Expr`.
pub enum Ir {
    Var(BindingView),
    Bind(BindingView, Box<IrNode>),
    Call(Box<IrNode>, Seq<IrNode>),
    Return(Option<Box<IrNode>>),
    Function(BindingView, Seq<BindingView>, bool, Seq<IrNode>),
    If(Box<IrNode>, Box<IrNode>, Seq<(IrNode, IrNode)>, Option<Box<IrNode>>),
    While(Box<IrNode>, Box<IrNode>),
    Block(Seq<IrNode>),
    Binary(Box<IrNode>, BinaryOp, Box<IrNode>),
    GetElement(Box<IrNode>, Box<IrNode>),
    SetElement(Box<IrNode>, Box<IrNode>, Box<IrNode>),
}

pub open spec fn node_view(n: ExprNode) -> IrNode
    decreases n,
{
    let expr = match *n.inner {
        Expr::Var(b) => Ir::Var(b@),
        Expr::Bind(b, v) => Ir::Bind(b@, Box::new(node_view(v))),
        Expr::Call(c, args) => Ir::Call(
            Box::new(node_view(c)),
            Seq::new(
                args@.len(),
                |i: int|
                    if 0 <= i < args@.len() {
                        node_view(args@[i])
                    } else {
                        arbitrary()
                    },
            ),
        ),
        Expr::Return(v) => Ir::Return(
            match v {
                Some(x) => Some(Box::new(node_view(x))),
                None => None,
            },
        ),
        Expr::Function(f) => Ir::Function(
            f.var@,
            Seq::new(f.params@.len(), |i: int| f.params@[i]@),
            f.method,
            Seq::new(
                f.inner@.len(),
                |i: int|
                    if 0 <= i < f.inner@.len() {
                        node_view(f.inner@[i])
                    } else {
                        arbitrary()
                    },
            ),
        ),
        Expr::If(c, t, elifs, e) => Ir::If(
            Box::new(node_view(c)),
            Box::new(node_view(t)),
            Seq::new(
                elifs@.len(),
                |i: int|
                    if 0 <= i < elifs@.len() {
                        (node_view(elifs@[i].0), node_view(elifs@[i].1))
                    } else {
                        arbitrary()
                    },
            ),
            match e {
                Some(x) => Some(Box::new(node_view(x))),
                None => None,
            },
        ),
        Expr::While(c, b) => Ir::While(Box::new(node_view(c)), Box::new(node_view(b))),
        Expr::Block(body) => Ir::Block(
            Seq::new(
                body@.len(),
                |i: int|
                    if 0 <= i < body@.len() {
                        node_view(body@[i])
                    } else {
                        arbitrary()
                    },
            ),
        ),
        Expr::Binary(l, op, r) => Ir::Binary(Box::new(node_view(l)), op, Box::new(node_view(r))),
        Expr::GetElement(o, i) => Ir::GetElement(Box::new(node_view(o)), Box::new(node_view(i))),
        Expr::SetElement(o, i, v) => Ir::SetElement(
            Box::new(node_view(o)),
            Box::new(node_view(i)),
            Box::new(node_view(v)),
        ),
    };
    IrNode { expr, type_info: n.type_info }
}

impl View for ExprNode {
    type V = IrNode;

    open spec fn view(&self) -> IrNode {
        node_view(*self)
    }
}

/// The views of a sequence of nodes, element by element.
pub open spec fn views(ns: Seq<ExprNode>) -> Seq<IrNode> {
    Seq::new(ns.len(), |i: int| ns[i]@)
}

/// The views of a sequence of node pairs, element by element.
pub open spec fn pair_views(ns: Seq<(ExprNode, ExprNode)>) -> Seq<(IrNode, IrNode)> {
    Seq::new(ns.len(), |i: int| (ns[i].0@, ns[i].1@))
}

/// What an `IrBuilder` holds: the program emitted so far and a stack of
/// scopes, each mapping names to the type last recorded for them.
pub struct BuilderView {
    pub program: Seq<IrNode>,
    pub scopes: Seq<Map<Seq<char>, TypeInfo>>,
}

/// Collects a program of IR nodes and the types recorded per scope: the
/// global scope, then the local scopes from outermost to innermost.
pub struct IrBuilder {
    pub(crate) program: Vec<ExprNode>,
    pub(crate) globals: StringHashMap<TypeInfo>,
    pub(crate) locals: Vec<StringHashMap<TypeInfo>>,
}

impl View for IrBuilder {
    type V = BuilderView;

    closed spec fn view(&self) -> BuilderView {
        BuilderView {
            program: views(self.program@),
            scopes: seq![self.globals@] + Seq::new(self.locals@.len(), |i: int| self.locals@[i]@),
        }
    }
}

impl IrBuilder {
    /// A builder with an empty program and a single, empty, global scope.
    pub fn new() -> (b: IrBuilder)
        ensures
            b@.program == Seq::<IrNode>::empty(),
            b@.scopes == seq![Map::<Seq<char>, TypeInfo>::empty()],
    {
        let b = IrBuilder { program: Vec::new(), globals: StringHashMap::new(), locals: Vec::new() };
        assert(b@.scopes =~= seq![Map::<Seq<char>, TypeInfo>::empty()]);
        assert(b@.program =~= Seq::<IrNode>::empty());
        b
    }

    /// Every builder has the global scope, and its scopes can be counted
    /// in a `usize` after the global one.
    pub proof fn lemma_scope_count(&self)
        ensures
            1 <= self@.scopes.len() <= usize::MAX + 1,
    {
        assert(self.locals@.len() == self.locals.len());
    }

    /// Opens a new, empty, innermost scope.
    pub fn scope_in(&mut self)
        ensures
            final(self)@.program == old(self)@.program,
            final(self)@.scopes == old(self)@.scopes.push(Map::<Seq<char>, TypeInfo>::empty()),
    {
        self.locals.push(StringHashMap::new());
        assert(self@.scopes =~= old(self)@.scopes.push(Map::<Seq<char>, TypeInfo>::empty()));
    }

    /// Closes the innermost scope; the global scope is never closed.
    pub fn scope_out(&mut self)
        requires
            old(self)@.scopes.len() >= 2,
        ensures
            final(self)@.program == old(self)@.program,
            final(self)@.scopes == old(self)@.scopes.drop_last(),
    {
        let _ = self.locals.pop();
        assert(self@.scopes =~= old(self)@.scopes.drop_last());
    }

    /// Hands out the program emitted so far.
    pub fn build(self) -> (program: Vec<ExprNode>)
        ensures
            views(program@) == self@.program,
    {
        self.program
    }

    /// A binary operation on two generated operands; it carries the type of
    /// its left operand.
    pub fn binary(&self, lhs: ExprNode, op: BinaryOp, rhs: ExprNode) -> (n: ExprNode)
        ensures
            n@ == (IrNode {
                expr: Ir::Binary(Box::new(lhs@), op, Box::new(rhs@)),
                type_info: lhs.type_info,
            }),
    {
        let type_info = lhs.type_info;
        Expr::Binary(lhs, op, rhs).node(type_info)
    }

    /// Appends a node to the program.
    pub fn push(&mut self, node: ExprNode)
        ensures
            final(self)@.program == old(self)@.program.push(node@),
            final(self)@.scopes == old(self)@.scopes,
    {
        self.program.push(node);
        assert(self@.program =~= old(self)@.program.push(node@));
        assert(self@.scopes =~= old(self)@.scopes);
    }

    /// The type recorded for `name` in the innermost scope, or `nil` when
    /// none is recorded there.
    pub fn lookup(&self, name: &str) -> (t: TypeInfo)
        ensures
            t == lookup_type(self@.scopes, name@),
    {
        let n: usize = self.locals.len();
        let found = if n == 0 {
            self.globals.get(name)
        } else {
            self.locals[n - 1].get(name)
        };
        match found {
            Some(t) => *t,
            None => TypeInfo::nil(),
        }
    }

    /// Records `type_info` for `name` in the scope at `index` (0 is the
    /// global scope).
    pub fn record(&mut self, index: usize, name: String, type_info: TypeInfo)
        requires
            index < old(self)@.scopes.len(),
        ensures
            final(self)@.program == old(self)@.program,
            final(self)@.scopes == old(self)@.scopes.update(
                index as int,
                old(self)@.scopes[index as int].insert(name@, type_info),
            ),
    {
        if index == 0 {
            self.globals.insert(name, type_info);
        } else {
            self.locals[index - 1].insert(name, type_info);
        }
        assert(self@.scopes =~= old(self)@.scopes.update(
            index as int,
            old(self)@.scopes[index as int].insert(name@, type_info),
        ));
    }
}

/// The type recorded for `name` in the innermost of `scopes`, `nil` when none is.
pub open spec fn lookup_type(scopes: Seq<Map<Seq<char>, TypeInfo>>, name: Seq<char>) -> TypeInfo {
    if scopes.last().contains_key(name) {
        scopes.last()[name]
    } else {
        nil_type()
    }
}

} // verus!
