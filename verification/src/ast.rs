//! The program as pools of nodes: expressions, statements, functions, and
//! the places of the nodes in the source text.

use crate::interner::Interner;
use crate::symbol::Symbol;
use crate::type_checker::error::SourceLocation;
use crate::type_decl::{option_view, Ty, TypeDecl};
use std::rc::Rc;
use vstd::prelude::*;

verus! {

/// The most nodes a pool takes: a ref is a 32-bit index.
pub const MAX_NODES: usize = 0xffff_ffff;

/// The index of an expression in its pool.
#[derive(Clone, Copy, Debug, PartialEq, Eq, Structural, Hash)]
pub struct ExprRef(pub u32);

/// The index of a statement in its pool.
#[derive(Clone, Copy, Debug, PartialEq, Eq, Structural, Hash)]
pub struct StmtRef(pub u32);

impl ExprRef {
    /// The index into the expression pool.
    pub fn to_index(&self) -> (index: usize)
        ensures
            index == self.0,
    {
        self.0 as usize
    }
}

impl StmtRef {
    /// The index into the statement pool.
    pub fn to_index(&self) -> (index: usize)
        ensures
            index == self.0,
    {
        self.0 as usize
    }
}

/// A binary operator.
#[derive(Clone, Copy, Debug, PartialEq, Eq, Structural)]
pub enum Operator {
    IAdd,
    ISub,
    IMul,
    IDiv,
    EQ,
    NE,
    LT,
    LE,
    GT,
    GE,
    LogicalAnd,
    LogicalOr,
}

/// An expression; its parts are refs into the pools.
#[derive(Debug)]
pub enum Expr {
    Assign(ExprRef, ExprRef),
    /// Condition, then-block, the `elif` pairs of condition and block, else-block.
    IfElifElse(ExprRef, ExprRef, Vec<(ExprRef, ExprRef)>, ExprRef),
    Binary(Operator, ExprRef, ExprRef),
    Block(Vec<StmtRef>),
    True,
    False,
    Int64(i64),
    UInt64(u64),
    /// An integer literal without a suffix: its digits, interned.
    Number(Symbol),
    Identifier(Symbol),
    Null,
    ExprList(Vec<ExprRef>),
    /// The function's name and the `ExprList` of its arguments.
    Call(Symbol, ExprRef),
    String(Symbol),
    ArrayLiteral(Vec<ExprRef>),
    ArrayAccess(ExprRef, ExprRef),
    FieldAccess(ExprRef, Symbol),
    MethodCall(ExprRef, Symbol, Vec<ExprRef>),
    StructLiteral(Symbol, Vec<(Symbol, ExprRef)>),
}

/// A field of a struct declaration.
#[derive(Debug)]
pub struct StructField {
    pub name: String,
    pub type_decl: TypeDecl,
}

/// A function: its body is the statement `code`, an expression statement
/// that holds a block.
#[derive(Debug)]
pub struct Function {
    pub name: Symbol,
    pub parameter: Vec<(Symbol, TypeDecl)>,
    pub return_type: Option<TypeDecl>,
    pub code: StmtRef,
}

/// A method of an `impl` block; `has_self_param` says whether it binds its
/// receiver as `self`.
#[derive(Debug)]
pub struct MethodFunction {
    pub name: Symbol,
    pub parameter: Vec<(Symbol, TypeDecl)>,
    pub return_type: Option<TypeDecl>,
    pub code: StmtRef,
    pub has_self_param: bool,
}

/// A statement.
#[derive(Debug)]
pub enum Stmt {
    Expression(ExprRef),
    Val(Symbol, Option<TypeDecl>, ExprRef),
    Var(Symbol, Option<TypeDecl>, Option<ExprRef>),
    Return(Option<ExprRef>),
    Break,
    Continue,
    /// The loop variable, the first value, the bound, the body.
    For(Symbol, ExprRef, ExprRef, ExprRef),
    While(ExprRef, ExprRef),
    StructDecl { name: String, fields: Vec<StructField> },
    ImplBlock { target_type: String, methods: Vec<Rc<MethodFunction>> },
}

/// The expressions of a program, addressed by `ExprRef`.
#[derive(Debug)]
pub struct ExprPool(pub Vec<Expr>);

/// The statements of a program, addressed by `StmtRef`.
#[derive(Debug)]
pub struct StmtPool(pub Vec<Stmt>);

impl View for ExprPool {
    type V = Seq<Expr>;

    open spec fn view(&self) -> Seq<Expr> {
        self.0@
    }
}

impl View for StmtPool {
    type V = Seq<Stmt>;

    open spec fn view(&self) -> Seq<Stmt> {
        self.0@
    }
}

impl ExprPool {
    /// A pool without a node.
    pub fn new() -> (pool: ExprPool)
        ensures
            pool@ == Seq::<Expr>::empty(),
    {
        ExprPool(Vec::new())
    }

    /// The number of nodes.
    pub fn len(&self) -> (n: usize)
        ensures
            n == self@.len(),
    {
        self.0.len()
    }

    /// Appends `expr` and returns its ref. The nodes before it stay where
    /// they are.
    pub fn add(&mut self, expr: Expr) -> (r: ExprRef)
        requires
            old(self)@.len() < MAX_NODES,
        ensures
            final(self)@ == old(self)@.push(expr),
            r.0 == old(self)@.len(),
    {
        let index = self.0.len();
        self.0.push(expr);
        ExprRef(index as u32)
    }

    /// The node at `index`, if there is one.
    pub fn get(&self, index: usize) -> (expr: Option<&Expr>)
        ensures
            expr == if index < self@.len() {
                Some(&self@[index as int])
            } else {
                None
            },
    {
        if index < self.0.len() {
            Some(&self.0[index])
        } else {
            None
        }
    }

    /// The node at `index`, to be changed in place; every other node, and
    /// the pool's length, stay as they are.
    pub fn get_mut(&mut self, index: usize) -> (expr: Option<&mut Expr>)
        ensures
            match expr {
                Some(node) => {
                    &&& index < old(self)@.len()
                    &&& *node == old(self)@[index as int]
                    &&& final(self)@ == old(self)@.update(index as int, *final(node))
                },
                None => index >= old(self)@.len() && final(self)@ == old(self)@,
            },
    {
        if index < self.0.len() {
            Some(&mut self.0[index])
        } else {
            None
        }
    }

    /// Whether the node at `index` is an unresolved integer literal.
    pub fn is_number(&self, index: usize) -> (yes: bool)
        ensures
            yes == (index < self@.len() && self@[index as int] is Number),
    {
        if index < self.0.len() {
            matches!(self.0[index], Expr::Number(_))
        } else {
            false
        }
    }

    /// Puts `expr` in place of the node at `index`; every other node, and
    /// the pool's length, stay as they are.
    pub fn replace(&mut self, index: usize, expr: Expr)
        requires
            index < old(self)@.len(),
        ensures
            final(self)@ == old(self)@.update(index as int, expr),
    {
        self.0.set(index, expr);
    }
}

impl StmtPool {
    /// A pool without a node.
    pub fn new() -> (pool: StmtPool)
        ensures
            pool@ == Seq::<Stmt>::empty(),
    {
        StmtPool(Vec::new())
    }

    /// The number of nodes.
    pub fn len(&self) -> (n: usize)
        ensures
            n == self@.len(),
    {
        self.0.len()
    }

    /// Appends `stmt` and returns its ref.
    pub fn add(&mut self, stmt: Stmt) -> (r: StmtRef)
        requires
            old(self)@.len() < MAX_NODES,
        ensures
            final(self)@ == old(self)@.push(stmt),
            r.0 == old(self)@.len(),
    {
        let index = self.0.len();
        self.0.push(stmt);
        StmtRef(index as u32)
    }

    /// The node at `index`, if there is one.
    pub fn get(&self, index: usize) -> (stmt: Option<&Stmt>)
        ensures
            stmt == if index < self@.len() {
                Some(&self@[index as int])
            } else {
                None
            },
    {
        if index < self.0.len() {
            Some(&self.0[index])
        } else {
            None
        }
    }

    /// The node at `index`, to be changed in place; every other node, and
    /// the pool's length, stay as they are.
    pub fn get_mut(&mut self, index: usize) -> (stmt: Option<&mut Stmt>)
        ensures
            match stmt {
                Some(node) => {
                    &&& index < old(self)@.len()
                    &&& *node == old(self)@[index as int]
                    &&& final(self)@ == old(self)@.update(index as int, *final(node))
                },
                None => index >= old(self)@.len() && final(self)@ == old(self)@,
            },
    {
        if index < self.0.len() {
            Some(&mut self.0[index])
        } else {
            None
        }
    }
}

/// Where each node of the pools stands in the source text, as far as known.
#[derive(Debug)]
pub struct LocationPool {
    pub expr_locations: Vec<Option<SourceLocation>>,
    pub stmt_locations: Vec<Option<SourceLocation>>,
}

impl LocationPool {
    /// The place recorded for the expression `r`.
    pub open spec fn expr_location(&self, r: ExprRef) -> Option<SourceLocation> {
        if r.0 < self.expr_locations@.len() {
            self.expr_locations@[r.0 as int]
        } else {
            None
        }
    }

    /// The place recorded for the statement `r`.
    pub open spec fn stmt_location(&self, r: StmtRef) -> Option<SourceLocation> {
        if r.0 < self.stmt_locations@.len() {
            self.stmt_locations@[r.0 as int]
        } else {
            None
        }
    }

    /// A pool without a place.
    pub fn new() -> (pool: LocationPool)
        ensures
            pool.expr_locations@.len() == 0,
            pool.stmt_locations@.len() == 0,
    {
        LocationPool { expr_locations: Vec::new(), stmt_locations: Vec::new() }
    }

    /// Records the place of the next expression.
    pub fn add_expr_location(&mut self, location: Option<SourceLocation>)
        ensures
            final(self).expr_locations@ == old(self).expr_locations@.push(location),
            final(self).stmt_locations@ == old(self).stmt_locations@,
    {
        self.expr_locations.push(location);
    }

    /// Records the place of the next statement.
    pub fn add_stmt_location(&mut self, location: Option<SourceLocation>)
        ensures
            final(self).stmt_locations@ == old(self).stmt_locations@.push(location),
            final(self).expr_locations@ == old(self).expr_locations@,
    {
        self.stmt_locations.push(location);
    }

    /// The place recorded for the expression `r`.
    pub fn get_expr_location(&self, r: &ExprRef) -> (location: Option<SourceLocation>)
        ensures
            location == self.expr_location(*r),
    {
        let index = r.to_index();
        if index < self.expr_locations.len() {
            self.expr_locations[index]
        } else {
            None
        }
    }

    /// The place recorded for the statement `r`.
    pub fn get_stmt_location(&self, r: &StmtRef) -> (location: Option<SourceLocation>)
        ensures
            location == self.stmt_location(*r),
    {
        let index = r.to_index();
        if index < self.stmt_locations.len() {
            self.stmt_locations[index]
        } else {
            None
        }
    }
}

/// A parsed program: the pools, the interner, and the functions.
pub struct Program {
    pub statement: StmtPool,
    pub expression: ExprPool,
    pub location_pool: LocationPool,
    pub function: Vec<Rc<Function>>,
    pub string_interner: Interner,
}

/// The mathematical value of an expression node.
pub ghost enum ExprNode {
    Assign(ExprRef, ExprRef),
    IfElifElse(ExprRef, ExprRef, Seq<(ExprRef, ExprRef)>, ExprRef),
    Binary(Operator, ExprRef, ExprRef),
    Block(Seq<StmtRef>),
    True,
    False,
    Int64(i64),
    UInt64(u64),
    Number(Symbol),
    Identifier(Symbol),
    Null,
    ExprList(Seq<ExprRef>),
    Call(Symbol, ExprRef),
    String(Symbol),
    ArrayLiteral(Seq<ExprRef>),
    ArrayAccess(ExprRef, ExprRef),
    FieldAccess(ExprRef, Symbol),
    MethodCall(ExprRef, Symbol, Seq<ExprRef>),
    StructLiteral(Symbol, Seq<(Symbol, ExprRef)>),
}

impl View for Expr {
    type V = ExprNode;

    open spec fn view(&self) -> ExprNode {
        match self {
            Expr::Assign(lhs, rhs) => ExprNode::Assign(*lhs, *rhs),
            Expr::IfElifElse(cond, then_block, elifs, else_block) => ExprNode::IfElifElse(
                *cond,
                *then_block,
                elifs@,
                *else_block,
            ),
            Expr::Binary(op, lhs, rhs) => ExprNode::Binary(*op, *lhs, *rhs),
            Expr::Block(stmts) => ExprNode::Block(stmts@),
            Expr::True => ExprNode::True,
            Expr::False => ExprNode::False,
            Expr::Int64(value) => ExprNode::Int64(*value),
            Expr::UInt64(value) => ExprNode::UInt64(*value),
            Expr::Number(value) => ExprNode::Number(*value),
            Expr::Identifier(name) => ExprNode::Identifier(*name),
            Expr::Null => ExprNode::Null,
            Expr::ExprList(items) => ExprNode::ExprList(items@),
            Expr::Call(name, arguments) => ExprNode::Call(*name, *arguments),
            Expr::String(value) => ExprNode::String(*value),
            Expr::ArrayLiteral(elements) => ExprNode::ArrayLiteral(elements@),
            Expr::ArrayAccess(array, index) => ExprNode::ArrayAccess(*array, *index),
            Expr::FieldAccess(object, field) => ExprNode::FieldAccess(*object, *field),
            Expr::MethodCall(object, method, arguments) => ExprNode::MethodCall(
                *object,
                *method,
                arguments@,
            ),
            Expr::StructLiteral(name, fields) => ExprNode::StructLiteral(*name, fields@),
        }
    }
}

/// The values of a list of parameters.
pub open spec fn parameters_view(parameters: Seq<(Symbol, TypeDecl)>) -> Seq<(Symbol, Ty)> {
    Seq::new(parameters.len(), |i: int| (parameters[i].0, parameters[i].1@))
}

/// The mathematical value of a function.
pub ghost struct FunctionNode {
    pub name: Symbol,
    pub parameter: Seq<(Symbol, Ty)>,
    pub return_type: Option<Ty>,
    pub code: StmtRef,
}

impl View for Function {
    type V = FunctionNode;

    open spec fn view(&self) -> FunctionNode {
        FunctionNode {
            name: self.name,
            parameter: parameters_view(self.parameter@),
            return_type: option_view(self.return_type),
            code: self.code,
        }
    }
}

/// The mathematical value of a method.
pub ghost struct MethodNode {
    pub name: Symbol,
    pub parameter: Seq<(Symbol, Ty)>,
    pub return_type: Option<Ty>,
    pub code: StmtRef,
    pub has_self_param: bool,
}

impl View for MethodFunction {
    type V = MethodNode;

    open spec fn view(&self) -> MethodNode {
        MethodNode {
            name: self.name,
            parameter: parameters_view(self.parameter@),
            return_type: option_view(self.return_type),
            code: self.code,
            has_self_param: self.has_self_param,
        }
    }
}

/// The values of the fields of a struct declaration.
pub open spec fn struct_fields_view(fields: Seq<StructField>) -> Seq<(Seq<char>, Ty)> {
    Seq::new(fields.len(), |i: int| (fields[i].name@, fields[i].type_decl@))
}

/// The values of a list of methods.
pub open spec fn methods_view(methods: Seq<Rc<MethodFunction>>) -> Seq<MethodNode> {
    Seq::new(methods.len(), |i: int| methods[i]@)
}

/// The mathematical value of a statement node.
pub ghost enum StmtNode {
    Expression(ExprRef),
    Val(Symbol, Option<Ty>, ExprRef),
    Var(Symbol, Option<Ty>, Option<ExprRef>),
    Return(Option<ExprRef>),
    Break,
    Continue,
    For(Symbol, ExprRef, ExprRef, ExprRef),
    While(ExprRef, ExprRef),
    StructDecl { name: Seq<char>, fields: Seq<(Seq<char>, Ty)> },
    ImplBlock { target_type: Seq<char>, methods: Seq<MethodNode> },
}

impl View for Stmt {
    type V = StmtNode;

    open spec fn view(&self) -> StmtNode {
        match self {
            Stmt::Expression(e) => StmtNode::Expression(*e),
            Stmt::Val(name, ty, e) => StmtNode::Val(*name, option_view(*ty), *e),
            Stmt::Var(name, ty, e) => StmtNode::Var(*name, option_view(*ty), *e),
            Stmt::Return(e) => StmtNode::Return(*e),
            Stmt::Break => StmtNode::Break,
            Stmt::Continue => StmtNode::Continue,
            Stmt::For(variable, start, end, body) => StmtNode::For(*variable, *start, *end, *body),
            Stmt::While(cond, body) => StmtNode::While(*cond, *body),
            Stmt::StructDecl { name, fields } => StmtNode::StructDecl {
                name: name@,
                fields: struct_fields_view(fields@),
            },
            Stmt::ImplBlock { target_type, methods } => StmtNode::ImplBlock {
                target_type: target_type@,
                methods: methods_view(methods@),
            },
        }
    }
}

/// The values of the nodes of an expression pool.
pub open spec fn expr_nodes(exprs: Seq<Expr>) -> Seq<ExprNode> {
    Seq::new(exprs.len(), |i: int| exprs[i]@)
}

/// The values of the nodes of a statement pool.
pub open spec fn stmt_nodes(stmts: Seq<Stmt>) -> Seq<StmtNode> {
    Seq::new(stmts.len(), |i: int| stmts[i]@)
}

/// The values of a list of functions.
pub open spec fn function_nodes(functions: Seq<Rc<Function>>) -> Seq<FunctionNode> {
    Seq::new(functions.len(), |i: int| functions[i]@)
}

/// The mathematical value of a program.
pub ghost struct ProgramNode {
    pub exprs: Seq<ExprNode>,
    pub stmts: Seq<StmtNode>,
    pub expr_locations: Seq<Option<SourceLocation>>,
    pub stmt_locations: Seq<Option<SourceLocation>>,
    pub functions: Seq<FunctionNode>,
    pub strings: Seq<Seq<char>>,
}

impl View for Program {
    type V = ProgramNode;

    open spec fn view(&self) -> ProgramNode {
        ProgramNode {
            exprs: expr_nodes(self.expression@),
            stmts: stmt_nodes(self.statement@),
            expr_locations: self.location_pool.expr_locations@,
            stmt_locations: self.location_pool.stmt_locations@,
            functions: function_nodes(self.function@),
            strings: self.string_interner.strings(),
        }
    }
}

impl Program {
    /// A program without a function.
    pub fn new() -> (program: Program)
        ensures
            program@ == (ProgramNode {
                exprs: Seq::empty(),
                stmts: Seq::empty(),
                expr_locations: Seq::empty(),
                stmt_locations: Seq::empty(),
                functions: Seq::empty(),
                strings: Seq::empty(),
            }),
    {
        let program = Program {
            statement: StmtPool::new(),
            expression: ExprPool::new(),
            location_pool: LocationPool::new(),
            function: Vec::new(),
            string_interner: Interner::new(),
        };
        assert(program@.exprs =~= Seq::<ExprNode>::empty());
        assert(program@.stmts =~= Seq::<StmtNode>::empty());
        assert(program@.functions =~= Seq::<FunctionNode>::empty());
        assert(program@.expr_locations =~= Seq::<Option<SourceLocation>>::empty());
        assert(program@.stmt_locations =~= Seq::<Option<SourceLocation>>::empty());
        program
    }
}

} // verus!
