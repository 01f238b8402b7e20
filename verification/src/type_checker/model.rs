//! The state of a type check as mathematical values, and the steps of the
//! check that do not descend into the program.

use crate::ast::{Expr, ExprRef, Function, MethodFunction, Operator, Stmt, StmtRef, StructField};
use crate::number::{parse_i64_spec, parse_u64_spec};
use crate::symbol::Symbol;
use crate::type_checker::context::{bind_var, lookup_var, retype_var};
use crate::type_checker::error::{ErrorView, SourceLocation};
use crate::type_decl::{option_view, Ty, TypeDecl};
use std::rc::Rc;
use vstd::prelude::*;

verus! {

/// Everything a type check reads and changes, as mathematical values.
pub ghost struct CheckerState {
    pub stmts: Seq<Stmt>,
    pub exprs: Seq<Expr>,
    /// The interned strings, by symbol.
    pub strings: Seq<Seq<char>>,
    pub expr_locations: Seq<Option<SourceLocation>>,
    pub stmt_locations: Seq<Option<SourceLocation>>,
    /// The scope frames, outermost first.
    pub vars: Seq<Map<u32, Ty>>,
    pub functions: Map<u32, Rc<Function>>,
    /// The type that the surroundings expect of an integer literal.
    pub hint: Option<Ty>,
    /// For a variable, the expression that gave it its value.
    pub var_exprs: Seq<(Symbol, ExprRef)>,
    /// The rewrites that are decided and not yet made.
    pub usage: Seq<(ExprRef, Ty)>,
    /// Per function: absent, in progress (`None`) or done with its type.
    pub checked: Map<u32, Option<Ty>>,
    pub call_depth: nat,
    pub cache: Map<u32, Ty>,
}

/// What a visit gives: a type or an error.
pub type Outcome = Result<Ty, ErrorView>;

/// The most levels of nesting that a check descends. Every level is a
/// call of the checker on the stack of the thread that runs it: a nested
/// expression or block takes a few levels, and so does the check of a
/// function at the first call of it. The bound keeps a program that nests
/// deeper than the stack can take from ending the process: its check ends
/// in an error instead.
pub const MAX_DEPTH: usize = 512;

/// The error for a program that nests deeper than the check descends.
pub open spec fn too_deep() -> ErrorView {
    ErrorView::generic_error("Expression nesting is too deep"@)
}

/// The first value for `key` in an association list.
pub open spec fn assoc_get(list: Seq<(Symbol, ExprRef)>, key: Symbol) -> Option<ExprRef>
    decreases list.len(),
{
    if list.len() == 0 {
        None
    } else if list[0].0 == key {
        Some(list[0].1)
    } else {
        assoc_get(list.drop_first(), key)
    }
}

/// The list with the first entry for `key` given the value `value`, or with
/// a new last entry where there was none.
pub open spec fn assoc_insert(list: Seq<(Symbol, ExprRef)>, key: Symbol, value: ExprRef) -> Seq<
    (Symbol, ExprRef),
>
    decreases list.len(),
{
    if list.len() == 0 {
        seq![(key, value)]
    } else if list[0].0 == key {
        seq![(key, value)] + list.drop_first()
    } else {
        seq![list[0]] + assoc_insert(list.drop_first(), key, value)
    }
}

/// The list without its first entry for `key`.
pub open spec fn assoc_remove(list: Seq<(Symbol, ExprRef)>, key: Symbol) -> Seq<(Symbol, ExprRef)>
    decreases list.len(),
{
    if list.len() == 0 {
        list
    } else if list[0].0 == key {
        list.drop_first()
    } else {
        seq![list[0]] + assoc_remove(list.drop_first(), key)
    }
}

impl CheckerState {
    /// Whether `e` is a ref into the pool.
    pub open spec fn has_expr(self, e: ExprRef) -> bool {
        e.0 < self.exprs.len()
    }

    /// Whether `e` is an unresolved integer literal.
    pub open spec fn is_number(self, e: ExprRef) -> bool {
        self.has_expr(e) && self.exprs[e.0 as int] is Number
    }

    /// Whether `e` is an identifier.
    pub open spec fn is_identifier(self, e: ExprRef) -> bool {
        self.has_expr(e) && self.exprs[e.0 as int] is Identifier
    }

    /// Whether `e` is a block without statements.
    pub open spec fn is_empty_block(self, e: ExprRef) -> bool {
        self.has_expr(e) && match self.exprs[e.0 as int] {
            Expr::Block(stmts) => stmts@.len() == 0,
            _ => false,
        }
    }

    /// The place recorded for the expression `e`.
    pub open spec fn expr_location(self, e: ExprRef) -> Option<SourceLocation> {
        if e.0 < self.expr_locations.len() {
            self.expr_locations[e.0 as int]
        } else {
            None
        }
    }

    /// The place recorded for the statement `r`.
    pub open spec fn stmt_location(self, r: StmtRef) -> Option<SourceLocation> {
        if r.0 < self.stmt_locations.len() {
            self.stmt_locations[r.0 as int]
        } else {
            None
        }
    }

    /// The string of `symbol`, or `fallback` where the interner has none.
    pub open spec fn name_of(self, symbol: Symbol, fallback: Seq<char>) -> Seq<char> {
        if symbol.0 < self.strings.len() {
            self.strings[symbol.0 as int]
        } else {
            fallback
        }
    }

    /// The state with the hint `hint`.
    pub open spec fn with_hint(self, hint: Option<Ty>) -> CheckerState {
        CheckerState { hint, ..self }
    }

    /// The state with the scope frames `vars`.
    pub open spec fn with_vars(self, vars: Seq<Map<u32, Ty>>) -> CheckerState {
        CheckerState { vars, ..self }
    }

    /// The state with one more scope.
    pub open spec fn push_frame(self) -> CheckerState {
        self.with_vars(self.vars.push(Map::empty()))
    }

    /// The state without the innermost scope.
    pub open spec fn pop_frame(self) -> CheckerState {
        if self.vars.len() > 0 {
            self.with_vars(self.vars.drop_last())
        } else {
            self
        }
    }

    /// The type of the variable `name`.
    pub open spec fn get_var(self, name: Symbol) -> Option<Ty> {
        lookup_var(self.vars, name)
    }

    /// The state with `name` bound to `ty` in the innermost scope.
    pub open spec fn set_var(self, name: Symbol, ty: Ty) -> CheckerState {
        self.with_vars(bind_var(self.vars, name, ty))
    }

    /// The state with the innermost binding of `name` given the type `ty`.
    pub open spec fn update_var_type(self, name: Symbol, ty: Ty) -> CheckerState {
        self.with_vars(retype_var(self.vars, name, ty))
    }

    /// The state with the rewrite of `e` to `ty` noted.
    pub open spec fn push_usage(self, e: ExprRef, ty: Ty) -> CheckerState {
        CheckerState { usage: self.usage.push((e, ty)), ..self }
    }

    /// The state with the type cache `cache`.
    pub open spec fn with_cache(self, cache: Map<u32, Ty>) -> CheckerState {
        CheckerState { cache, ..self }
    }

    /// The state with `status` recorded for the function `name`.
    pub open spec fn with_checked(self, name: Symbol, status: Option<Ty>) -> CheckerState {
        CheckerState { checked: self.checked.insert(name.0, status), ..self }
    }

    /// The state with `expr` in place of the node at `e`.
    pub open spec fn with_expr(self, e: ExprRef, expr: Expr) -> CheckerState {
        CheckerState { exprs: self.exprs.update(e.0 as int, expr), ..self }
    }

    /// Whether no unresolved integer literal is left in the pool.
    pub open spec fn number_free(self) -> bool {
        forall|i: int| 0 <= i < self.exprs.len() ==> !(#[trigger] self.exprs[i] is Number)
    }
}

/// The operand types after an operand that is still `Number` has taken the
/// other operand's integer type; two `Number`s take the hint's integer type,
/// or `UInt64`. An error where the two types cannot meet.
pub open spec fn resolve_numeric_types(hint: Option<Ty>, lhs: Ty, rhs: Ty) -> Result<
    (Ty, Ty),
    ErrorView,
> {
    if lhs == Ty::Number && rhs == Ty::Number {
        if hint == Some(Ty::Int64) {
            Ok((Ty::Int64, Ty::Int64))
        } else {
            Ok((Ty::UInt64, Ty::UInt64))
        }
    } else if lhs == Ty::Number && rhs.is_integer() {
        Ok((rhs, rhs))
    } else if rhs == Ty::Number && lhs.is_integer() {
        Ok((lhs, lhs))
    } else if lhs.is_integer() && rhs.is_integer() && lhs != rhs {
        Err(ErrorView::type_mismatch_operation("mixed signed/unsigned"@, lhs, rhs))
    } else if lhs == rhs {
        Ok((lhs, rhs))
    } else {
        Err(ErrorView::type_mismatch(lhs, rhs))
    }
}

/// Whether `op` is `+`, `-`, `*` or `/`.
pub open spec fn is_arithmetic(op: Operator) -> bool {
    op == Operator::IAdd || op == Operator::ISub || op == Operator::IMul || op == Operator::IDiv
}

/// Whether `op` is `&&` or `||`.
pub open spec fn is_logical(op: Operator) -> bool {
    op == Operator::LogicalAnd || op == Operator::LogicalOr
}

/// The type of `lhs op rhs` for operands of the resolved types.
pub open spec fn binary_result(op: Operator, lhs: Ty, rhs: Ty) -> Outcome {
    if op == Operator::IAdd && lhs == Ty::String && rhs == Ty::String {
        Ok(Ty::String)
    } else if is_arithmetic(op) {
        if lhs == Ty::UInt64 && rhs == Ty::UInt64 {
            Ok(Ty::UInt64)
        } else if lhs == Ty::Int64 && rhs == Ty::Int64 {
            Ok(Ty::Int64)
        } else {
            Err(ErrorView::type_mismatch_operation("arithmetic"@, lhs, rhs))
        }
    } else if is_logical(op) {
        if lhs == Ty::Bool && rhs == Ty::Bool {
            Ok(Ty::Bool)
        } else {
            Err(ErrorView::type_mismatch_operation("logical"@, lhs, rhs))
        }
    } else if (lhs.is_integer() && rhs.is_integer()) || (lhs == Ty::Bool && rhs == Ty::Bool) {
        Ok(Ty::Bool)
    } else {
        Err(ErrorView::type_mismatch_operation("comparison"@, lhs, rhs))
    }
}

/// The type that a variable gets from its declaration and its value.
pub open spec fn determine_final_type(decl: Option<Ty>, expr_ty: Ty) -> Ty {
    match decl {
        Some(d) => if d != Ty::Unknown && d != Ty::Number {
            d
        } else {
            expr_ty
        },
        None => expr_ty,
    }
}

/// The hint under which the value of a declaration is visited.
pub open spec fn hint_for_val(hint: Option<Ty>, decl: Option<Ty>) -> Option<Ty> {
    match decl {
        Some(Ty::Array(elements, _)) => if elements.len() > 0 {
            decl
        } else {
            hint
        },
        Some(d) => if d != Ty::Unknown && d != Ty::Number {
            decl
        } else {
            hint
        },
        None => hint,
    }
}

/// The type of an integer literal without a suffix whose digits are `text`,
/// under `hint`.
pub open spec fn literal_type(text: Seq<char>, hint: Option<Ty>) -> Outcome {
    if hint == Some(Ty::Int64) {
        if parse_i64_spec(text) is Some {
            Ok(Ty::Int64)
        } else {
            Err(ErrorView::conversion_error(text, "Int64"@))
        }
    } else if hint == Some(Ty::UInt64) {
        if parse_u64_spec(text) is Some {
            Ok(Ty::UInt64)
        } else {
            Err(ErrorView::conversion_error(text, "UInt64"@))
        }
    } else {
        match parse_i64_spec(text) {
            Some(value) => if value >= 0 {
                Ok(Ty::Number)
            } else {
                Ok(Ty::Int64)
            },
            None => if parse_u64_spec(text) is Some {
                Ok(Ty::UInt64)
            } else {
                Err(ErrorView::invalid_literal(text, "number"@))
            },
        }
    }
}

/// The type of the literal whose digits are interned as `value`.
pub open spec fn number_literal_type(s: CheckerState, value: Symbol) -> Outcome {
    if value.0 < s.strings.len() {
        literal_type(s.strings[value.0 as int], s.hint)
    } else {
        Err(ErrorView::generic_error("Failed to resolve number literal"@))
    }
}

/// The type of a name: that of the variable, else the return type of the
/// function of that name.
pub open spec fn visit_identifier(s: CheckerState, name: Symbol) -> Outcome {
    match s.get_var(name) {
        Some(ty) => Ok(ty),
        None => if s.functions.contains_key(name.0) {
            Ok(return_type_of(option_view(s.functions[name.0].return_type)))
        } else {
            Err(ErrorView::not_found("Identifier"@, s.name_of(name, "<NOT_FOUND>"@)))
        },
    }
}

/// A declared return type, or `Unknown` where none is declared.
pub open spec fn return_type_of(declared: Option<Ty>) -> Ty {
    match declared {
        Some(ty) => ty,
        None => Ty::Unknown,
    }
}

/// The literal at `e`, if it is an unresolved one, rewritten in place to the
/// integer type `target`. Every other node stays as it is.
pub open spec fn transform_numeric_expr(s: CheckerState, e: ExprRef, target: Ty) -> (
    CheckerState,
    Result<(), ErrorView>,
) {
    if s.is_number(e) {
        let value = s.exprs[e.0 as int]->Number_0;
        if value.0 >= s.strings.len() {
            (s, Err(ErrorView::generic_error("Failed to resolve number literal"@)))
        } else {
            let text = s.strings[value.0 as int];
            if target == Ty::UInt64 {
                match parse_u64_spec(text) {
                    Some(v) => (s.with_expr(e, Expr::UInt64(v)), Ok(())),
                    None => (s, Err(ErrorView::conversion_error(text, "UInt64"@))),
                }
            } else if target == Ty::Int64 {
                match parse_i64_spec(text) {
                    Some(v) => (s.with_expr(e, Expr::Int64(v)), Ok(())),
                    None => (s, Err(ErrorView::conversion_error(text, "Int64"@))),
                }
            } else {
                (s, Err(ErrorView::unsupported_operation("transform"@, target)))
            }
        }
    } else {
        (s, Ok(()))
    }
}

/// The variable at `e`, if it was `Number` and is resolved now, takes the
/// resolved type.
pub open spec fn update_identifier_types(
    s: CheckerState,
    e: ExprRef,
    found: Ty,
    resolved: Ty,
) -> CheckerState {
    if found == Ty::Number && resolved != Ty::Number && s.is_identifier(e) {
        s.update_var_type(s.exprs[e.0 as int]->Identifier_0, resolved)
    } else {
        s
    }
}

/// The literal that gave the variable `name` its value, if it is still
/// unresolved.
pub open spec fn number_source(s: CheckerState, name: Symbol) -> Option<ExprRef> {
    match assoc_get(s.var_exprs, name) {
        Some(source) => if s.is_number(source) {
            Some(source)
        } else {
            None
        },
        None => None,
    }
}

/// Notes the rewrite to `resolved` for a literal at `e`, or for the literal
/// behind the variable at `e`, where `e` was `Number` and is resolved now.
pub open spec fn record_number_usage_context(
    s: CheckerState,
    e: ExprRef,
    found: Ty,
    resolved: Ty,
) -> CheckerState {
    if found == Ty::Number && resolved != Ty::Number && s.has_expr(e) {
        match s.exprs[e.0 as int] {
            Expr::Identifier(name) => match number_source(s, name) {
                Some(source) => s.push_usage(source, resolved),
                None => s,
            },
            Expr::Number(_) => s.push_usage(e, resolved),
            _ => s,
        }
    } else {
        s
    }
}

/// Where `e` is a variable of type `Number` whose literal is still
/// unresolved: notes the rewrite of that literal to `target` and gives the
/// variable that type.
pub open spec fn propagate_to_number_variable(s: CheckerState, e: ExprRef, target: Ty) -> CheckerState {
    if s.is_identifier(e) {
        let name = s.exprs[e.0 as int]->Identifier_0;
        if s.get_var(name) == Some(Ty::Number) {
            match number_source(s, name) {
                Some(source) => s.push_usage(source, target).update_var_type(name, target),
                None => s,
            }
        } else {
            s
        }
    } else {
        s
    }
}

/// Where `e` is a variable of type `Number`: gives it the type `target` and
/// notes the rewrite of the expression behind it. Where `e` is an unresolved
/// literal: notes its rewrite.
pub open spec fn propagate_type_to_number_expr(s: CheckerState, e: ExprRef, target: Ty) -> CheckerState {
    if s.has_expr(e) {
        match s.exprs[e.0 as int] {
            Expr::Identifier(name) => if s.get_var(name) == Some(Ty::Number) {
                let s1 = s.update_var_type(name, target);
                match assoc_get(s1.var_exprs, name) {
                    Some(source) => s1.push_usage(source, target),
                    None => s1,
                }
            } else {
                s
            },
            Expr::Number(_) => s.push_usage(e, target),
            _ => s,
        }
    } else {
        s
    }
}

/// The noted rewrites without those of literals that are still unresolved.
pub open spec fn resolved_usage(s: CheckerState, usage: Seq<(ExprRef, Ty)>) -> Seq<(ExprRef, Ty)>
    decreases usage.len(),
{
    if usage.len() == 0 {
        usage
    } else if s.is_number(usage.last().0) {
        resolved_usage(s, usage.drop_last())
    } else {
        resolved_usage(s, usage.drop_last()).push(usage.last())
    }
}

/// Remembers the expression `e` as the source of the variable `name` where
/// its type is still `Number` or `e` is an unresolved literal; else forgets
/// the variable's source and the noted rewrites of unresolved literals.
pub open spec fn update_variable_expr_mapping(
    s: CheckerState,
    name: Symbol,
    e: ExprRef,
    expr_ty: Ty,
) -> CheckerState {
    if expr_ty == Ty::Number || s.is_number(e) {
        CheckerState { var_exprs: assoc_insert(s.var_exprs, name, e), ..s }
    } else {
        CheckerState {
            var_exprs: assoc_remove(s.var_exprs, name),
            usage: resolved_usage(s, s.usage),
            ..s
        }
    }
}

/// Rewrites the literal that is the value of a declaration, where the
/// declaration or the hint decides its type.
pub open spec fn apply_type_transformations(
    s: CheckerState,
    decl: Option<Ty>,
    expr_ty: Ty,
    e: ExprRef,
) -> (CheckerState, Result<(), ErrorView>) {
    if (decl is None && expr_ty == Ty::Number) || (decl == Some(Ty::Unknown) && expr_ty
        == Ty::Int64) {
        match s.hint {
            Some(hint) => if hint.is_integer() {
                transform_numeric_expr(s, e, hint)
            } else {
                (s, Ok(()))
            },
            None => (s, Ok(())),
        }
    } else {
        match decl {
            Some(d) => if d != Ty::Unknown && d != Ty::Number && expr_ty == d && s.is_number(e) {
                transform_numeric_expr(s, e, d)
            } else {
                (s, Ok(()))
            },
            None => (s, Ok(())),
        }
    }
}

/// Gives every variable whose source is `e` the type `ty`, in the order of
/// `sources`.
pub open spec fn retype_sources(
    s: CheckerState,
    sources: Seq<(Symbol, ExprRef)>,
    e: ExprRef,
    ty: Ty,
) -> CheckerState
    decreases sources.len(),
{
    if sources.len() == 0 {
        s
    } else {
        let s1 = retype_sources(s, sources.drop_last(), e, ty);
        if sources.last().1 == e {
            s1.update_var_type(sources.last().0, ty)
        } else {
            s1
        }
    }
}

/// Retyping variables changes the scope frames and nothing else.
pub proof fn lemma_retype_sources_frame(
    s: CheckerState,
    sources: Seq<(Symbol, ExprRef)>,
    e: ExprRef,
    ty: Ty,
)
    ensures
        retype_sources(s, sources, e, ty) == s.with_vars(retype_sources(s, sources, e, ty).vars),
    decreases sources.len(),
{
    if sources.len() > 0 {
        lemma_retype_sources_frame(s, sources.drop_last(), e, ty);
    }
}

/// The type of the first variable in `sources` whose source is `e` and whose
/// type is resolved; `default` where there is none.
pub open spec fn source_type(s: CheckerState, sources: Seq<(Symbol, ExprRef)>, e: ExprRef, default: Ty) -> Ty
    decreases sources.len(),
{
    if sources.len() == 0 {
        default
    } else if sources[0].1 == e && s.get_var(sources[0].0) is Some && s.get_var(sources[0].0)
        != Some(Ty::Number) {
        s.get_var(sources[0].0)->0
    } else {
        source_type(s, sources.drop_first(), e, default)
    }
}

/// Makes the noted rewrites from the `i`-th on, each on a literal that is
/// still unresolved, and retypes the variables behind them.
pub open spec fn finalize_noted(s: CheckerState, noted: Seq<(ExprRef, Ty)>, i: int) -> (
    CheckerState,
    Result<(), ErrorView>,
)
    decreases noted.len() - i,
{
    if i < 0 || i >= noted.len() {
        (s, Ok(()))
    } else if s.is_number(noted[i].0) {
        let (s1, r) = transform_numeric_expr(s, noted[i].0, noted[i].1);
        match r {
            Err(error) => (s1, Err(error)),
            Ok(_) => finalize_noted(
                retype_sources(s1, s1.var_exprs, noted[i].0, noted[i].1),
                noted,
                i + 1,
            ),
        }
    } else {
        finalize_noted(s, noted, i + 1)
    }
}

/// The type that the unresolved literal at `e` gets when nothing was noted
/// for it: that of its variable if resolved, else the hint, else `UInt64`.
pub open spec fn default_target(s: CheckerState, e: ExprRef) -> Ty {
    source_type(
        s,
        s.var_exprs,
        e,
        match s.hint {
            Some(hint) => hint,
            None => Ty::UInt64,
        },
    )
}

/// Rewrites every literal at an index from `i` to `end` that is still
/// unresolved.
pub open spec fn finalize_rest(s: CheckerState, i: int, end: int) -> (
    CheckerState,
    Result<(), ErrorView>,
)
    decreases end - i,
{
    if i < 0 || i >= end {
        (s, Ok(()))
    } else if i < s.exprs.len() && s.exprs[i] is Number {
        if i > u32::MAX {
            (s, Err(ErrorView::generic_error("Expression pool is too large"@)))
        } else {
            let e = ExprRef(i as u32);
            let target = default_target(s, e);
            let (s1, r) = transform_numeric_expr(s, e, target);
            match r {
                Err(error) => (s1, Err(error)),
                Ok(_) => finalize_rest(retype_sources(s1, s1.var_exprs, e, target), i + 1, end),
            }
        }
    } else {
        finalize_rest(s, i + 1, end)
    }
}

/// The finalization pass: first the noted rewrites, then every literal that
/// is still unresolved.
pub open spec fn finalize_number_types(s: CheckerState) -> (CheckerState, Result<(), ErrorView>) {
    let (s1, r) = finalize_noted(s, s.usage, 0);
    match r {
        Err(error) => (s1, Err(error)),
        Ok(_) => finalize_rest(s1, 0, s1.exprs.len() as int),
    }
}

/// Whether a struct field or a method parameter can have this type.
pub open spec fn is_field_type(ty: Ty) -> bool {
    ty == Ty::Int64 || ty == Ty::UInt64 || ty == Ty::Bool || ty == Ty::String
}

/// The type of a struct declaration: `Unit`, or an error for the first field
/// whose type a struct cannot hold.
pub open spec fn visit_struct_decl(name: Seq<char>, fields: Seq<StructField>) -> Outcome
    decreases fields.len(),
{
    if fields.len() == 0 {
        Ok(Ty::Unit)
    } else if !is_field_type(fields[0].type_decl@) {
        Err(
            ErrorView::unsupported_operation(
                "field type in struct '"@ + name + "'"@,
                fields[0].type_decl@,
            ),
        )
    } else {
        visit_struct_decl(name, fields.drop_first())
    }
}

/// The first parameter type that a method cannot take.
pub open spec fn bad_parameter(parameters: Seq<(Symbol, TypeDecl)>) -> Option<Ty>
    decreases parameters.len(),
{
    if parameters.len() == 0 {
        None
    } else if !is_field_type(parameters[0].1@) {
        Some(parameters[0].1@)
    } else {
        bad_parameter(parameters.drop_first())
    }
}

/// The label of a method's part in the error for an `impl` block.
pub open spec fn method_label(part: Seq<char>, method: Seq<char>, target: Seq<char>) -> Seq<char> {
    part + " in method '"@ + method + "' for impl block '"@ + target + "'"@
}

/// The error, if any, in the signature of one method.
pub open spec fn method_signature_error(s: CheckerState, target: Seq<char>, method: MethodFunction) -> Option<
    ErrorView,
> {
    match bad_parameter(method.parameter@) {
        Some(ty) => Some(
            ErrorView::unsupported_operation(
                method_label("parameter type"@, s.name_of(method.name, "<unknown>"@), target),
                ty,
            ),
        ),
        None => match option_view(method.return_type) {
            Some(ty) => if is_field_type(ty) || ty == Ty::Unit {
                None
            } else {
                Some(
                    ErrorView::unsupported_operation(
                        method_label("return type"@, s.name_of(method.name, "<unknown>"@), target),
                        ty,
                    ),
                )
            },
            None => None,
        },
    }
}

/// The type of an `impl` block: `Unit`, or the error of the first method
/// whose signature has one.
pub open spec fn visit_impl_block(
    s: CheckerState,
    target: Seq<char>,
    methods: Seq<Rc<MethodFunction>>,
) -> Outcome
    decreases methods.len(),
{
    if methods.len() == 0 {
        Ok(Ty::Unit)
    } else {
        match method_signature_error(s, target, *methods[0]) {
            Some(error) => Err(error),
            None => visit_impl_block(s, target, methods.drop_first()),
        }
    }
}

/// The annotated integer type of the first `val` or `var` among `stmts`
/// that has one.
pub open spec fn first_numeric_annotation(pool: Seq<Stmt>, stmts: Seq<StmtRef>) -> Option<Ty>
    decreases stmts.len(),
{
    if stmts.len() == 0 {
        None
    } else {
        let here = if stmts[0].0 < pool.len() {
            match pool[stmts[0].0 as int] {
                Stmt::Val(_, Some(ty), _) => if ty@.is_integer() {
                    Some(ty@)
                } else {
                    None
                },
                Stmt::Var(_, Some(ty), _) => if ty@.is_integer() {
                    Some(ty@)
                } else {
                    None
                },
                _ => None,
            }
        } else {
            None
        };
        if here is Some {
            here
        } else {
            first_numeric_annotation(pool, stmts.drop_first())
        }
    }
}

/// The state with the hint that the statements' first integer annotation
/// gives, if there is one.
pub open spec fn with_block_hint(s: CheckerState, stmts: Seq<StmtRef>) -> CheckerState {
    match first_numeric_annotation(s.stmts, stmts) {
        Some(ty) => s.with_hint(Some(ty)),
        None => s,
    }
}

/// A rewrite happens in place: the pool keeps its length, every other node
/// stays as it is, and after a successful rewrite of an unresolved literal
/// the node at its index is the integer that its digits write.
pub proof fn law_rewrite_in_place(s: CheckerState, e: ExprRef, target: Ty)
    ensures
        ({
            let (after, result) = transform_numeric_expr(s, e, target);
            &&& after.exprs.len() == s.exprs.len()
            &&& forall|i: int|
                0 <= i < s.exprs.len() && i != e.0 ==> (#[trigger] after.exprs[i]) == s.exprs[i]
            &&& result is Ok && s.is_number(e) ==> {
                let text = s.strings[s.exprs[e.0 as int]->Number_0.0 as int];
                ||| (target == Ty::UInt64 && parse_u64_spec(text) is Some && after.exprs[e.0 as int]
                    == Expr::UInt64(parse_u64_spec(text)->0))
                ||| (target == Ty::Int64 && parse_i64_spec(text) is Some && after.exprs[e.0 as int]
                    == Expr::Int64(parse_i64_spec(text)->0))
            }
            &&& result is Err ==> after == s
        }),
{
}

/// The second half of the finalization pass leaves no unresolved literal
/// among the nodes that it has passed.
pub proof fn lemma_finalize_rest(s: CheckerState, i: int, end: int)
    requires
        0 <= i <= end,
        end == s.exprs.len(),
        forall|j: int| 0 <= j < i ==> !(#[trigger] s.exprs[j] is Number),
    ensures
        finalize_rest(s, i, end).1 is Ok ==> finalize_rest(s, i, end).0.number_free(),
        finalize_rest(s, i, end).0.exprs.len() == s.exprs.len(),
    decreases end - i,
{
    if i < end {
        if s.exprs[i] is Number {
            if i <= u32::MAX {
                let e = ExprRef(i as u32);
                let target = default_target(s, e);
                let (s1, r) = transform_numeric_expr(s, e, target);
                law_rewrite_in_place(s, e, target);
                if r is Ok {
                    let s2 = retype_sources(s1, s1.var_exprs, e, target);
                    lemma_retype_sources_frame(s1, s1.var_exprs, e, target);
                    assert forall|j: int| 0 <= j < i + 1 implies !(#[trigger] s2.exprs[j]
                        is Number) by {
                        assert(s2.exprs[j] == s1.exprs[j]);
                    }
                    lemma_finalize_rest(s2, i + 1, end);
                }
            }
        } else {
            lemma_finalize_rest(s, i + 1, end);
        }
    }
}

/// The first half of the finalization pass keeps the length of the pool.
pub proof fn lemma_finalize_noted(s: CheckerState, noted: Seq<(ExprRef, Ty)>, i: int)
    requires
        0 <= i,
    ensures
        finalize_noted(s, noted, i).0.exprs.len() == s.exprs.len(),
    decreases noted.len() - i,
{
    if i < noted.len() {
        if s.is_number(noted[i].0) {
            let (s1, r) = transform_numeric_expr(s, noted[i].0, noted[i].1);
            law_rewrite_in_place(s, noted[i].0, noted[i].1);
            if r is Ok {
                lemma_retype_sources_frame(s1, s1.var_exprs, noted[i].0, noted[i].1);
                lemma_finalize_noted(
                    retype_sources(s1, s1.var_exprs, noted[i].0, noted[i].1),
                    noted,
                    i + 1,
                );
            }
        } else {
            lemma_finalize_noted(s, noted, i + 1);
        }
    }
}

/// After a successful finalization pass no unresolved literal is left in
/// the pool, which has kept its length.
pub proof fn law_finalize_eliminates_numbers(s: CheckerState)
    ensures
        finalize_number_types(s).1 is Ok ==> finalize_number_types(s).0.number_free(),
        finalize_number_types(s).0.exprs.len() == s.exprs.len(),
{
    let (s1, r) = finalize_noted(s, s.usage, 0);
    lemma_finalize_noted(s, s.usage, 0);
    if r is Ok {
        lemma_finalize_rest(s1, 0, s1.exprs.len() as int);
    }
}

} // verus!
