//! The typing rules: what visiting each kind of node gives, and how a
//! check may change the state.

use crate::ast::{Expr, ExprRef, Function, Operator, Stmt, StmtRef};
use crate::number::{parse_i64_spec, parse_u64_spec};
use crate::symbol::Symbol;
use crate::type_checker::error::ErrorView;
use crate::type_checker::model::{
    apply_type_transformations, binary_result, determine_final_type, finalize_number_types,
    hint_for_val, number_literal_type, propagate_to_number_variable,
    propagate_type_to_number_expr, record_number_usage_context, resolve_numeric_types,
    return_type_of, too_deep, transform_numeric_expr, update_identifier_types,
    update_variable_expr_mapping, visit_identifier, visit_impl_block, visit_struct_decl,
    with_block_hint, CheckerState, Outcome,
};
use crate::text::decimal_text;
use crate::type_decl::{option_view, type_text, Ty, TypeDecl};
use vstd::prelude::*;

verus! {

/// Whether `after` is `before`, or `before` was an unresolved literal and
/// `after` is the integer that its digits write.
pub open spec fn node_rewritten(strings: Seq<Seq<char>>, before: Expr, after: Expr) -> bool {
    after == before || (before is Number && before->Number_0.0 < strings.len() && {
        let text = strings[before->Number_0.0 as int];
        ||| (after is UInt64 && parse_u64_spec(text) == Some(after->UInt64_0))
        ||| (after is Int64 && parse_i64_spec(text) == Some(after->Int64_0))
    })
}

/// Whether any function is recorded as done.
pub open spec fn any_done(s: CheckerState) -> bool {
    exists|f: u32| s.checked.contains_key(f) && (#[trigger] s.checked[f]) is Some
}

/// Whether no unresolved literal is left once a function is done.
pub open spec fn settled(s: CheckerState) -> bool {
    any_done(s) ==> s.number_free()
}

/// How a check may change the state: the program stays as it is but for
/// literals rewritten in place, each at its own index, and a settled state
/// stays settled.
pub open spec fn evolves(before: CheckerState, after: CheckerState) -> bool {
    &&& after.stmts == before.stmts
    &&& after.strings == before.strings
    &&& after.expr_locations == before.expr_locations
    &&& after.stmt_locations == before.stmt_locations
    &&& after.functions == before.functions
    &&& after.exprs.len() == before.exprs.len()
    &&& forall|i: int|
        0 <= i < before.exprs.len() ==> node_rewritten(
            before.strings,
            before.exprs[i],
            #[trigger] after.exprs[i],
        )
    &&& settled(before) ==> settled(after)
}

/// Whether the check of the function `f` is in progress.
pub open spec fn pending(s: CheckerState, f: u32) -> bool {
    s.checked.contains_key(f) && s.checked[f] is None
}

/// Whether the functions whose check is in progress are the same in both
/// states.
pub open spec fn pending_kept(before: CheckerState, after: CheckerState) -> bool {
    forall|f: u32|
        #![trigger after.checked.contains_key(f)]
        #![trigger before.checked.contains_key(f)]
        pending(after, f) == pending(before, f)
}

/// Whether the functions whose check is in progress, `name` apart, are the
/// same in both states.
pub open spec fn pending_but(before: CheckerState, after: CheckerState, name: Symbol) -> bool {
    forall|f: u32|
        #![trigger after.checked.contains_key(f)]
        #![trigger before.checked.contains_key(f)]
        f != name.0 ==> pending(after, f) == pending(before, f)
}

/// Whether a step left as many scopes open as it found, where it found
/// one.
pub open spec fn scopes_kept(before: CheckerState, after: CheckerState) -> bool {
    before.vars.len() > 0 ==> after.vars.len() == before.vars.len()
}

/// The state after the check of the function `name` is given up: the
/// function is marked neither as done nor as in progress, and the call
/// depth and the hint are those of the check's start.
pub open spec fn abandoned(s: CheckerState, call_depth: nat, hint: Option<Ty>, name: Symbol) -> CheckerState {
    CheckerState { checked: s.checked.remove(name.0), call_depth, hint, ..s }
}

/// Giving up a check is a change of the state after which the function
/// is not in progress, and every other function is as before.
pub proof fn lemma_abandoned(s: CheckerState, call_depth: nat, hint: Option<Ty>, name: Symbol)
    ensures
        evolves(s, abandoned(s, call_depth, hint, name)),
        !pending(abandoned(s, call_depth, hint, name), name.0),
        pending_but(s, abandoned(s, call_depth, hint, name), name),
        scopes_kept(s, abandoned(s, call_depth, hint, name)),
{
    let t = abandoned(s, call_depth, hint, name);
    if settled(s) && any_done(t) {
        let f = choose|f: u32| t.checked.contains_key(f) && (#[trigger] t.checked[f]) is Some;
        assert(s.checked.contains_key(f) && s.checked[f] is Some);
    }
}

/// Whether no function's check is in progress.
pub open spec fn none_pending(s: CheckerState) -> bool {
    forall|f: u32| s.checked.contains_key(f) ==> (#[trigger] s.checked[f]) is Some
}

/// A change of the state that follows another is a change of the state.
pub proof fn lemma_evolves_trans(a: CheckerState, b: CheckerState, c: CheckerState)
    requires
        evolves(a, b),
        evolves(b, c),
    ensures
        evolves(a, c),
        pending_kept(a, b) && pending_kept(b, c) ==> pending_kept(a, c),
        scopes_kept(a, b) && scopes_kept(b, c) ==> scopes_kept(a, c),
{
    if pending_kept(a, b) && pending_kept(b, c) {
        assert forall|f: u32| pending(c, f) == pending(a, f) by {
            assert(pending(c, f) == pending(b, f));
            assert(pending(b, f) == pending(a, f));
        }
    }
    assert forall|i: int| 0 <= i < a.exprs.len() implies node_rewritten(
        a.strings,
        a.exprs[i],
        #[trigger] c.exprs[i],
    ) by {
        assert(node_rewritten(a.strings, a.exprs[i], b.exprs[i]));
        assert(node_rewritten(b.strings, b.exprs[i], c.exprs[i]));
    }
}

/// A state that differs from another in the scopes, the hint, the cache
/// and what the inference remembers is a change of that state.
pub proof fn lemma_evolves_bookkeeping(a: CheckerState, b: CheckerState)
    requires
        b == (CheckerState {
            vars: b.vars,
            hint: b.hint,
            var_exprs: b.var_exprs,
            usage: b.usage,
            cache: b.cache,
            call_depth: b.call_depth,
            ..a
        }),
    ensures
        evolves(a, b),
        pending_kept(a, b),
{
    if settled(a) && any_done(b) {
        let f = choose|f: u32| b.checked.contains_key(f) && (#[trigger] b.checked[f]) is Some;
        assert(a.checked.contains_key(f) && a.checked[f] is Some);
    }
}

/// Rewriting an unresolved literal to the integer that its digits write is
/// a change of the state.
pub proof fn lemma_rewrite_evolves(s: CheckerState, e: ExprRef, node: Expr)
    requires
        s.is_number(e),
        node_rewritten(s.strings, s.exprs[e.0 as int], node),
        !(node is Number),
    ensures
        evolves(s, s.with_expr(e, node)),
        pending_kept(s, s.with_expr(e, node)),
{
    let t = s.with_expr(e, node);
    if settled(s) && any_done(t) {
        let f = choose|f: u32| t.checked.contains_key(f) && (#[trigger] t.checked[f]) is Some;
        assert(s.checked.contains_key(f) && s.checked[f] is Some);
    }
}

/// Binding parameters changes the scope frames and nothing else.
pub proof fn lemma_bind_parameters_frame(s: CheckerState, parameters: Seq<(Symbol, TypeDecl)>)
    ensures
        bind_parameters(s, parameters) == s.with_vars(bind_parameters(s, parameters).vars),
    decreases parameters.len(),
{
    if parameters.len() > 0 {
        lemma_bind_parameters_frame(s, parameters.drop_last());
    }
}

/// A generic error with `message`.
pub open spec fn generic(message: Seq<char>) -> ErrorView {
    ErrorView::generic_error(message)
}

/// The call depth after entering a function.
pub open spec fn entered(depth: nat) -> nat {
    if depth < usize::MAX {
        depth + 1
    } else {
        depth
    }
}

/// The statements of a function's body: `code` is an expression statement
/// that holds a block.
pub open spec fn function_body(s: CheckerState, code: StmtRef) -> Result<Seq<StmtRef>, ErrorView> {
    if code.0 >= s.stmts.len() {
        Err(generic("Invalid statement reference"@))
    } else {
        match s.stmts[code.0 as int] {
            Stmt::Expression(e) => if !s.has_expr(e) {
                Err(generic("Invalid expression reference"@))
            } else {
                match s.exprs[e.0 as int] {
                    Expr::Block(stmts) => Ok(stmts@),
                    _ => Err(generic("type_check: expected block expression"@)),
                }
            },
            _ => Err(generic("type_check: expected block statement"@)),
        }
    }
}

/// The state with the parameters bound, in their order.
pub open spec fn bind_parameters(s: CheckerState, parameters: Seq<(Symbol, TypeDecl)>) -> CheckerState
    decreases parameters.len(),
{
    if parameters.len() == 0 {
        s
    } else {
        bind_parameters(s, parameters.drop_last()).set_var(
            parameters.last().0,
            parameters.last().1@,
        )
    }
}

/// The type of an `if` whose branches with statements have these types:
/// their common type, and `Unit` where they differ or there is none.
pub open spec fn common_type(types: Seq<Ty>) -> Ty {
    if types.len() > 0 && forall|i: int| 0 <= i < types.len() ==> (#[trigger] types[i]) == types[0] {
        types[0]
    } else {
        Ty::Unit
    }
}

/// The hint for the elements of an array literal.
pub open spec fn element_hint_of(hint: Option<Ty>) -> Option<Ty> {
    match hint {
        Some(Ty::Array(elements, _)) => if elements.len() > 0 {
            Some(elements[0])
        } else {
            None
        },
        _ => None,
    }
}

/// The type of a method call on a receiver of type `receiver`.
pub open spec fn method_result(name: Seq<char>, receiver: Ty, arguments: nat) -> Outcome {
    if receiver == Ty::String {
        if name == "len"@ {
            if arguments != 0 {
                Err(
                    ErrorView::method_error(
                        "len"@,
                        Ty::String,
                        "takes no arguments, but "@ + decimal_text(arguments) + " provided"@,
                    ),
                )
            } else {
                Ok(Ty::UInt64)
            }
        } else {
            Err(ErrorView::method_error(name, Ty::String, "method not found"@))
        }
    } else if receiver is Identifier || receiver is Struct {
        Ok(Ty::Unknown)
    } else {
        Err(ErrorView::method_error(name, receiver, "method call on non-struct type"@))
    }
}

/// The type of an indexing into a value of type `array`.
pub open spec fn element_type(array: Ty) -> Outcome {
    match array {
        Ty::Array(elements, _) => if elements.len() == 0 {
            Err(ErrorView::array_error("Cannot access elements of empty array"@))
        } else {
            Ok(elements[0])
        },
        _ => Err(ErrorView::array_error("Cannot index into non-array type "@ + type_text(array))),
    }
}

/// Brings the element types of an array literal to the expected one, from
/// the `i`-th on: a literal is rewritten, an `Unknown` takes the expected
/// type, and any other type is an error.
pub open spec fn conform_elements(
    s: CheckerState,
    elements: Seq<ExprRef>,
    types: Seq<Ty>,
    i: int,
    expected: Ty,
) -> (CheckerState, Result<Seq<Ty>, ErrorView>)
    decreases types.len() - i,
{
    if i < 0 || i >= types.len() || i >= elements.len() {
        (s, Ok(types))
    } else if types[i] == Ty::Number {
        let (s1, r) = transform_numeric_expr(s, elements[i], expected);
        match r {
            Err(error) => (s1, Err(error)),
            Ok(_) => conform_elements(s1, elements, types.update(i, expected), i + 1, expected),
        }
    } else if types[i] == expected {
        let (s1, r) = transform_numeric_expr(s, elements[i], expected);
        match r {
            Err(error) => (s1, Err(error)),
            Ok(_) => conform_elements(s1, elements, types, i + 1, expected),
        }
    } else if types[i] == Ty::Unknown {
        conform_elements(s, elements, types.update(i, expected), i + 1, expected)
    } else if types[i].is_integer() && expected.is_integer() {
        (
            s,
            Err(
                ErrorView::array_error(
                    element_message(
                        "Cannot mix signed and unsigned integers in array. Element "@,
                        i as nat,
                        types[i],
                        " but expected "@,
                        expected,
                    ),
                ),
            ),
        )
    } else {
        (
            s,
            Err(
                ErrorView::array_error(
                    element_message("Array element "@, i as nat, types[i], " but expected "@, expected),
                ),
            ),
        )
    }
}

/// A message about the element `index` of an array literal: the start, the
/// index, the element's type, what joins, and the other type.
pub open spec fn element_message(
    start: Seq<char>,
    index: nat,
    found: Ty,
    joint: Seq<char>,
    other: Ty,
) -> Seq<char> {
    start + decimal_text(index) + " has type "@ + type_text(found) + joint + type_text(other)
}

/// The index of the first type from `i` on that is not the first type.
pub open spec fn first_different(types: Seq<Ty>, i: int) -> Option<int>
    decreases types.len() - i,
{
    if i < 0 || i >= types.len() {
        None
    } else if types[i] != types[0] {
        Some(i)
    } else {
        first_different(types, i + 1)
    }
}

/// Visits the node at `e`; `invalid` is the error for a ref outside the
/// pool.
pub open spec fn accept_expr(s: CheckerState, e: ExprRef, invalid: Seq<char>, depth: nat) -> (
    CheckerState,
    Outcome,
)
    decreases depth, 0nat, 0nat,
{
    if !s.has_expr(e) {
        (s, Err(generic(invalid)))
    } else if depth == 0 {
        (s, Err(too_deep()))
    } else {
        dispatch_expr(s, s.exprs[e.0 as int], (depth - 1) as nat)
    }
}

/// Visits one expression node.
pub open spec fn dispatch_expr(s: CheckerState, node: Expr, depth: nat) -> (CheckerState, Outcome)
    decreases depth, 7nat, 0nat,
{
    match node {
        Expr::Binary(op, lhs, rhs) => visit_binary(s, op, lhs, rhs, depth),
        Expr::Block(stmts) => visit_block(s, stmts@, depth),
        Expr::IfElifElse(_, then_block, elifs, else_block) => visit_if_elif_else(
            s,
            then_block,
            elifs@,
            else_block,
            depth,
        ),
        Expr::Assign(lhs, rhs) => visit_assign(s, lhs, rhs, depth),
        Expr::Identifier(name) => (s, visit_identifier(s, name)),
        Expr::Call(name, _) => visit_call(s, name, depth),
        Expr::Int64(_) => (s, Ok(Ty::Int64)),
        Expr::UInt64(_) => (s, Ok(Ty::UInt64)),
        Expr::Number(value) => (s, number_literal_type(s, value)),
        Expr::String(_) => (s, Ok(Ty::String)),
        Expr::True => (s, Ok(Ty::Bool)),
        Expr::False => (s, Ok(Ty::Bool)),
        Expr::Null => (s, Ok(Ty::Any)),
        Expr::ExprList(_) => (s, Ok(Ty::Unit)),
        Expr::ArrayLiteral(elements) => visit_array_literal(s, elements@, depth),
        Expr::ArrayAccess(array, index) => visit_array_access(s, array, index, depth),
        Expr::FieldAccess(object, field) => visit_field_access(s, object, field, depth),
        Expr::MethodCall(object, method, arguments) => visit_method_call(
            s,
            object,
            method,
            arguments@,
            depth,
        ),
        Expr::StructLiteral(name, fields) => visit_struct_literal(s, name, fields@, depth),
    }
}

/// Visits the expression at `e` through the cache: a cached type is
/// returned as it is; a fresh one is cached, and an integer type becomes
/// the hint where none was active.
pub open spec fn visit_expr(s: CheckerState, e: ExprRef, depth: nat) -> (CheckerState, Outcome)
    decreases depth, 1nat, 0nat,
{
    if s.cache.contains_key(e.0) {
        (s, Ok(s.cache[e.0]))
    } else {
        let (s1, r) = accept_expr(s, e, "Invalid expression reference"@, depth);
        match r {
            Err(error) => (s1, Err(error.located(s1.expr_location(e)))),
            Ok(ty) => {
                let s2 = s1.with_cache(s1.cache.insert(e.0, ty));
                if s.hint is None && ty.is_integer() && s2.hint is None {
                    (s2.with_hint(Some(ty)), Ok(ty))
                } else {
                    (s2, Ok(ty))
                }
            },
        }
    }
}

/// Visits the statement at `st`; `invalid` is the error for a ref outside
/// the pool.
pub open spec fn accept_stmt(s: CheckerState, st: StmtRef, invalid: Seq<char>, depth: nat) -> (
    CheckerState,
    Outcome,
)
    decreases depth, 0nat, 0nat,
{
    if st.0 >= s.stmts.len() {
        (s, Err(generic(invalid)))
    } else if depth == 0 {
        (s, Err(too_deep()))
    } else {
        dispatch_stmt(s, s.stmts[st.0 as int], (depth - 1) as nat)
    }
}

/// Visits one statement node.
pub open spec fn dispatch_stmt(s: CheckerState, node: Stmt, depth: nat) -> (CheckerState, Outcome)
    decreases depth, 7nat, 0nat,
{
    match node {
        Stmt::Expression(e) => accept_expr(
            s,
            e,
            "Invalid expression reference in statement"@,
            depth,
        ),
        Stmt::Var(name, ty, e) => process_val_type(s, name, option_view(ty), e, depth),
        Stmt::Val(name, ty, e) => visit_val(s, name, option_view(ty), e, depth),
        Stmt::Return(e) => visit_return(s, e, depth),
        Stmt::For(init, _, range, body) => visit_for(s, init, range, body, depth),
        Stmt::While(_, body) => accept_expr(
            s,
            body,
            "Invalid body expression reference in while"@,
            depth,
        ),
        Stmt::Break => (s, Ok(Ty::Unit)),
        Stmt::Continue => (s, Ok(Ty::Unit)),
        Stmt::StructDecl { name, fields } => (s, visit_struct_decl(name@, fields@)),
        Stmt::ImplBlock { target_type, methods } => (s, visit_impl_block(s, target_type@, methods@)),
    }
}

/// Checks the value of a declared variable against its declared type and
/// binds the variable to the value's type.
pub open spec fn process_val_type(
    s: CheckerState,
    name: Symbol,
    decl: Option<Ty>,
    e: Option<ExprRef>,
    depth: nat,
) -> (CheckerState, Outcome)
    decreases depth, 3nat, 0nat,
{
    match e {
        Some(e) => {
            let (s1, r) = visit_expr(s, e, depth);
            match r {
                Err(error) => (s1, Err(error)),
                Ok(ty) => if ty == Ty::Unit {
                    (s1, Err(ErrorView::type_mismatch(Ty::Unknown, ty)))
                } else if decl is Some && decl != Some(Ty::Unknown) && decl != Some(ty) {
                    (s1, Err(ErrorView::type_mismatch(decl->0, ty)))
                } else {
                    (s1.set_var(name, ty), Ok(Ty::Unit))
                },
            }
        },
        None => (s, Ok(Ty::Unit)),
    }
}

/// Checks a `val`: its value is visited under the declared type as hint, a
/// literal is rewritten where the type is decided, and the variable is
/// bound. The hint is put back on every way out.
pub open spec fn visit_val(s: CheckerState, name: Symbol, decl: Option<Ty>, e: ExprRef, depth: nat) -> (
    CheckerState,
    Outcome,
)
    decreases depth, 6nat, 0nat,
{
    let s1 = s.with_hint(hint_for_val(s.hint, decl));
    let (s2, r) = visit_expr(s1, e, depth);
    match r {
        Err(error) => (s2.with_hint(s.hint), Err(error)),
        Ok(ty) => {
            let s3 = update_variable_expr_mapping(s2, name, e, ty);
            let (s4, r2) = apply_type_transformations(s3, decl, ty, e);
            match r2 {
                Err(error) => (s4.with_hint(s.hint), Err(error)),
                Ok(_) => (
                    s4.set_var(name, determine_final_type(decl, ty)).with_hint(s.hint),
                    Ok(Ty::Unit),
                ),
            }
        },
    }
}

/// Checks a `return` on its own: its expression is visited.
pub open spec fn visit_return(s: CheckerState, e: Option<ExprRef>, depth: nat) -> (CheckerState, Outcome)
    decreases depth, 6nat, 0nat,
{
    match e {
        None => (s, Ok(Ty::Unit)),
        Some(e) => {
            let (s1, r) = accept_expr(s, e, "Invalid expression reference in return"@, depth);
            match r {
                Err(error) => (s1, Err(error)),
                Ok(_) => (s1, Ok(Ty::Unit)),
            }
        },
    }
}

/// The steps of a `for` within its scope: the bound is visited, the loop
/// variable takes its type, and the body is visited.
pub open spec fn for_steps(s: CheckerState, init: Symbol, range: ExprRef, body: ExprRef, depth: nat) -> (
    CheckerState,
    Outcome,
)
    decreases depth, 4nat, 0nat,
{
    let (s1, r) = accept_expr(s, range, "Invalid range expression reference"@, depth);
    match r {
        Err(error) => (s1, Err(error)),
        Ok(range_ty) => {
            let (s2, r2) = process_val_type(s1, init, Some(range_ty), Some(range), depth);
            match r2 {
                Err(error) => (s2, Err(error)),
                Ok(_) => accept_expr(s2, body, "Invalid body expression reference"@, depth),
            }
        },
    }
}

/// Checks a `for`: in a scope of its own, which is closed on every way out,
/// the loop variable takes the type of the bound, and the body is visited.
pub open spec fn visit_for(s: CheckerState, init: Symbol, range: ExprRef, body: ExprRef, depth: nat) -> (
    CheckerState,
    Outcome,
)
    decreases depth, 6nat, 0nat,
{
    let (s1, r) = for_steps(s.push_frame(), init, range, body, depth);
    (s1.pop_frame(), r)
}

/// Checks a binary operation: the operands are visited, a `Number` side
/// takes the other side's integer type, the literals and variables behind
/// it are resolved, and the operator decides the type.
pub open spec fn visit_binary(s: CheckerState, op: Operator, lhs: ExprRef, rhs: ExprRef, depth: nat) -> (
    CheckerState,
    Outcome,
)
    decreases depth, 6nat, 0nat,
{
    let (s1, r1) = accept_expr(s, lhs, "Invalid left-hand expression reference"@, depth);
    match r1 {
        Err(error) => (s1, Err(error)),
        Ok(lhs_ty) => {
            let (s2, r2) = accept_expr(s1, rhs, "Invalid right-hand expression reference"@, depth);
            match r2 {
                Err(error) => (s2, Err(error)),
                Ok(rhs_ty) => resolve_binary(s2, op, lhs, rhs, lhs_ty, rhs_ty),
            }
        },
    }
}

/// The state after the hint is handed to the operands that are `Number`.
pub open spec fn propagate_hint(s: CheckerState, lhs: ExprRef, rhs: ExprRef, lhs_ty: Ty, rhs_ty: Ty) -> CheckerState {
    match s.hint {
        Some(hint) => if hint.is_integer() {
            let s1 = if lhs_ty == Ty::Number {
                propagate_type_to_number_expr(s, lhs, hint)
            } else {
                s
            };
            if rhs_ty == Ty::Number {
                propagate_type_to_number_expr(s1, rhs, hint)
            } else {
                s1
            }
        } else {
            s
        },
        None => s,
    }
}

/// Notes what the resolved types of the operands decide: the hint is handed
/// to the `Number` operands, the rewrites are noted, and a variable of type
/// `Number` takes the other side's type.
pub open spec fn note_operands(
    s: CheckerState,
    lhs: ExprRef,
    rhs: ExprRef,
    lhs_ty: Ty,
    rhs_ty: Ty,
    left: Ty,
    right: Ty,
) -> CheckerState {
    let s1 = propagate_hint(s, lhs, rhs, lhs_ty, rhs_ty);
    let s2 = record_number_usage_context(s1, lhs, lhs_ty, left);
    let s3 = record_number_usage_context(s2, rhs, rhs_ty, right);
    let s4 = if left != Ty::Number && rhs_ty == Ty::Number {
        propagate_to_number_variable(s3, rhs, left)
    } else {
        s3
    };
    if right != Ty::Number && lhs_ty == Ty::Number {
        propagate_to_number_variable(s4, lhs, right)
    } else {
        s4
    }
}

/// Rewrites the operands that were `Number` and are resolved, and retypes
/// the variables among them.
pub open spec fn rewrite_operands(
    s: CheckerState,
    lhs: ExprRef,
    rhs: ExprRef,
    lhs_ty: Ty,
    rhs_ty: Ty,
    left: Ty,
    right: Ty,
) -> (CheckerState, Result<(), ErrorView>) {
    let (s1, t1) = if lhs_ty == Ty::Number && left != Ty::Number {
        transform_numeric_expr(s, lhs, left)
    } else {
        (s, Ok(()))
    };
    match t1 {
        Err(error) => (s1, Err(error)),
        Ok(_) => {
            let (s2, t2) = if rhs_ty == Ty::Number && right != Ty::Number {
                transform_numeric_expr(s1, rhs, right)
            } else {
                (s1, Ok(()))
            };
            match t2 {
                Err(error) => (s2, Err(error)),
                Ok(_) => (
                    update_identifier_types(
                        update_identifier_types(s2, lhs, lhs_ty, left),
                        rhs,
                        rhs_ty,
                        right,
                    ),
                    Ok(()),
                ),
            }
        },
    }
}

/// What follows the visits of the operands of a binary operation.
pub open spec fn resolve_binary(
    s: CheckerState,
    op: Operator,
    lhs: ExprRef,
    rhs: ExprRef,
    lhs_ty: Ty,
    rhs_ty: Ty,
) -> (CheckerState, Outcome) {
    match resolve_numeric_types(s.hint, lhs_ty, rhs_ty) {
        Err(error) => (s, Err(error)),
        Ok((left, right)) => {
            let s1 = note_operands(s, lhs, rhs, lhs_ty, rhs_ty, left, right);
            let (s2, r) = rewrite_operands(s1, lhs, rhs, lhs_ty, rhs_ty, left, right);
            match r {
                Err(error) => (s2, Err(error)),
                Ok(_) => (s2, binary_result(op, left, right)),
            }
        },
    }
}

/// Checks an assignment: both sides are visited and must have one type.
pub open spec fn visit_assign(s: CheckerState, lhs: ExprRef, rhs: ExprRef, depth: nat) -> (
    CheckerState,
    Outcome,
)
    decreases depth, 6nat, 0nat,
{
    let (s1, r1) = accept_expr(s, lhs, "Invalid left-hand expression reference"@, depth);
    match r1 {
        Err(error) => (s1, Err(error)),
        Ok(lhs_ty) => {
            let (s2, r2) = accept_expr(s1, rhs, "Invalid right-hand expression reference"@, depth);
            match r2 {
                Err(error) => (s2, Err(error)),
                Ok(rhs_ty) => if lhs_ty != rhs_ty {
                    (s2, Err(ErrorView::type_mismatch(lhs_ty, rhs_ty).with_context("assignment"@)))
                } else {
                    (s2, Ok(lhs_ty))
                },
            }
        },
    }
}

/// Checks a call: a function that is not done is checked first, in a scope
/// of its own, which is closed on every way out; the call has the declared
/// return type.
pub open spec fn visit_call(s: CheckerState, name: Symbol, depth: nat) -> (CheckerState, Outcome)
    decreases depth, 6nat, 0nat,
{
    let s0 = s.push_frame();
    if s0.functions.contains_key(name.0) {
        let function = s0.functions[name.0];
        let (s1, r) = if !s0.checked.contains_key(name.0) || s0.checked[name.0] is None {
            type_check(s0, *function, depth)
        } else {
            (s0, Ok(Ty::Unit))
        };
        match r {
            Err(error) => (s1.pop_frame(), Err(error)),
            Ok(_) => (s1.pop_frame(), Ok(return_type_of(option_view(function.return_type)))),
        }
    } else {
        (s0.pop_frame(), Err(ErrorView::not_found("Function"@, s.name_of(name, "<NOT_FOUND>"@))))
    }
}

/// Visits the statements of a function's body from the `i`-th on; `last`
/// is the type of the statement before.
pub open spec fn body_loop(s: CheckerState, stmts: Seq<StmtRef>, i: int, last: Ty, depth: nat) -> (
    CheckerState,
    Outcome,
)
    decreases depth, 3nat, stmts.len() - i,
{
    if i < 0 || i >= stmts.len() {
        (s, Ok(last))
    } else {
        let (s1, r) = accept_stmt(s, stmts[i], "Invalid statement reference"@, depth);
        match r {
            Err(error) => (s1, Err(error)),
            Ok(ty) => body_loop(s1, stmts, i + 1, ty, depth),
        }
    }
}

/// The end of a function's check, after its scope is closed: the type of
/// the body is held against the declared return type, and recorded where
/// they agree.
pub open spec fn conclude(
    s: CheckerState,
    call_depth: nat,
    hint: Option<Ty>,
    function: Function,
    last: Ty,
) -> (CheckerState, Outcome) {
    let declared = option_view(function.return_type);
    if declared is Some && declared != Some(last) {
        (
            abandoned(s, call_depth, hint, function.name),
            Err(ErrorView::type_mismatch(declared->0, last)),
        )
    } else {
        (
            CheckerState {
                checked: s.checked.insert(function.name.0, Some(last)),
                call_depth,
                hint,
                ..s
            },
            Ok(last),
        )
    }
}

/// The state in which the body of a function is visited: a scope with the
/// parameters, and the hint of the body's first integer annotation.
pub open spec fn opened(s: CheckerState, function: Function, stmts: Seq<StmtRef>) -> CheckerState {
    with_block_hint(bind_parameters(s.push_frame(), function.parameter@), stmts)
}

/// Checks a function: a function that is done has its recorded type, one
/// in progress `Unknown`. Else its body is visited in a scope that holds
/// its parameters, the finalization pass runs while that scope and the
/// body's hint are still in place, and the type of the body is held
/// against the declared return type and recorded. On every way out the
/// scope is closed and the call depth and the hint are as before; after a
/// failure the function is marked neither as done nor as in progress, so
/// that a later check of it runs anew.
pub open spec fn type_check(s: CheckerState, function: Function, depth: nat) -> (CheckerState, Outcome)
    decreases depth, 5nat, 0nat,
{
    if s.checked.contains_key(function.name.0) {
        match s.checked[function.name.0] {
            Some(ty) => (s, Ok(ty)),
            None => (s, Ok(Ty::Unknown)),
        }
    } else {
        let s1 = CheckerState {
            checked: s.checked.insert(function.name.0, None),
            cache: Map::empty(),
            call_depth: entered(s.call_depth),
            ..s
        };
        match function_body(s1, function.code) {
            Err(error) => (abandoned(s1, s.call_depth, s.hint, function.name), Err(error)),
            Ok(stmts) => {
                let s3 = opened(s1, function, stmts);
                let (s4, r) = body_loop(s3, stmts, 0, Ty::Unit, depth);
                match r {
                    Err(error) => (
                        abandoned(s4.pop_frame(), s.call_depth, s.hint, function.name),
                        Err(error),
                    ),
                    Ok(last) => {
                        let (s5, r2) = finalize_number_types(s4);
                        match r2 {
                            Err(error) => (
                                abandoned(s5.pop_frame(), s.call_depth, s.hint, function.name),
                                Err(error),
                            ),
                            Ok(_) => conclude(
                                s5.pop_frame(),
                                s.call_depth,
                                s.hint,
                                function,
                                last,
                            ),
                        }
                    },
                }
            },
        }
    }
}

/// Visits the statements of a block from the `i`-th on. `last` is the type
/// of the statement before; `last_empty` says that no `return` with a value
/// came yet.
pub open spec fn block_loop(
    s: CheckerState,
    stmts: Seq<StmtRef>,
    i: int,
    last: Option<Ty>,
    last_empty: bool,
    depth: nat,
) -> (CheckerState, Result<Option<Ty>, ErrorView>)
    decreases depth, 3nat, stmts.len() - i,
{
    if i < 0 || i >= stmts.len() {
        (s, Ok(last))
    } else if stmts[i].0 >= s.stmts.len() {
        (s, Err(generic("Invalid statement reference in block"@)))
    } else {
        match s.stmts[stmts[i].0 as int] {
            Stmt::Return(None) => block_loop(s, stmts, i + 1, Some(Ty::Unit), last_empty, depth),
            Stmt::Return(Some(e)) => {
                let (s1, r) = accept_expr(s, e, "Invalid expression reference in return"@, depth);
                match r {
                    Err(error) => (s1, Err(error)),
                    Ok(ty) => if !last_empty && last is Some && last != Some(ty) {
                        (
                            s1,
                            Err(
                                ErrorView::type_mismatch(last->0, ty).with_context(
                                    "return statement"@,
                                ),
                            ),
                        )
                    } else {
                        block_loop(s1, stmts, i + 1, Some(ty), false, depth)
                    },
                }
            },
            _ => {
                let (s1, r) = accept_stmt(s, stmts[i], "Invalid statement reference"@, depth);
                match r {
                    Err(error) => (s1, Err(error)),
                    Ok(ty) => block_loop(s1, stmts, i + 1, Some(ty), last_empty, depth),
                }
            },
        }
    }
}

/// Checks a block: its type is that of its last statement. The type cache
/// is emptied, and the first integer annotation among the statements is
/// the hint for all of them; the hint is put back on every way out.
pub open spec fn visit_block(s: CheckerState, stmts: Seq<StmtRef>, depth: nat) -> (CheckerState, Outcome)
    decreases depth, 6nat, 0nat,
{
    let s1 = s.with_cache(Map::empty());
    let (s2, r) = block_loop(with_block_hint(s1, stmts), stmts, 0, None, true, depth);
    match r {
        Err(error) => (s2.with_hint(s.hint), Err(error)),
        Ok(last) => match last {
            Some(ty) => (s2.with_hint(s.hint), Ok(ty)),
            None => (s2.with_hint(s.hint), Err(generic("Empty block - no return value"@))),
        },
    }
}

/// Visits one branch of an `if`: a block with statements adds its type to
/// `types`.
pub open spec fn visit_branch(
    s: CheckerState,
    block: ExprRef,
    invalid: Seq<char>,
    types: Seq<Ty>,
    depth: nat,
) -> (CheckerState, Result<Seq<Ty>, ErrorView>)
    decreases depth, 2nat, 0nat,
{
    if s.is_empty_block(block) {
        (s, Ok(types))
    } else {
        let (s1, r) = accept_expr(s, block, invalid, depth);
        match r {
            Err(error) => (s1, Err(error)),
            Ok(ty) => (s1, Ok(types.push(ty))),
        }
    }
}

/// Visits the `elif` branches from the `i`-th on.
pub open spec fn elif_loop(
    s: CheckerState,
    elifs: Seq<(ExprRef, ExprRef)>,
    i: int,
    types: Seq<Ty>,
    depth: nat,
) -> (CheckerState, Result<Seq<Ty>, ErrorView>)
    decreases depth, 3nat, elifs.len() - i,
{
    if i < 0 || i >= elifs.len() {
        (s, Ok(types))
    } else {
        let (s1, r) = visit_branch(
            s,
            elifs[i].1,
            "Invalid elif block expression reference"@,
            types,
            depth,
        );
        match r {
            Err(error) => (s1, Err(error)),
            Ok(more) => elif_loop(s1, elifs, i + 1, more, depth),
        }
    }
}

/// Checks an `if`: the branches with statements are visited in order; the
/// type is their common type, or `Unit`.
pub open spec fn visit_if_elif_else(
    s: CheckerState,
    then_block: ExprRef,
    elifs: Seq<(ExprRef, ExprRef)>,
    else_block: ExprRef,
    depth: nat,
) -> (CheckerState, Outcome)
    decreases depth, 6nat, 0nat,
{
    let (s1, r1) = visit_branch(
        s,
        then_block,
        "Invalid if block expression reference"@,
        Seq::empty(),
        depth,
    );
    match r1 {
        Err(error) => (s1, Err(error)),
        Ok(t1) => {
            let (s2, r2) = elif_loop(s1, elifs, 0, t1, depth);
            match r2 {
                Err(error) => (s2, Err(error)),
                Ok(t2) => {
                    let (s3, r3) = visit_branch(
                        s2,
                        else_block,
                        "Invalid else block expression reference"@,
                        t2,
                        depth,
                    );
                    match r3 {
                        Err(error) => (s3, Err(error)),
                        Ok(types) => (s3, Ok(common_type(types))),
                    }
                },
            }
        },
    }
}

/// Visits the expressions from the `i`-th on, each through the cache.
pub open spec fn visit_all(s: CheckerState, exprs: Seq<ExprRef>, i: int, depth: nat) -> (
    CheckerState,
    Result<(), ErrorView>,
)
    decreases depth, 3nat, exprs.len() - i,
{
    if i < 0 || i >= exprs.len() {
        (s, Ok(()))
    } else {
        let (s1, r) = visit_expr(s, exprs[i], depth);
        match r {
            Err(error) => (s1, Err(error)),
            Ok(_) => visit_all(s1, exprs, i + 1, depth),
        }
    }
}

/// Visits the elements of an array literal from the `i`-th on, each under
/// the element hint, and collects their types.
pub open spec fn elements_loop(
    s: CheckerState,
    elements: Seq<ExprRef>,
    i: int,
    types: Seq<Ty>,
    outer_hint: Option<Ty>,
    depth: nat,
) -> (CheckerState, Result<Seq<Ty>, ErrorView>)
    decreases depth, 3nat, elements.len() - i,
{
    if i < 0 || i >= elements.len() {
        (s, Ok(types))
    } else {
        let s0 = if element_hint_of(outer_hint) is Some {
            s.with_hint(element_hint_of(outer_hint))
        } else {
            s
        };
        let (s1, r) = visit_expr(s0, elements[i], depth);
        match r {
            Err(error) => (s1.with_hint(outer_hint), Err(error)),
            Ok(ty) => elements_loop(
                s1.with_hint(outer_hint),
                elements,
                i + 1,
                types.push(ty),
                outer_hint,
                depth,
            ),
        }
    }
}

/// Checks an array literal: it has an element, the elements are brought to
/// the hinted element type, and all have one type. The literal's type is
/// the array of that element type and the number of the elements.
pub open spec fn visit_array_literal(s: CheckerState, elements: Seq<ExprRef>, depth: nat) -> (
    CheckerState,
    Outcome,
)
    decreases depth, 6nat, 0nat,
{
    if elements.len() == 0 {
        (s, Err(ErrorView::array_error("Empty array literals are not supported"@)))
    } else {
        let (s1, r) = elements_loop(s, elements, 0, Seq::empty(), s.hint, depth);
        match r {
            Err(error) => (s1, Err(error)),
            Ok(types) => {
                let (s2, r2) = match element_hint_of(s.hint) {
                    Some(expected) => conform_elements(s1, elements, types, 0, expected),
                    None => (s1, Ok(types)),
                };
                match r2 {
                    Err(error) => (s2.with_hint(s.hint), Err(error)),
                    Ok(conformed) => match first_different(conformed, 0) {
                        None => (
                            s2.with_hint(s.hint),
                            Ok(Ty::Array(seq![conformed[0]], elements.len())),
                        ),
                        Some(i) => (
                            s2.with_hint(s.hint),
                            Err(
                                ErrorView::array_error(
                                    element_message(
                                        "Array elements must have the same type, but element "@,
                                        i as nat,
                                        conformed[i],
                                        " while first element has type "@,
                                        conformed[0],
                                    ),
                                ),
                            ),
                        ),
                    },
                }
            },
        }
    }
}

/// Checks an indexing: the index is visited under the hint `UInt64`, and
/// the hint is put back on every way out. An index that is an unresolved
/// literal is rewritten to `UInt64`, whatever type its visit gave; any
/// other index must be an integer. The type is the array's element type.
pub open spec fn visit_array_access(s: CheckerState, array: ExprRef, index: ExprRef, depth: nat) -> (
    CheckerState,
    Outcome,
)
    decreases depth, 6nat, 0nat,
{
    let (s1, r1) = visit_expr(s, array, depth);
    match r1 {
        Err(error) => (s1, Err(error)),
        Ok(array_ty) => {
            let (s2, r2) = visit_expr(s1.with_hint(Some(Ty::UInt64)), index, depth);
            match r2 {
                Err(error) => (s2.with_hint(s1.hint), Err(error)),
                Ok(index_ty) => {
                    let s3 = s2.with_hint(s1.hint);
                    let (s4, r3) = if s3.is_number(index) || index_ty == Ty::Number {
                        transform_numeric_expr(s3, index, Ty::UInt64)
                    } else if index_ty == Ty::Unknown || index_ty.is_integer() {
                        (s3, Ok(()))
                    } else {
                        (
                            s3,
                            Err(
                                ErrorView::array_error(
                                    "Array index must be an integer type, but got "@ + type_text(
                                        index_ty,
                                    ),
                                ),
                            ),
                        )
                    };
                    match r3 {
                        Err(error) => (s4, Err(error)),
                        Ok(_) => (s4, element_type(array_ty)),
                    }
                },
            }
        },
    }
}

/// Checks a field access: the object is visited; a field of a struct has
/// the type `Unknown`.
pub open spec fn visit_field_access(s: CheckerState, object: ExprRef, field: Symbol, depth: nat) -> (
    CheckerState,
    Outcome,
)
    decreases depth, 6nat, 0nat,
{
    let (s1, r) = visit_expr(s, object, depth);
    match r {
        Err(error) => (s1, Err(error)),
        Ok(ty) => if ty is Identifier || ty is Struct {
            (s1, Ok(Ty::Unknown))
        } else {
            (
                s1,
                Err(
                    ErrorView::unsupported_operation(
                        "field access '"@ + s1.name_of(field, "<unknown>"@) + "'"@,
                        ty,
                    ),
                ),
            )
        },
    }
}

/// Checks a method call: the receiver and the arguments are visited.
pub open spec fn visit_method_call(
    s: CheckerState,
    object: ExprRef,
    method: Symbol,
    arguments: Seq<ExprRef>,
    depth: nat,
) -> (CheckerState, Outcome)
    decreases depth, 6nat, 0nat,
{
    let (s1, r) = visit_expr(s, object, depth);
    match r {
        Err(error) => (s1, Err(error)),
        Ok(ty) => {
            let (s2, r2) = visit_all(s1, arguments, 0, depth);
            match r2 {
                Err(error) => (s2, Err(error)),
                Ok(_) => (
                    s2,
                    method_result(s2.name_of(method, "<unknown>"@), ty, arguments.len()),
                ),
            }
        },
    }
}

/// The expressions of the fields of a struct literal.
pub open spec fn field_values(fields: Seq<(Symbol, ExprRef)>) -> Seq<ExprRef> {
    Seq::new(fields.len(), |i: int| fields[i].1)
}

/// Checks a struct literal: the values of its fields are visited.
pub open spec fn visit_struct_literal(
    s: CheckerState,
    name: Symbol,
    fields: Seq<(Symbol, ExprRef)>,
    depth: nat,
) -> (CheckerState, Outcome)
    decreases depth, 6nat, 0nat,
{
    let (s1, r) = visit_all(s, field_values(fields), 0, depth);
    match r {
        Err(error) => (s1, Err(error)),
        Ok(_) => (s1, Ok(Ty::Struct(name))),
    }
}

/// Visits the statement at `st` and gives an error its place; a ref
/// outside the pool is an error.
pub open spec fn visit_stmt(s: CheckerState, st: StmtRef, depth: nat) -> (CheckerState, Outcome) {
    let (s1, r) = accept_stmt(s, st, "Invalid statement reference"@, depth);
    match r {
        Err(error) => (s1, Err(error.located(s1.stmt_location(st)))),
        Ok(ty) => (s1, Ok(ty)),
    }
}

} // verus!
