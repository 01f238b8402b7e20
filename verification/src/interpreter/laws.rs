//! Laws of the evaluation: scoping, and the sum that a counting loop leaves.

use crate::ast::{Expr, ExprRef, Operator, Stmt, StmtRef};
use crate::interpreter::environment::{
    assign, bind, define_var, find, leave, lemma_store_len, read, store, Binding, Scopes,
};
use crate::interpreter::error::RuntimeError;
use crate::interpreter::object::Value;
use crate::interpreter::operators::binary_value;
use crate::ast::{Function, Program};
use crate::interpreter::semantics::{
    after_round, bind_parameters, call_body, counter, eval_assign, eval_binary, eval_block,
    eval_expr, eval_for, eval_stmt, eval_value, finish_call, for_loop, run_stmts, EvalState, Flow,
    ProgramView, DEFAULT_STEPS, MAX_EVAL_DEPTH,
};
use crate::interpreter::{executed, main_function, registry, run_main};
use std::rc::Rc;
use crate::symbol::Symbol;
use vstd::prelude::*;

verus! {

/// A frame that does not bind a name hides nothing of it.
pub proof fn lemma_find_through(scopes: Scopes, frame: Map<u32, Binding>, name: Symbol)
    requires
        !frame.contains_key(name.0),
    ensures
        find(scopes.push(frame), name) == find(scopes, name),
{
    assert(scopes.push(frame).drop_last() =~= scopes);
}

/// A value stored in a variable goes past the frames that do not bind it.
pub proof fn lemma_store_through(scopes: Scopes, frame: Map<u32, Binding>, name: Symbol, value: Value)
    requires
        !frame.contains_key(name.0),
    ensures
        store(scopes.push(frame), name, value) == store(scopes, name, value).push(frame),
{
    assert(scopes.push(frame).drop_last() =~= scopes);
}

/// After a value is stored in a variable that is bound, the variable holds
/// that value and is as mutable as before.
pub proof fn lemma_find_stored(scopes: Scopes, name: Symbol, value: Value)
    requires
        find(scopes, name) is Some,
    ensures
        find(store(scopes, name, value), name) == Some(
            Binding { mutable: find(scopes, name)->0.mutable, value },
        ),
    decreases scopes.len(),
{
    if scopes.last().contains_key(name.0) {
        let stored = scopes.drop_last().push(
            scopes.last().insert(name.0, Binding { mutable: scopes.last()[name.0].mutable, value }),
        );
        assert(stored.last().contains_key(name.0));
    } else {
        lemma_find_stored(scopes.drop_last(), name, value);
        let stored = store(scopes.drop_last(), name, value).push(scopes.last());
        assert(stored.drop_last() =~= store(scopes.drop_last(), name, value));
    }
}

/// A variable declared in an inner frame shadows the outer one of its
/// name: whatever is assigned to it there, the frames outside are as
/// before once the inner frame is left.
pub proof fn law_shadowing(scopes: Scopes, name: Symbol, first: Value, second: Value)
    ensures
        ({
            let inner = define_var(scopes.push(Map::empty()), name, first);
            &&& inner is Ok
            &&& leave(inner->Ok_0) == scopes
            &&& match assign(inner->Ok_0, name, second) {
                Ok(stored) => leave(stored) == scopes && find(leave(stored), name) == find(
                    scopes,
                    name,
                ),
                Err(_) => true,
            }
        }),
{
    let opened = scopes.push(Map::<u32, Binding>::empty());
    assert(opened.drop_last() =~= scopes);
    let inner = define_var(opened, name, first);
    assert(inner is Ok);
    let declared = inner->Ok_0;
    assert(declared.drop_last() =~= scopes);
    assert(declared.last().contains_key(name.0));
    match assign(declared, name, second) {
        Ok(stored) => {
            assert(stored == store(declared, name, second));
            assert(stored.drop_last() =~= scopes);
        },
        Err(_) => {},
    }
}

/// Whether the loop body at `body` is the block `{ sum = sum + i }`.
pub open spec fn is_sum_body(p: ProgramView, body: ExprRef, sum: Symbol, variable: Symbol) -> bool {
    &&& body.0 < p.exprs.len()
    &&& p.exprs[body.0 as int] is Block
    &&& p.exprs[body.0 as int]->Block_0@.len() == 1
    &&& {
        let st = p.exprs[body.0 as int]->Block_0@[0];
        &&& st.0 < p.stmts.len()
        &&& p.stmts[st.0 as int] is Expression
        &&& {
            let a = p.stmts[st.0 as int]->Expression_0;
            &&& a.0 < p.exprs.len()
            &&& p.exprs[a.0 as int] is Assign
            &&& {
                let lhs = p.exprs[a.0 as int]->Assign_0;
                let rhs = p.exprs[a.0 as int]->Assign_1;
                &&& lhs.0 < p.exprs.len()
                &&& p.exprs[lhs.0 as int] == Expr::Identifier(sum)
                &&& rhs.0 < p.exprs.len()
                &&& p.exprs[rhs.0 as int] is Binary
                &&& p.exprs[rhs.0 as int]->Binary_0 == Operator::IAdd
                &&& {
                    let l = p.exprs[rhs.0 as int]->Binary_1;
                    let r = p.exprs[rhs.0 as int]->Binary_2;
                    &&& l.0 < p.exprs.len()
                    &&& p.exprs[l.0 as int] == Expr::Identifier(sum)
                    &&& r.0 < p.exprs.len()
                    &&& p.exprs[r.0 as int] == Expr::Identifier(variable)
                }
            }
        }
    }
}

/// One round of the loop `for i in .. { sum = sum + i }` stores in `sum`
/// the sum of what it held and the counter, and leaves the rest as it is.
pub proof fn lemma_sum_round(
    p: ProgramView,
    s: EvalState,
    variable: Symbol,
    sum: Symbol,
    current: Value,
    k: Value,
    total: Value,
    body: ExprRef,
    depth: nat,
)
    requires
        is_sum_body(p, body, sum, variable),
        variable != sum,
        depth >= 5,
        find(s.env, sum) == Some(Binding { mutable: true, value: current }),
        binary_value(Operator::IAdd, current, k) == Ok::<Value, RuntimeError>(total),
        total.kind() == current.kind(),
    ensures
        ({
            let s1 = s.enter();
            let s2 = s1.with_env(bind(s1.env, variable, Binding { mutable: false, value: k }));
            let (s3, r) = eval_expr(p, s2, body, depth);
            &&& r == Ok::<Flow, RuntimeError>(Flow::Value(total))
            &&& s3.exit() == s.with_env(store(s.env, sum, total))
        }),
{
    let s1 = s.enter();
    let round = Map::<u32, Binding>::empty().insert(
        variable.0,
        Binding { mutable: false, value: k },
    );
    let s2 = s1.with_env(bind(s1.env, variable, Binding { mutable: false, value: k }));
    assert(s1.env.drop_last() =~= s.env);
    assert(s2.env =~= s.env.push(round));
    let stmts = p.exprs[body.0 as int]->Block_0@;
    let st = stmts[0];
    let a = p.stmts[st.0 as int]->Expression_0;
    let lhs = p.exprs[a.0 as int]->Assign_0;
    let rhs = p.exprs[a.0 as int]->Assign_1;
    let l = p.exprs[rhs.0 as int]->Binary_1;
    let r = p.exprs[rhs.0 as int]->Binary_2;
    let d1 = (depth - 1) as nat;
    let d2 = (depth - 2) as nat;
    let d3 = (depth - 3) as nat;
    let d4 = (depth - 4) as nat;
    let s3 = s2.enter();
    let inner = s.env.push(round).push(Map::<u32, Binding>::empty());
    assert(s3.env =~= inner);
    // The operands.
    assert(round.contains_key(variable.0) && !round.contains_key(sum.0));
    lemma_find_through(s.env.push(round), Map::<u32, Binding>::empty(), sum);
    lemma_find_through(s.env, round, sum);
    lemma_find_through(s.env.push(round), Map::<u32, Binding>::empty(), variable);
    assert(inner.drop_last() =~= s.env.push(round));
    assert(find(inner, variable) == Some(Binding { mutable: false, value: k })) by {
        assert(s.env.push(round).last() == round);
    }
    assert(!(current is Null) && !(k is Null));
    assert(eval_expr(p, s3, l, d4) == (s3, Ok::<Flow, RuntimeError>(Flow::Value(current))));
    assert(eval_expr(p, s3, r, d4) == (s3, Ok::<Flow, RuntimeError>(Flow::Value(k))));
    assert(eval_value(p, s3, l, d4) == (s3, Ok::<Value, RuntimeError>(current)));
    assert(eval_value(p, s3, r, d4) == (s3, Ok::<Value, RuntimeError>(k)));
    // The sum.
    assert(eval_binary(p, s3, Operator::IAdd, l, r, d4) == (s3, Ok::<Flow, RuntimeError>(
        Flow::Value(total),
    )));
    assert(eval_expr(p, s3, rhs, d3) == (s3, Ok::<Flow, RuntimeError>(Flow::Value(total))));
    assert(eval_value(p, s3, rhs, d3) == (s3, Ok::<Value, RuntimeError>(total)));
    // The assignment.
    lemma_store_through(s.env.push(round), Map::<u32, Binding>::empty(), sum, total);
    lemma_store_through(s.env, round, sum, total);
    let stored = store(s.env, sum, total).push(round).push(Map::<u32, Binding>::empty());
    assert(assign(inner, sum, total) == Ok::<Scopes, RuntimeError>(stored));
    let s4 = s3.with_env(stored);
    assert(eval_assign(p, s3, lhs, rhs, d3) == (s4, Ok::<Flow, RuntimeError>(Flow::Value(total))));
    assert(eval_expr(p, s3, a, d2) == (s4, Ok::<Flow, RuntimeError>(Flow::Value(total))));
    assert(eval_stmt(p, s3, st, d1) == (s4, Ok::<Flow, RuntimeError>(Flow::Value(total))));
    // The block.
    assert(run_stmts(p, s4, stmts, 1, Flow::Value(total), d1) == (s4, Ok::<Flow, RuntimeError>(
        Flow::Value(total),
    )));
    assert(run_stmts(p, s3, stmts, 0, Flow::Value(Value::Unit), d1) == (s4, Ok::<
        Flow,
        RuntimeError,
    >(Flow::Value(total))));
    assert(stored.drop_last() =~= store(s.env, sum, total).push(round));
    assert(eval_block(p, s2, stmts, d1) == (s4.exit(), Ok::<Flow, RuntimeError>(
        Flow::Value(total),
    )));
    assert(eval_expr(p, s2, body, depth) == (s4.exit(), Ok::<Flow, RuntimeError>(
        Flow::Value(total),
    )));
    assert(store(s.env, sum, total).push(round).drop_last() =~= store(s.env, sum, total));
}

/// What `sum` holds after the loop over the counters from `i` up to `end`:
/// `first` plus the counters, added one by one, each addition wrapping in
/// the 64 bits of its type.
pub open spec fn loop_sum(signed: bool, first: int, i: int, end: int) -> Value
    decreases end - i,
{
    if i >= end {
        counter(signed, first)
    } else if signed {
        loop_sum(signed, (first as i64).wrapping_add(i as i64) as int, i + 1, end)
    } else {
        loop_sum(signed, (first as u64).wrapping_add(i as u64) as int, i + 1, end)
    }
}

/// The loop `for i in start to end { sum = sum + i }` leaves in `sum` what
/// it held plus the integers from `start` up to `end`, which is not
/// reached; the additions wrap. This holds of signed and of unsigned
/// counters.
pub proof fn law_for_loop_sum(
    p: ProgramView,
    s: EvalState,
    variable: Symbol,
    sum: Symbol,
    signed: bool,
    initial: int,
    start: int,
    end: int,
    body: ExprRef,
    depth: nat,
)
    requires
        is_sum_body(p, body, sum, variable),
        variable != sum,
        depth >= 5,
        signed ==> i64::MIN <= start && end <= i64::MAX && i64::MIN <= initial <= i64::MAX,
        !signed ==> 0 <= start && end <= u64::MAX && 0 <= initial <= u64::MAX,
        find(s.env, sum) == Some(Binding { mutable: true, value: counter(signed, initial) }),
    ensures
        for_loop(p, s, variable, start, end, signed, body, depth) == (
            if start >= end {
                s
            } else {
                s.with_env(store(s.env, sum, loop_sum(signed, initial, start, end)))
            },
            Ok::<Flow, RuntimeError>(Flow::Value(Value::Unit)),
        ),
    decreases end - start,
{
    if start < end {
        let next: int = if signed {
            (initial as i64).wrapping_add(start as i64) as int
        } else {
            (initial as u64).wrapping_add(start as u64) as int
        };
        let current = counter(signed, initial);
        let k = counter(signed, start);
        let total = counter(signed, next);
        lemma_sum_round(p, s, variable, sum, current, k, total, body, depth);
        let after = s.with_env(store(s.env, sum, total));
        lemma_find_stored(s.env, sum, total);
        law_for_loop_sum(p, after, variable, sum, signed, next, start + 1, end, body, depth);
        let s1 = s.enter();
        let s2 = s1.with_env(bind(s1.env, variable, Binding { mutable: false, value: k }));
        let (s3, r) = eval_expr(p, s2, body, depth);
        assert(r == Ok::<Flow, RuntimeError>(Flow::Value(total)));
        assert(after_round(r) is None);
        assert(s3.exit() == after);
        assert(for_loop(p, s, variable, start, end, signed, body, depth) == for_loop(
            p,
            after,
            variable,
            start + 1,
            end,
            signed,
            body,
            depth,
        ));
        assert(loop_sum(signed, initial, start, end) == loop_sum(signed, next, start + 1, end));
        if start + 1 < end {
            lemma_store_twice(s.env, sum, total, loop_sum(signed, next, start + 1, end));
        }
    }
}

/// The sum of the integers from `i` up to `end`, which it does not reach.
pub open spec fn range_sum(i: int, end: int) -> int
    decreases end - i,
{
    if i >= end {
        0
    } else {
        i + range_sum(i + 1, end)
    }
}

/// Whether `first` plus the integers from `i` up to `end`, added one by
/// one, stays within the 64 bits of the type at every step.
pub open spec fn sum_fits(signed: bool, first: int, i: int, end: int) -> bool
    decreases end - i,
{
    if i >= end {
        true
    } else if signed {
        i64::MIN <= first + i <= i64::MAX && sum_fits(signed, first + i, i + 1, end)
    } else {
        0 <= first + i <= u64::MAX && sum_fits(signed, first + i, i + 1, end)
    }
}

/// Where no addition overflows, the loop leaves the sum: what the variable
/// held plus the integers of the range.
pub proof fn law_loop_sum_exact(signed: bool, first: int, i: int, end: int)
    requires
        signed ==> i64::MIN <= i && end <= i64::MAX && i64::MIN <= first <= i64::MAX,
        !signed ==> 0 <= i && end <= u64::MAX && 0 <= first <= u64::MAX,
        sum_fits(signed, first, i, end),
    ensures
        loop_sum(signed, first, i, end) == counter(signed, first + range_sum(i, end)),
    decreases end - i,
{
    if i < end {
        law_loop_sum_exact(signed, first + i, i + 1, end);
    }
}

/// A second value stored in a variable replaces the first.
pub proof fn lemma_store_twice(scopes: Scopes, name: Symbol, first: Value, second: Value)
    ensures
        store(store(scopes, name, first), name, second) == store(scopes, name, second),
    decreases scopes.len(),
{
    if scopes.len() > 0 {
        if scopes.last().contains_key(name.0) {
            let once = store(scopes, name, first);
            assert(once.drop_last() =~= scopes.drop_last());
            assert(once.last().contains_key(name.0));
            assert(store(once, name, second) =~= store(scopes, name, second)) by {
                assert(once.last().insert(
                    name.0,
                    Binding { mutable: once.last()[name.0].mutable, value: second },
                ) =~= scopes.last().insert(
                    name.0,
                    Binding { mutable: scopes.last()[name.0].mutable, value: second },
                ));
            }
        } else {
            lemma_store_twice(scopes.drop_last(), name, first, second);
            let once = store(scopes, name, first);
            assert(once.drop_last() =~= store(scopes.drop_last(), name, first));
            assert(once.last() == scopes.last());
        }
    }
}

/// Whether `main` is the function without parameters whose body is
/// `{ var sum = 0i64; for i in start to end { sum = sum + i }; sum }`,
/// with `start` and `end` as literals of the type `i64`.
pub open spec fn is_sum_main(
    p: ProgramView,
    main: Function,
    sum: Symbol,
    variable: Symbol,
    start: i64,
    end: i64,
) -> bool {
    &&& main.parameter@.len() == 0
    &&& main.code.0 < p.stmts.len()
    &&& p.stmts[main.code.0 as int] is Expression
    &&& {
        let block = p.stmts[main.code.0 as int]->Expression_0;
        &&& block.0 < p.exprs.len()
        &&& p.exprs[block.0 as int] is Block
        &&& p.exprs[block.0 as int]->Block_0@.len() == 3
        &&& {
            let stmts = p.exprs[block.0 as int]->Block_0@;
            &&& stmts[0].0 < p.stmts.len()
            &&& p.stmts[stmts[0].0 as int] is Var
            &&& p.stmts[stmts[0].0 as int]->Var_0 == sum
            &&& p.stmts[stmts[0].0 as int]->Var_2 is Some
            &&& {
                let zero = p.stmts[stmts[0].0 as int]->Var_2->0;
                zero.0 < p.exprs.len() && p.exprs[zero.0 as int] == Expr::Int64(0)
            }
            &&& stmts[1].0 < p.stmts.len()
            &&& p.stmts[stmts[1].0 as int] is For
            &&& p.stmts[stmts[1].0 as int]->For_0 == variable
            &&& {
                let first = p.stmts[stmts[1].0 as int]->For_1;
                let bound = p.stmts[stmts[1].0 as int]->For_2;
                &&& first.0 < p.exprs.len()
                &&& p.exprs[first.0 as int] == Expr::Int64(start)
                &&& bound.0 < p.exprs.len()
                &&& p.exprs[bound.0 as int] == Expr::Int64(end)
            }
            &&& is_sum_body(p, p.stmts[stmts[1].0 as int]->For_3, sum, variable)
            &&& stmts[2].0 < p.stmts.len()
            &&& p.stmts[stmts[2].0 as int] is Expression
            &&& {
                let result = p.stmts[stmts[2].0 as int]->Expression_0;
                result.0 < p.exprs.len() && p.exprs[result.0 as int] == Expr::Identifier(sum)
            }
        }
    }
}

/// What a loop over signed counters leaves is a signed integer.
pub proof fn lemma_loop_sum_signed(first: int, i: int, end: int)
    ensures
        loop_sum(true, first, i, end) is Int64,
    decreases end - i,
{
    if i < end {
        lemma_loop_sum_signed((first as i64).wrapping_add(i as i64) as int, i + 1, end);
    }
}

/// The three statements of the summing function, run in a frame of their
/// own, give what the loop leaves in `sum`.
pub proof fn lemma_sum_statements(
    p: ProgramView,
    s: EvalState,
    main: Rc<Function>,
    sum: Symbol,
    variable: Symbol,
    start: i64,
    end: i64,
    depth: nat,
)
    requires
        is_sum_main(p, *main, sum, variable, start, end),
        variable != sum,
        depth >= 8,
    ensures
        eval_block(
            p,
            s,
            p.exprs[p.stmts[main.code.0 as int]->Expression_0.0 as int]->Block_0@,
            depth,
        ) == (s, Ok::<Flow, RuntimeError>(Flow::Value(loop_sum(true, 0, start as int, end as int)))),
{
    let stmts = p.exprs[p.stmts[main.code.0 as int]->Expression_0.0 as int]->Block_0@;
    let d = (depth - 1) as nat;
    let total = loop_sum(true, 0, start as int, end as int);
    let unit = Flow::Value(Value::Unit);
    let s2 = s.enter();
    let declared = Binding { mutable: true, value: Value::Int64(0) };
    let s3 = s2.with_env(bind(s2.env, sum, declared));
    assert(eval_stmt(p, s2, stmts[0], depth) == (s3, Ok::<Flow, RuntimeError>(unit))) by {
        let zero = p.stmts[stmts[0].0 as int]->Var_2->0;
        assert(eval_expr(p, s2, zero, d) == (s2, Ok::<Flow, RuntimeError>(Flow::Value(Value::Int64(0)))));
        assert(eval_value(p, s2, zero, d) == (s2, Ok::<Value, RuntimeError>(Value::Int64(0))));
        assert(!s2.env.last().contains_key(sum.0));
        assert(define_var(s2.env, sum, Value::Int64(0)) == Ok::<Scopes, RuntimeError>(
            bind(s2.env, sum, declared),
        ));
    }
    assert(s3.env.last().contains_key(sum.0));
    assert(find(s3.env, sum) == Some(declared));
    let s4 = if start >= end {
        s3
    } else {
        s3.with_env(store(s3.env, sum, total))
    };
    assert(eval_stmt(p, s3, stmts[1], depth) == (s4, Ok::<Flow, RuntimeError>(unit))) by {
        let first = p.stmts[stmts[1].0 as int]->For_1;
        let bound = p.stmts[stmts[1].0 as int]->For_2;
        let body = p.stmts[stmts[1].0 as int]->For_3;
        assert(eval_expr(p, s3, first, d) == (s3, Ok::<Flow, RuntimeError>(Flow::Value(Value::Int64(start)))));
        assert(eval_value(p, s3, first, d) == (s3, Ok::<Value, RuntimeError>(Value::Int64(start))));
        assert(eval_expr(p, s3, bound, d) == (s3, Ok::<Flow, RuntimeError>(Flow::Value(Value::Int64(end)))));
        assert(eval_value(p, s3, bound, d) == (s3, Ok::<Value, RuntimeError>(Value::Int64(end))));
        law_for_loop_sum(p, s3, variable, sum, true, 0, start as int, end as int, body, d);
        assert(eval_for(p, s3, variable, first, bound, body, d) == for_loop(
            p,
            s3,
            variable,
            start as int,
            end as int,
            true,
            body,
            d,
        ));
    }
    lemma_loop_sum_signed(0, start as int, end as int);
    assert(find(s4.env, sum) == Some(Binding { mutable: true, value: total })) by {
        if start < end {
            lemma_find_stored(s3.env, sum, total);
        }
    }
    assert(eval_stmt(p, s4, stmts[2], depth) == (s4, Ok::<Flow, RuntimeError>(Flow::Value(total)))) by {
        let result = p.stmts[stmts[2].0 as int]->Expression_0;
        assert(read(s4.env, sum) == Ok::<Value, RuntimeError>(total));
        assert(eval_expr(p, s4, result, d) == (s4, Ok::<Flow, RuntimeError>(Flow::Value(total))));
    }
    assert(run_stmts(p, s4, stmts, 3, Flow::Value(total), depth) == (
        s4,
        Ok::<Flow, RuntimeError>(Flow::Value(total)),
    ));
    assert(run_stmts(p, s4, stmts, 2, unit, depth) == (
        s4,
        Ok::<Flow, RuntimeError>(Flow::Value(total)),
    ));
    assert(run_stmts(p, s3, stmts, 1, unit, depth) == (
        s4,
        Ok::<Flow, RuntimeError>(Flow::Value(total)),
    ));
    assert(run_stmts(p, s2, stmts, 0, unit, depth) == (
        s4,
        Ok::<Flow, RuntimeError>(Flow::Value(total)),
    ));
    assert(s4.exit() == s) by {
        lemma_store_len(s3.env, sum, total);
        assert(s3.env.drop_last() =~= s.env);
        if start < end {
            assert(store(s3.env, sum, total).drop_last() =~= s.env);
        }
    }
}

/// A run of the function
/// `{ var sum = 0i64; for i in start to end { sum = sum + i }; sum }`
/// gives zero plus the integers from `start` up to `end`, which is not
/// reached, added one by one with additions that wrap; where no addition
/// overflows, that is the sum of those integers.
pub proof fn law_sum_run(
    p: ProgramView,
    main: Rc<Function>,
    sum: Symbol,
    variable: Symbol,
    start: i64,
    end: i64,
)
    requires
        is_sum_main(p, *main, sum, variable, start, end),
        variable != sum,
    ensures
        run_main(p, *main) == Ok::<Value, RuntimeError>(loop_sum(true, 0, start as int, end as int)),
        sum_fits(true, 0, start as int, end as int) ==> run_main(p, *main) == Ok::<
            Value,
            RuntimeError,
        >(Value::Int64(range_sum(start as int, end as int) as i64)),
{
    let depth = MAX_EVAL_DEPTH as nat;
    let s0 = EvalState { env: Seq::empty(), steps: DEFAULT_STEPS as nat };
    let s1 = s0.enter();
    let block = p.stmts[main.code.0 as int]->Expression_0;
    let stmts = p.exprs[block.0 as int]->Block_0@;
    let total = loop_sum(true, 0, start as int, end as int);
    lemma_sum_statements(p, s1, main, sum, variable, start, end, (depth - 2) as nat);
    assert(eval_expr(p, s1, block, (depth - 1) as nat) == eval_block(
        p,
        s1,
        stmts,
        (depth - 2) as nat,
    ));
    assert(eval_stmt(p, s1, main.code, depth) == (
        s1,
        Ok::<Flow, RuntimeError>(Flow::Value(total)),
    ));
    assert(bind_parameters(s1.env, main.parameter@, Seq::empty(), 0) == Ok::<Scopes, RuntimeError>(
        s1.env,
    ));
    assert(s1.with_env(s1.env) == s1);
    assert(call_body(p, s0, main.parameter@, main.code, None, Seq::empty(), depth).1 == finish_call(
        Ok::<Flow, RuntimeError>(Flow::Value(total)),
    ));
    if sum_fits(true, 0, start as int, end as int) {
        law_loop_sum_exact(true, 0, start as int, end as int);
    }
}

/// A program whose function `main` is
/// `{ var sum = 0i64; for i in start to end { sum = sum + i }; sum }`
/// runs to the sum of the integers from `start` up to `end`, which is not
/// reached, where no addition on the way overflows.
pub proof fn law_sum_program(
    program: Program,
    main: Rc<Function>,
    sum: Symbol,
    variable: Symbol,
    start: i64,
    end: i64,
    source: Option<Seq<char>>,
    filename: Option<Seq<char>>,
)
    requires
        main_function(program.string_interner.strings(), program.function@) == Ok::<
            Rc<Function>,
            Seq<char>,
        >(main),
        registry(program.statement@, 0, program.string_interner.strings(), Seq::empty()) is Some,
        is_sum_main(
            ProgramView {
                stmts: program.statement@,
                exprs: program.expression@,
                strings: Seq::empty(),
                functions: Map::empty(),
                methods: Map::empty(),
                self_symbol: None,
                len_symbol: None,
            },
            *main,
            sum,
            variable,
            start,
            end,
        ),
        variable != sum,
        sum_fits(true, 0, start as int, end as int),
    ensures
        executed(program, source, filename) == Ok::<Value, Seq<char>>(
            Value::Int64(range_sum(start as int, end as int) as i64),
        ),
{
    let found = registry(program.statement@, 0, program.string_interner.strings(), Seq::empty())->0;
    let p = ProgramView {
        stmts: program.statement@,
        exprs: program.expression@,
        strings: found.0,
        functions: crate::interpreter::function_map(program.function@),
        methods: crate::interpreter::registered(Map::empty(), found.1),
        self_symbol: crate::interner::symbol_of(found.0, "self"@),
        len_symbol: crate::interner::symbol_of(found.0, "len"@),
    };
    law_sum_run(p, main, sum, variable, start, end);
}

} // verus!
