//! Checking and running whole programs.

pub mod environment;
pub mod error;
pub mod evaluation;
pub mod laws;
pub mod object;
pub mod operators;
pub mod report;
pub mod semantics;

use crate::ast::{ExprPool, Function, LocationPool, MethodFunction, Program, Stmt, StmtPool};
use crate::interner::{no_room, symbol_of, with_string, Interner};
use crate::interpreter::error::{InterpreterError, RuntimeError};
use crate::interpreter::evaluation::EvaluationContext;
use crate::interpreter::object::{Object, Value};
use crate::interpreter::report::{runtime_report, type_report, write_runtime_report, write_type_report};
use crate::interpreter::semantics::{EvalState, ProgramView};
use crate::shared::share;
use crate::symbol::Symbol;
use crate::text::{byte_len, chars_before, line_col, position_after};
use crate::type_checker::model::{CheckerState, MAX_DEPTH};
use crate::type_checker::rules;
use crate::type_checker::TypeCheckerVisitor;
use std::collections::HashMap;
use std::rc::Rc;
use vstd::prelude::*;
use vstd::string::*;

verus! {

/// The state in which a program's functions are checked: the program, and
/// nothing else known yet.
pub open spec fn initial_state(
    stmts: Seq<Stmt>,
    exprs: Seq<crate::ast::Expr>,
    strings: Seq<Seq<char>>,
    locations: LocationPool,
) -> CheckerState {
    CheckerState {
        stmts,
        exprs,
        strings,
        expr_locations: locations.expr_locations@,
        stmt_locations: locations.stmt_locations@,
        vars: Seq::empty(),
        functions: Map::empty(),
        hint: None,
        var_exprs: Seq::empty(),
        usage: Seq::empty(),
        checked: Map::empty(),
        call_depth: 0,
        cache: Map::empty(),
    }
}

/// The state with the functions registered, in their order.
pub open spec fn register_all(s: CheckerState, functions: Seq<Rc<Function>>) -> CheckerState
    decreases functions.len(),
{
    if functions.len() == 0 {
        s
    } else {
        let s1 = register_all(s, functions.drop_last());
        CheckerState {
            functions: s1.functions.insert(functions.last().name.0, functions.last()),
            ..s1
        }
    }
}

/// Registering functions leaves the interned strings as they are.
pub proof fn lemma_register_all_strings(s: CheckerState, functions: Seq<Rc<Function>>)
    ensures
        register_all(s, functions).strings == s.strings,
    decreases functions.len(),
{
    if functions.len() > 0 {
        lemma_register_all_strings(s, functions.drop_last());
    }
}

/// Registering functions leaves the record of the checks, the expressions
/// and the scopes as they are.
pub proof fn lemma_register_all_checked(s: CheckerState, functions: Seq<Rc<Function>>)
    ensures
        register_all(s, functions).checked == s.checked,
        register_all(s, functions).exprs == s.exprs,
        register_all(s, functions).vars == s.vars,
    decreases functions.len(),
{
    if functions.len() > 0 {
        lemma_register_all_checked(s, functions.drop_last());
    }
}

/// Checks the functions from the `i`-th on, and adds a report to `errors`
/// for each that fails.
pub open spec fn check_functions(
    s: CheckerState,
    functions: Seq<Rc<Function>>,
    i: int,
    errors: Seq<Seq<char>>,
    source: Option<Seq<char>>,
    filename: Option<Seq<char>>,
) -> (CheckerState, Seq<Seq<char>>)
    decreases functions.len() - i,
{
    if i < 0 || i >= functions.len() {
        (s, errors)
    } else {
        let (s1, r) = rules::type_check(s, *functions[i], MAX_DEPTH as nat);
        match r {
            Ok(_) => check_functions(s1, functions, i + 1, errors, source, filename),
            Err(error) => check_functions(
                s1,
                functions,
                i + 1,
                errors.push(type_report(s1.strings, functions[i].name, error, source, filename)),
                source,
                filename,
            ),
        }
    }
}

/// The texts of a list of strings.
pub open spec fn texts_view(texts: Seq<String>) -> Seq<Seq<char>> {
    Seq::new(texts.len(), |i: int| texts[i]@)
}

/// The text of an optional string slice.
pub open spec fn slice_view(text: Option<&str>) -> Option<Seq<char>> {
    match text {
        Some(t) => Some(t@),
        None => None,
    }
}

/// Checks every function of a program whose expressions are `expr_pool`,
/// and gives the pool back with the reports of the functions that failed.
pub fn check_all(
    stmt_pool: &StmtPool,
    expr_pool: ExprPool,
    string_interner: &Interner,
    location_pool: &LocationPool,
    functions: &Vec<Rc<Function>>,
    source_code: Option<&str>,
    filename: Option<&str>,
) -> (checked: (ExprPool, Vec<String>))
    ensures
        ({
            let start = register_all(
                initial_state(stmt_pool@, expr_pool@, string_interner.strings(), *location_pool),
                functions@,
            );
            let (end, errors) = check_functions(
                start,
                functions@,
                0,
                Seq::empty(),
                slice_view(source_code),
                slice_view(filename),
            );
            &&& checked.0@ == end.exprs
            &&& texts_view(checked.1@) == errors
            &&& rules::evolves(start, end)
        }),
        checked.0@.len() == expr_pool@.len(),
        checked.1@.len() <= functions@.len(),
        checked.1@.len() == 0 && functions@.len() > 0 ==> forall|i: int|
            0 <= i < checked.0@.len() ==> !(#[trigger] checked.0@[i] is Number),
{
    let mut tc = TypeCheckerVisitor::new(stmt_pool, expr_pool, string_interner, location_pool);
    let ghost fresh = tc@;
    let mut k: usize = 0;
    assert(functions@.subrange(0, 0) =~= Seq::<Rc<Function>>::empty());
    while k < functions.len()
        invariant
            k <= functions.len(),
            tc@ == register_all(fresh, functions@.subrange(0, k as int)),
        decreases functions.len() - k,
    {
        assert(functions@.subrange(0, k + 1).drop_last() =~= functions@.subrange(0, k as int));
        tc.add_function(share(&functions[k]));
        k += 1;
    }
    assert(functions@.subrange(0, functions@.len() as int) =~= functions@);
    let ghost start = tc@;
    proof {
        lemma_register_all_strings(fresh, functions@);
    }
    let mut errors: Vec<String> = Vec::new();
    assert(texts_view(errors@) =~= Seq::<Seq<char>>::empty());
    proof {
        rules::lemma_evolves_bookkeeping(start, start);
        lemma_register_all_checked(fresh, functions@);
    }
    let mut i: usize = 0;
    while i < functions.len()
        invariant
            i <= functions.len(),
            rules::evolves(start, tc@),
            rules::settled(tc@),
            rules::none_pending(tc@),
            errors@.len() <= i,
            errors@.len() == 0 && i > 0 ==> tc@.number_free(),
            start.strings == string_interner.strings(),
            check_functions(
                start,
                functions@,
                0,
                Seq::empty(),
                slice_view(source_code),
                slice_view(filename),
            ) == check_functions(
                tc@,
                functions@,
                i as int,
                texts_view(errors@),
                slice_view(source_code),
                slice_view(filename),
            ),
        decreases functions.len() - i,
    {
        let ghost before = tc@;
        let checked = tc.type_check(share(&functions[i]));
        proof {
            rules::lemma_evolves_trans(start, before, tc@);
            assert(!rules::pending(before, functions@[i as int].name.0));
            assert forall|f: u32| tc@.checked.contains_key(f) implies (#[trigger] tc@.checked[f]) is Some by {
                assert(rules::pending(tc@, f) == rules::pending(before, f));
            }
        }
        match checked {
            Ok(_) => {},
            Err(error) => {
                let report = write_type_report(
                    string_interner,
                    functions[i].name,
                    &error,
                    source_code,
                    filename,
                );
                let ghost listed = texts_view(errors@);
                errors.push(report);
                assert(texts_view(errors@) =~= listed.push(report@));
            },
        }
        i += 1;
    }
    (tc.into_expr_pool(), errors)
}

/// Checks the types of every function of the program, and rewrites the
/// integer literals without a suffix in its expression pool. `Ok` where
/// every function passes; else one report for each function that does
/// not, in the order of the functions: a function that calls one that
/// fails is reported too, and the one that fails is reported where its
/// own turn comes. The pool keeps its length. After `Ok` for a program
/// with a function, no unresolved literal is left in the pool.
///
/// The check of a function descends at most `MAX_DEPTH` levels of
/// nesting, and reports a function that nests deeper as one that fails.
/// The levels are calls on the stack of the running thread, and the bound
/// is there so that no program can exhaust it. A program gets there only
/// with hundreds of expressions, or of calls of functions not yet
/// checked, one within the other. A caller whose thread has a larger
/// stack can check with a budget of its own:
/// `TypeCheckerVisitor::check_function` takes the levels as an argument.
pub fn check_typing(program: &mut Program, source_code: Option<&str>, filename: Option<&str>) -> (result:
    Result<(), Vec<String>>)
    ensures
        final(program).statement == old(program).statement,
        final(program).location_pool == old(program).location_pool,
        final(program).function == old(program).function,
        final(program).string_interner == old(program).string_interner,
        ({
            let start = register_all(
                initial_state(
                    old(program).statement@,
                    old(program).expression@,
                    old(program).string_interner.strings(),
                    old(program).location_pool,
                ),
                old(program).function@,
            );
            let (end, errors) = check_functions(
                start,
                old(program).function@,
                0,
                Seq::empty(),
                slice_view(source_code),
                slice_view(filename),
            );
            &&& final(program).expression@ == end.exprs
            &&& rules::evolves(start, end)
            &&& match result {
                Ok(_) => errors.len() == 0,
                Err(reports) => errors.len() > 0 && texts_view(reports@) == errors,
            }
        }),
        final(program).expression@.len() == old(program).expression@.len(),
        result is Err ==> 1 <= result->Err_0@.len() <= old(program).function@.len(),
        result is Ok && old(program).function@.len() > 0 ==> forall|i: int|
            0 <= i < final(program).expression@.len() ==> !(#[trigger] final(program).expression@[i]
                is Number),
{
    let mut pool = ExprPool::new();
    std::mem::swap(&mut pool, &mut program.expression);
    let (pool, errors) = check_all(
        &program.statement,
        pool,
        &program.string_interner,
        &program.location_pool,
        &program.function,
        source_code,
        filename,
    );
    program.expression = pool;
    if errors.len() == 0 {
        Ok(())
    } else {
        Err(errors)
    }
}

/// The line and the column, both counted from 1, of the character at the
/// byte offset `offset` of the source in UTF-8. An offset within a
/// character counts as the start of the next one, and an offset behind the
/// end as the end.
pub fn calculate_line_col_from_offset(source: &str, offset: usize) -> (position: (u32, u32))
    ensures
        position == line_col(source@, offset as nat),
{
    let chars = crate::text::chars_of(source);
    let mut line: u32 = 1;
    let mut column: u32 = 1;
    let mut i: usize = 0;
    let mut bytes: u128 = 0;
    while i < chars.len() && bytes < offset as u128
        invariant
            i <= chars.len(),
            chars@ == source@,
            bytes == byte_len(source@, i as int),
            bytes <= 4 * i,
            (line, column) == position_after(source@, i as int),
            chars_before(source@, offset as nat, 0) == chars_before(source@, offset as nat, i as int),
        decreases chars.len() - i,
    {
        if chars[i] == '\n' {
            if line < u32::MAX {
                line += 1;
            }
            column = 1;
        } else {
            if column < u32::MAX {
                column += 1;
            }
        }
        bytes += crate::text::width_of(chars[i]) as u128;
        i += 1;
    }
    (line, column)
}

/// The first function from the `i`-th on that has the name `name` and no
/// parameter.
pub open spec fn first_function(functions: Seq<Rc<Function>>, name: Symbol, i: int) -> Option<
    Rc<Function>,
>
    decreases functions.len() - i,
{
    if i < 0 || i >= functions.len() {
        None
    } else if functions[i].name == name && functions[i].parameter@.len() == 0 {
        Some(functions[i])
    } else {
        first_function(functions, name, i + 1)
    }
}

/// The first function that has the name `name` and no parameter.
pub fn find_function(functions: &Vec<Rc<Function>>, name: Symbol) -> (found: Option<Rc<Function>>)
    ensures
        found == first_function(functions@, name, 0),
{
    let mut i: usize = 0;
    while i < functions.len()
        invariant
            i <= functions.len(),
            first_function(functions@, name, 0) == first_function(functions@, name, i as int),
        decreases functions.len() - i,
    {
        if functions[i].name.0 == name.0 && functions[i].parameter.len() == 0 {
            return Some(share(&functions[i]));
        }
        i += 1;
    }
    None
}

/// The function `main` of a program: the first function of that name
/// without parameters, or what is missing.
pub open spec fn main_function(strings: Seq<Seq<char>>, functions: Seq<Rc<Function>>) -> Result<
    Rc<Function>,
    Seq<char>,
> {
    match symbol_of(strings, "main"@) {
        None => Err("main function symbol not found"@),
        Some(name) => match first_function(functions, name, 0) {
            Some(function) => Ok(function),
            None => Err("main"@),
        },
    }
}

/// The function `main` of the program.
pub fn find_main_function(program: &Program) -> (result: Result<Rc<Function>, InterpreterError>)
    ensures
        match result {
            Ok(function) => main_function(program.string_interner.strings(), program.function@)
                == Ok::<Rc<Function>, Seq<char>>(function),
            Err(InterpreterError::FunctionNotFound(message)) => main_function(
                program.string_interner.strings(),
                program.function@,
            ) == Err::<Rc<Function>, Seq<char>>(message@),
        },
{
    let main_id = match program.string_interner.get("main") {
        Some(main_id) => main_id,
        None => {
            return Err(
                InterpreterError::FunctionNotFound(
                    String::from_str("main function symbol not found"),
                ),
            );
        },
    };
    match find_function(&program.function, main_id) {
        Some(function) => Ok(function),
        None => Err(InterpreterError::FunctionNotFound(String::from_str("main"))),
    }
}

/// The functions by name; of two with one name, the later one.
pub open spec fn function_map(functions: Seq<Rc<Function>>) -> Map<u32, Rc<Function>>
    decreases functions.len(),
{
    if functions.len() == 0 {
        Map::empty()
    } else {
        function_map(functions.drop_last()).insert(functions.last().name.0, functions.last())
    }
}

/// The functions of the program by name.
pub fn build_function_map(program: &Program) -> (map: HashMap<u32, Rc<Function>>)
    ensures
        map@ == function_map(program.function@),
{
    let mut map: HashMap<u32, Rc<Function>> = HashMap::new();
    let mut i: usize = 0;
    assert(program.function@.subrange(0, 0) =~= Seq::<Rc<Function>>::empty());
    while i < program.function.len()
        invariant
            i <= program.function.len(),
            map@ == function_map(program.function@.subrange(0, i as int)),
        decreases program.function.len() - i,
    {
        assert(program.function@.subrange(0, i + 1).drop_last() =~= program.function@.subrange(
            0,
            i as int,
        ));
        map.insert(program.function[i].name.0, share(&program.function[i]));
        i += 1;
    }
    assert(program.function@.subrange(0, program.function@.len() as int) =~= program.function@);
    map
}

/// A method with the struct that owns it.
pub struct MethodEntry {
    pub owner: Symbol,
    pub name: Symbol,
    pub method: Rc<MethodFunction>,
}

/// The entries of the methods of one `impl` block.
pub open spec fn block_entries(owner: Symbol, methods: Seq<Rc<MethodFunction>>) -> Seq<MethodEntry> {
    Seq::new(
        methods.len(),
        |i: int| MethodEntry { owner, name: methods[i].name, method: methods[i] },
    )
}

/// The methods of the `impl` blocks among the statements from the `i`-th
/// on, in order, each under the symbol of its struct's name, which is
/// interned where the interner does not hold it. `None` where a name is
/// new and the interner has no symbol left.
pub open spec fn registry(stmts: Seq<Stmt>, i: int, strings: Seq<Seq<char>>, entries: Seq<MethodEntry>) -> Option<
    (Seq<Seq<char>>, Seq<MethodEntry>),
>
    decreases stmts.len() - i,
{
    if i < 0 || i >= stmts.len() {
        Some((strings, entries))
    } else {
        match stmts[i] {
            Stmt::ImplBlock { target_type, methods } => if no_room(strings, target_type@) {
                None
            } else {
                match symbol_of(with_string(strings, target_type@), target_type@) {
                    Some(owner) => registry(
                        stmts,
                        i + 1,
                        with_string(strings, target_type@),
                        entries + block_entries(owner, methods@),
                    ),
                    None => None,
                }
            },
            _ => registry(stmts, i + 1, strings, entries),
        }
    }
}

/// Collects the methods of the program's `impl` blocks. `None` where the
/// interner cannot take the name of a struct.
pub fn build_method_registry(program: &Program, string_interner: &mut Interner) -> (entries: Option<
    Vec<MethodEntry>,
>)
    ensures
        match registry(program.statement@, 0, old(string_interner).strings(), Seq::empty()) {
            Some((strings, list)) => entries is Some && entries->0@ == list && final(string_interner).strings() == strings,
            None => entries is None,
        },
{
    let mut entries: Vec<MethodEntry> = Vec::new();
    let mut i: usize = 0;
    while i < program.statement.0.len()
        invariant
            i <= program.statement@.len(),
            registry(program.statement@, 0, old(string_interner).strings(), Seq::empty())
                == registry(program.statement@, i as int, string_interner.strings(), entries@),
        decreases program.statement@.len() - i,
    {
        match &program.statement.0[i] {
            Stmt::ImplBlock { target_type, methods } => {
                let owner = match string_interner.get_or_intern(target_type.as_str()) {
                    Some(owner) => owner,
                    None => {
                        return None;
                    },
                };
                let ghost before = entries@;
                let mut k: usize = 0;
                while k < methods.len()
                    invariant
                        k <= methods.len(),
                        entries@ == before + block_entries(owner, methods@).subrange(0, k as int),
                    decreases methods.len() - k,
                {
                    entries.push(
                        MethodEntry { owner, name: methods[k].name, method: share(&methods[k]) },
                    );
                    assert(entries@ =~= before + block_entries(owner, methods@).subrange(0, k + 1));
                    k += 1;
                }
                assert(block_entries(owner, methods@).subrange(0, methods@.len() as int)
                    =~= block_entries(owner, methods@));
            },
            _ => {},
        }
        i += 1;
    }
    Some(entries)
}

/// The methods after the entries are registered, in their order.
pub open spec fn registered(methods: Map<u64, Rc<MethodFunction>>, entries: Seq<MethodEntry>) -> Map<
    u64,
    Rc<MethodFunction>,
>
    decreases entries.len(),
{
    if entries.len() == 0 {
        methods
    } else {
        registered(methods, entries.drop_last()).insert(
            semantics::method_key(entries.last().owner, entries.last().name),
            entries.last().method,
        )
    }
}

/// Registers the methods with the evaluator.
pub fn register_methods(eval: &mut EvaluationContext, method_registry: Vec<MethodEntry>)
    ensures
        final(eval).program() == (ProgramView {
            methods: registered(old(eval).program().methods, method_registry@),
            ..old(eval).program()
        }),
        final(eval).state() == old(eval).state(),
{
    let mut i: usize = 0;
    assert(method_registry@.subrange(0, 0) =~= Seq::<MethodEntry>::empty());
    while i < method_registry.len()
        invariant
            i <= method_registry.len(),
            eval.state() == old(eval).state(),
            eval.program() == (ProgramView {
                methods: registered(
                    old(eval).program().methods,
                    method_registry@.subrange(0, i as int),
                ),
                ..old(eval).program()
            }),
        decreases method_registry.len() - i,
    {
        assert(method_registry@.subrange(0, i + 1).drop_last() =~= method_registry@.subrange(
            0,
            i as int,
        ));
        let entry = &method_registry[i];
        eval.register_method(entry.owner, entry.name, share(&entry.method));
        i += 1;
    }
    assert(method_registry@.subrange(0, method_registry@.len() as int) =~= method_registry@);
}

/// What running the function `main` gives.
pub open spec fn run_main(p: ProgramView, main: Function) -> Result<Value, RuntimeError> {
    semantics::as_value(
        semantics::call_body(
            p,
            EvalState { env: Seq::empty(), steps: semantics::DEFAULT_STEPS as nat },
            main.parameter@,
            main.code,
            None,
            Seq::empty(),
            semantics::MAX_EVAL_DEPTH as nat,
        ).1,
    )
}

/// What running a program gives: the value of its function `main`, or a
/// report of what went wrong.
pub open spec fn executed(program: Program, source: Option<Seq<char>>, filename: Option<Seq<char>>) -> Result<
    Value,
    Seq<char>,
> {
    match main_function(program.string_interner.strings(), program.function@) {
        Err(message) => Err("Runtime Error: Function not found: "@ + message),
        Ok(main) => match registry(
            program.statement@,
            0,
            program.string_interner.strings(),
            Seq::empty(),
        ) {
            None => Err("Runtime Error: too many names"@),
            Some((strings, entries)) => {
                let p = ProgramView {
                    stmts: program.statement@,
                    exprs: program.expression@,
                    strings,
                    functions: function_map(program.function@),
                    methods: registered(Map::empty(), entries),
                    self_symbol: symbol_of(strings, "self"@),
                    len_symbol: symbol_of(strings, "len"@),
                };
                match run_main(p, *main) {
                    Ok(value) => Ok(value),
                    Err(error) => Err(runtime_report(strings, error, source, filename)),
                }
            },
        },
    }
}

/// Runs the program: calls its function `main` without arguments.
///
/// The run descends at most `MAX_EVAL_DEPTH` levels of nesting, calls of
/// the program's functions included, and ends in a runtime error where
/// the program goes deeper: the levels are calls on the stack of the
/// running thread, which a recursion without end would exhaust. The
/// `while` loops of a run take at most `DEFAULT_STEPS` rounds in all,
/// which is the largest 64-bit number: no run gets there. A caller whose
/// thread has a larger stack can run `main` with a budget of its own:
/// `EvaluationContext::call_body` takes the levels as an argument.
pub fn execute_program(program: &Program, source_code: Option<&str>, filename: Option<&str>) -> (result:
    Result<Object, String>)
    ensures
        match result {
            Ok(object) => executed(*program, slice_view(source_code), slice_view(filename)) == Ok::<
                Value,
                Seq<char>,
            >(object@),
            Err(report) => executed(*program, slice_view(source_code), slice_view(filename)) == Err::<
                Value,
                Seq<char>,
            >(report@),
        },
{
    let main_function = match find_main_function(program) {
        Ok(function) => function,
        Err(InterpreterError::FunctionNotFound(message)) => {
            let mut report = String::from_str("Runtime Error: Function not found: ");
            report.append(message.as_str());
            return Err(report);
        },
    };
    let func_map = build_function_map(program);
    let mut string_interner = program.string_interner.clone();
    let method_registry = match build_method_registry(program, &mut string_interner) {
        Some(entries) => entries,
        None => {
            return Err(String::from_str("Runtime Error: too many names"));
        },
    };
    let mut eval = EvaluationContext::new(
        &program.statement,
        &program.expression,
        &string_interner,
        func_map,
    );
    register_methods(&mut eval, method_registry);
    let no_args: Vec<Object> = Vec::new();
    assert(crate::interpreter::object::objects_view(no_args@) =~= Seq::<Value>::empty());
    match eval.evaluate_function(main_function, &no_args) {
        Ok(result) => Ok(result),
        Err(runtime_error) => Err(
            write_runtime_report(&string_interner, runtime_error, source_code, filename),
        ),
    }
}

} // verus!
