use rhai::{loop_step, resolve_return, Any, Dynamic, EvalAltResult, ParseError, Position};

fn p() -> Position {
    Position::new(3, 7)
}

fn text(e: EvalAltResult) -> String {
    e.render()
}

#[test]
fn position_text() {
    assert_eq!(Position::none().to_text(), "none");
    assert_eq!(Position::new(12, 305).to_text(), "line 12, position 305");
    assert!(Position::none().is_none());
    assert!(!p().is_none());
    assert_eq!(p().line(), Some(3));
    assert_eq!(p().column(), Some(7));
    assert_eq!(Position::none().line(), None);
}

#[test]
fn array_bounds_phrasing() {
    assert_eq!(
        text(EvalAltResult::ErrorArrayBounds(0, 4, p())),
        "Access of empty array (line 3, position 7)"
    );
    assert_eq!(
        text(EvalAltResult::ErrorArrayBounds(1, 5, p())),
        "Array index 5 is out of bounds: only one element in the array (line 3, position 7)"
    );
    assert_eq!(
        text(EvalAltResult::ErrorArrayBounds(3, 5, p())),
        "Array index 5 is out of bounds: only 3 elements in the array (line 3, position 7)"
    );
    assert_eq!(
        text(EvalAltResult::ErrorArrayBounds(3, -1, p())),
        "Array access expects non-negative index: -1 < 0 (line 3, position 7)"
    );
    assert_eq!(
        text(EvalAltResult::ErrorArrayBounds(0, -1, p())),
        "Array access expects non-negative index: -1 < 0 (line 3, position 7)"
    );
    assert_eq!(
        text(EvalAltResult::ErrorArrayBounds(1, i64::MIN, Position::none())),
        "Array access expects non-negative index: -9223372036854775808 < 0 (none)"
    );
}

#[test]
fn string_bounds_phrasing() {
    assert_eq!(
        text(EvalAltResult::ErrorStringBounds(0, 2, p())),
        "Indexing of empty string (line 3, position 7)"
    );
    assert_eq!(
        text(EvalAltResult::ErrorStringBounds(1, 2, p())),
        "String index 2 is out of bounds: only one character in the string (line 3, position 7)"
    );
    assert_eq!(
        text(EvalAltResult::ErrorStringBounds(10, 120, p())),
        "String index 120 is out of bounds: only 10 characters in the string (line 3, position 7)"
    );
    assert_eq!(
        text(EvalAltResult::ErrorStringBounds(10, -42, p())),
        "Indexing a string expects a non-negative index: -42 < 0 (line 3, position 7)"
    );
}

#[test]
fn arity_phrasing() {
    assert_eq!(
        text(EvalAltResult::ErrorFunctionArgsMismatch("f".to_string(), 0, 2, p())),
        "Function 'f' expects no argument but 2 found (line 3, position 7)"
    );
    assert_eq!(
        text(EvalAltResult::ErrorFunctionArgsMismatch("f".to_string(), 1, 0, p())),
        "Function 'f' expects one argument but 0 found (line 3, position 7)"
    );
    assert_eq!(
        text(EvalAltResult::ErrorFunctionArgsMismatch("f".to_string(), 3, 1, p())),
        "Function 'f' expects 3 argument(s) but 1 found (line 3, position 7)"
    );
}

#[test]
fn rendering_of_each_kind() {
    let s = |x: &str| x.to_string();
    assert_eq!(
        text(EvalAltResult::ErrorFunctionNotFound(s("foo"), p())),
        "Function not found: 'foo' (line 3, position 7)"
    );
    assert_eq!(
        text(EvalAltResult::ErrorVariableNotFound(s("x"), p())),
        "Variable not found: 'x' (line 3, position 7)"
    );
    assert_eq!(
        text(EvalAltResult::ErrorAssignmentToConstant(s("K"), p())),
        "Assignment to a constant variable: 'K' (line 3, position 7)"
    );
    assert_eq!(
        text(EvalAltResult::ErrorMismatchOutputType(s("i64"), p())),
        "Output type is incorrect: i64 (line 3, position 7)"
    );
    assert_eq!(
        text(EvalAltResult::ErrorIndexingType(s("bool"), p())),
        "Indexing can only be performed on an array or a string (line 3, position 7)"
    );
    assert_eq!(
        text(EvalAltResult::ErrorIndexExpr(p())),
        "Indexing into an array or string expects an integer index (line 3, position 7)"
    );
    assert_eq!(
        text(EvalAltResult::ErrorLogicGuard(p())),
        "Boolean expression expected (line 3, position 7)"
    );
    assert_eq!(
        text(EvalAltResult::ErrorFor(p())),
        "For loop expects array or range (line 3, position 7)"
    );
    assert_eq!(
        text(EvalAltResult::ErrorAssignmentToUnknownLHS(p())),
        "Assignment to an unsupported left-hand side expression (line 3, position 7)"
    );
    assert_eq!(
        text(EvalAltResult::ErrorStackOverflow(p())),
        "Stack overflow (line 3, position 7)"
    );
    assert_eq!(
        text(EvalAltResult::ErrorLoopBreak(p())),
        "Break statement not inside a loop (line 3, position 7)"
    );
    assert_eq!(
        text(EvalAltResult::Return(1_i64.into_dynamic(), p())),
        "[Not Error] Function returns value (line 3, position 7)"
    );
    assert_eq!(
        text(EvalAltResult::ErrorDotExpr(s("on x"), p())),
        "Malformed dot expression on x (line 3, position 7)"
    );
    assert_eq!(
        text(EvalAltResult::ErrorDotExpr(s(""), p())),
        "Malformed dot expression (line 3, position 7)"
    );
    assert_eq!(
        text(EvalAltResult::ErrorArithmetic(s("Division by zero"), p())),
        "Division by zero (line 3, position 7)"
    );
    assert_eq!(
        text(EvalAltResult::ErrorRuntime(s("boom"), p())),
        "boom (line 3, position 7)"
    );
    assert_eq!(
        text(EvalAltResult::ErrorRuntime(s(""), p())),
        "Runtime error (line 3, position 7)"
    );
    assert_eq!(
        text(EvalAltResult::ErrorReadingScriptFile(s("a.rhai"), s("not found"))),
        "Cannot read from script file 'a.rhai': not found"
    );
    assert_eq!(
        text(EvalAltResult::ErrorParsing(ParseError(s("Unexpected token"), p()))),
        "Syntax error: Unexpected token (line 3, position 7)"
    );
    assert_eq!(
        text(EvalAltResult::ErrorBooleanArgMismatch(s("&&"), p())),
        "&& operator expects boolean operands (line 3, position 7)"
    );
    assert_eq!(
        text(EvalAltResult::ErrorCharMismatch(p())),
        "string indexing expects a character value (line 3, position 7)"
    );
}

#[test]
fn descriptions() {
    assert_eq!(EvalAltResult::ErrorArrayBounds(0, 1, p()).desc(), "Access of empty array");
    assert_eq!(EvalAltResult::ErrorArrayBounds(2, 5, p()).desc(), "Array index out of bounds");
    assert_eq!(
        EvalAltResult::ErrorArrayBounds(2, -5, p()).desc(),
        "Array access expects non-negative index"
    );
    assert_eq!(EvalAltResult::ErrorStringBounds(2, 5, p()).desc(), "String index out of bounds");
    assert_eq!(
        EvalAltResult::ErrorParsing(ParseError("Bad input".to_string(), p())).desc(),
        "Bad input"
    );
    assert_eq!(
        EvalAltResult::ErrorFunctionArgsMismatch("g".to_string(), 1, 2, p()).desc(),
        "Function call with wrong number of arguments"
    );
}

#[test]
fn conversions() {
    let e = EvalAltResult::from("oops".to_string());
    assert!(matches!(&e, EvalAltResult::ErrorRuntime(m, Position::Unknown) if m == "oops"));
    assert_eq!(e.render(), "oops (none)");

    let e = EvalAltResult::from("bad thing");
    assert!(matches!(&e, EvalAltResult::ErrorRuntime(m, Position::Unknown) if m == "bad thing"));
    assert_eq!(e.render(), "bad thing (none)");

    let e = EvalAltResult::from(ParseError("Missing )".to_string(), p()));
    assert_eq!(e.position(), p());
    assert_eq!(e.render(), "Syntax error: Missing ) (line 3, position 7)");
}

#[test]
fn positions_and_stamping() {
    let e = EvalAltResult::ErrorRuntime("x".to_string(), Position::none());
    assert!(e.position().is_none());
    let e = e.set_position(p());
    assert_eq!(e.position(), p());
    let e = e.set_position(Position::new(9, 9));
    assert_eq!(e.position(), p());

    let known = EvalAltResult::ErrorStackOverflow(Position::new(1, 2));
    let known = known.set_position(p());
    assert_eq!(known.position(), Position::new(1, 2));

    let f = EvalAltResult::ErrorReadingScriptFile("a".to_string(), "b".to_string());
    assert!(f.position().is_none());
    let f = f.set_position(p());
    assert!(f.position().is_none());

    let g = EvalAltResult::ErrorParsing(ParseError("bad".to_string(), Position::none()));
    assert_eq!(g.set_position(p()).position(), p());
}

#[test]
fn signals_are_not_failures() {
    assert!(EvalAltResult::ErrorLoopBreak(p()).is_signal());
    assert!(EvalAltResult::Return(Dynamic::Unit(()), p()).is_signal());
    assert!(!EvalAltResult::ErrorStackOverflow(p()).is_signal());
    assert!(!EvalAltResult::ErrorRuntime(String::new(), p()).is_signal());
}

#[test]
fn break_at_third_of_five_ends_loop_with_unit() {
    let mut seen: i64 = 0;
    let mut result = None;
    for i in 1..=5_i64 {
        seen = i;
        let body: Result<Dynamic, EvalAltResult> = if i == 3 {
            Err(EvalAltResult::ErrorLoopBreak(p()))
        } else {
            Ok(i.into_dynamic())
        };
        if let Some(r) = loop_step(body) {
            result = Some(r);
            break;
        }
    }
    assert_eq!(seen, 3);
    let value = result.unwrap().unwrap();
    assert!(value.is::<()>());
}

#[test]
fn loop_runs_to_completion_without_signal() {
    for i in 0..5_i64 {
        assert!(loop_step(Ok(i.into_dynamic())).is_none());
    }
}

#[test]
fn return_before_unreachable_expression_yields_value() {
    // Body: `return 42; 99` — the `return` ends evaluation of the body.
    let mut body: Result<Dynamic, EvalAltResult> = Ok(Dynamic::Unit(()));
    let statements: Vec<Result<Dynamic, EvalAltResult>> = vec![
        Err(EvalAltResult::Return(42_i64.into_dynamic(), p())),
        Ok(99_i64.into_dynamic()),
    ];
    for s in statements {
        body = s;
        if body.is_err() {
            break;
        }
    }
    let v = resolve_return(body).unwrap();
    assert_eq!(*v.downcast_ref::<i64>().unwrap(), 42);
}

#[test]
fn indexing_empty_array_gives_empty_array_error() {
    let e = EvalAltResult::ErrorArrayBounds(0, 0, p());
    assert_eq!(e.desc(), "Access of empty array");
    assert_eq!(e.render(), "Access of empty array (line 3, position 7)");
    assert!(!e.render().contains("out of bounds"));
}

#[test]
fn return_inside_loop_is_consumed_only_by_function() {
    let inside = Err(EvalAltResult::Return(7_i64.into_dynamic(), p()));
    let after_loop = loop_step(inside).unwrap();
    assert!(matches!(after_loop, Err(EvalAltResult::Return(_, _))));
    let v = resolve_return(after_loop).unwrap();
    assert_eq!(*v.downcast_ref::<i64>().unwrap(), 7);
}

#[test]
fn break_outside_loop_is_an_error() {
    let r = resolve_return(Err(EvalAltResult::ErrorLoopBreak(p())));
    let e = r.unwrap_err();
    assert_eq!(e.desc(), "Break statement not inside a loop");
}

#[test]
fn other_errors_pass_every_boundary() {
    let r = loop_step(Err(EvalAltResult::ErrorStackOverflow(p()))).unwrap();
    let r = resolve_return(r);
    assert!(matches!(r, Err(EvalAltResult::ErrorStackOverflow(_))));
    let ok = resolve_return(Ok(true.into_dynamic())).unwrap();
    assert!(*ok.downcast_ref::<bool>().unwrap());
}
