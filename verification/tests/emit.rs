use hemera::duration::{Duration, TimeUnit};
use hemera::emit::{emit, push_attributes, push_body, push_call, push_gate, push_print, push_span};
use hemera::transform::{Channel, FunctionKind, Gate, TransformedFunction, WrapperBody};

fn body(kind: FunctionKind) -> WrapperBody {
    WrapperBody {
        display_name: "add".to_string(),
        channel: Channel::Stdout,
        gate: Gate::Always,
        kind,
        span: false,
        original: "{ a + b }".to_string(),
    }
}

fn function(kind: FunctionKind) -> TransformedFunction {
    TransformedFunction {
        attributes: vec!["#[inline]".to_string()],
        visibility: "pub".to_string(),
        signature: match kind {
            FunctionKind::Sync => "fn add(a: u32, b: u32) -> u32".to_string(),
            FunctionKind::Async => "async fn add(a: u32, b: u32) -> u32".to_string(),
        },
        name: "add".to_string(),
        is_async: kind == FunctionKind::Async,
        body: body(kind),
    }
}

#[test]
fn an_ordinary_function_runs_its_body_inline() {
    let expected = "#[inline]\n\
        pub fn add(a: u32, b: u32) -> u32 {\n\
        {\n\
        let __hemera_start = std::time::Instant::now();\n\
        let __hemera_result = (|| { a + b })();\n\
        let __hemera_elapsed = __hemera_start.elapsed();\n\
        if true {\n\
        println!(\"\u{23f1} Function `{}` executed in {:.3?}\", \"add\", __hemera_elapsed);\n\
        }\n\
        __hemera_result\n\
        }\n\
        }\n";
    assert_eq!(emit(&function(FunctionKind::Sync)), expected);
}

#[test]
fn a_suspendable_function_awaits_its_body_in_place() {
    let mut function = function(FunctionKind::Async);
    function.visibility = String::new();
    function.attributes = vec![];
    function.body.display_name = "Fetch \"it\"".to_string();
    function.body.channel = Channel::Stderr;
    function.body.gate = Gate::AtLeast(Duration { magnitude: 10, unit: TimeUnit::Milliseconds });
    function.body.span = true;
    let expected = " async fn add(a: u32, b: u32) -> u32 {\n\
        {\n\
        let __hemera_span = tracing::info_span!(\"hemera\", function = \"Fetch \\\"it\\\"\");\n\
        let __hemera_enter = __hemera_span.enter();\n\
        let __hemera_start = std::time::Instant::now();\n\
        let __hemera_result = async move { { a + b } }.await;\n\
        let __hemera_elapsed = __hemera_start.elapsed();\n\
        if __hemera_elapsed >= std::time::Duration::from_millis(10u64) {\n\
        eprintln!(\"\u{23f1} Function `{}` executed in {:.3?}\", \"Fetch \\\"it\\\"\", __hemera_elapsed);\n\
        }\n\
        __hemera_result\n\
        }\n\
        }\n";
    assert_eq!(emit(&function), expected);
}

#[test]
fn the_body_is_awaited_exactly_once_and_only_when_suspendable() {
    let ordinary = emit(&function(FunctionKind::Sync));
    assert_eq!(ordinary.matches(".await").count(), 0);
    assert_eq!(ordinary.matches("async").count(), 0);
    let suspendable = emit(&function(FunctionKind::Async));
    assert_eq!(suspendable.matches(".await").count(), 1);
    assert_eq!(suspendable.matches("{ a + b }").count(), 1);
    assert_eq!(ordinary.matches("{ a + b }").count(), 1);
}

#[test]
fn each_unit_has_its_constructor() {
    let cases = [
        (TimeUnit::Seconds, "__hemera_elapsed >= std::time::Duration::from_secs(1u64)"),
        (TimeUnit::Milliseconds, "__hemera_elapsed >= std::time::Duration::from_millis(1u64)"),
        (TimeUnit::Microseconds, "__hemera_elapsed >= std::time::Duration::from_micros(1u64)"),
        (TimeUnit::Nanoseconds, "__hemera_elapsed >= std::time::Duration::from_nanos(1u64)"),
    ];
    for (unit, expected) in cases {
        let mut out = String::new();
        push_gate(&mut out, &Gate::AtLeast(Duration { magnitude: 1, unit }));
        assert_eq!(out, expected);
    }
    let mut out = String::from("if ");
    push_gate(&mut out, &Gate::Always);
    assert_eq!(out, "if true");
    let mut out = String::new();
    push_gate(
        &mut out,
        &Gate::AtLeast(Duration { magnitude: u64::MAX, unit: TimeUnit::Nanoseconds }),
    );
    assert_eq!(out, "__hemera_elapsed >= std::time::Duration::from_nanos(18446744073709551615u64)");
}

#[test]
fn the_pieces_are_appended_to_what_is_there() {
    let mut out = String::from("// ");
    push_attributes(&mut out, &vec!["#[a]".to_string(), "#[b]".to_string()]);
    assert_eq!(out, "// #[a]\n#[b]\n");

    let mut out = String::from("// ");
    push_attributes(&mut out, &vec![]);
    assert_eq!(out, "// ");

    let mut out = String::from("// ");
    push_span(&mut out, "n");
    assert_eq!(
        out,
        "// let __hemera_span = tracing::info_span!(\"hemera\", function = \"n\");\n\
         let __hemera_enter = __hemera_span.enter();\n"
    );

    let mut out = String::from("// ");
    push_call(&mut out, FunctionKind::Sync, "{ 1 }");
    assert_eq!(out, "// let __hemera_result = (|| { 1 })();\n");

    let mut out = String::from("// ");
    push_call(&mut out, FunctionKind::Async, "{ 1 }");
    assert_eq!(out, "// let __hemera_result = async move { { 1 } }.await;\n");

    let mut out = String::from("// ");
    push_print(&mut out, Channel::Stdout, "n");
    assert_eq!(
        out,
        "// println!(\"\u{23f1} Function `{}` executed in {:.3?}\", \"n\", __hemera_elapsed);\n"
    );

    let mut out = String::from("// ");
    push_print(&mut out, Channel::Stderr, "n");
    assert_eq!(
        out,
        "// eprintln!(\"\u{23f1} Function `{}` executed in {:.3?}\", \"n\", __hemera_elapsed);\n"
    );

    let mut out = String::from("fn f() ");
    push_body(&mut out, &body(FunctionKind::Sync));
    assert!(out.starts_with("fn f() {\nlet __hemera_start"));
    assert!(out.ends_with("}\n__hemera_result\n}\n"));
}

#[test]
fn the_span_changes_nothing_but_its_two_statements() {
    let without = emit(&function(FunctionKind::Sync));
    let mut with_span = function(FunctionKind::Sync);
    with_span.body.span = true;
    let with = emit(&with_span);
    let span = "let __hemera_span = tracing::info_span!(\"hemera\", function = \"add\");\n\
                let __hemera_enter = __hemera_span.enter();\n";
    assert_eq!(with.replace(span, ""), without);
    assert!(with.find(span).unwrap() < with.find("let __hemera_start").unwrap());
}

#[test]
fn what_is_emitted_is_a_function_with_the_same_header() {
    for kind in [FunctionKind::Sync, FunctionKind::Async] {
        for span in [false, true] {
            let mut function = function(kind);
            function.body.span = span;
            function.body.display_name = "odd \\ \"name\" \u{202e}\n".to_string();
            let code = emit(&function);
            let parsed = syn::parse_str::<syn::ItemFn>(&code).expect("a function definition");
            assert_eq!(parsed.sig.ident.to_string(), "add");
            assert_eq!(parsed.sig.asyncness.is_some(), kind == FunctionKind::Async);
            assert_eq!(parsed.attrs.len(), 1);
            assert!(matches!(parsed.vis, syn::Visibility::Public(_)));
            assert_eq!(parsed.sig.inputs.len(), 2);
            assert_eq!(parsed.block.stmts.len(), 1);
        }
    }
}
