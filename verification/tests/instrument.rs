use hemera::error::HemeraError;
use hemera::function::FunctionDescriptor;
use hemera::options::AttrArg;
use hemera::{hemera, instrument};
use quote::ToTokens;

fn header_of(code: &str) -> (Vec<String>, String, String) {
    let parsed = syn::parse_str::<syn::ItemFn>(code).expect("a function definition");
    (
        parsed.attrs.iter().map(|attr| attr.to_token_stream().to_string()).collect(),
        parsed.vis.to_token_stream().to_string(),
        parsed.sig.to_token_stream().to_string(),
    )
}

fn instrumented(attr: &str, item: &str) -> String {
    let code = hemera(attr, item, false).expect("instrumented code");
    assert_eq!(header_of(&code), header_of(item), "for {}", item);
    code
}

#[test]
fn a_function_is_taken_apart() {
    let function = FunctionDescriptor::parse(
        "#[inline] #[must_use] pub(crate) async fn fetch<T: Clone>(value: &T) -> T where T: Send { value.clone() }",
    )
    .expect("a function definition");
    assert_eq!(function.name, "fetch");
    assert!(function.is_async);
    assert_eq!(function.attributes.len(), 2);
    let again = format!(
        "{} {} {} {}",
        function.attributes.join(" "),
        function.visibility,
        function.signature,
        function.body
    );
    assert_eq!(FunctionDescriptor::parse(&again), Ok(function));
}

#[test]
fn a_private_ordinary_function_has_no_visibility_and_no_flag() {
    let function = FunctionDescriptor::parse("fn simple_sync() -> i32 { 42 }").unwrap();
    assert_eq!(function.name, "simple_sync");
    assert!(!function.is_async);
    assert_eq!(function.visibility, "");
    assert!(function.attributes.is_empty());
    let signature = syn::parse_str::<syn::Signature>(&function.signature).unwrap();
    assert_eq!(signature.ident.to_string(), "simple_sync");
    let block = syn::parse_str::<syn::Block>(&function.body).unwrap();
    assert_eq!(block.stmts.len(), 1);
}

#[test]
fn what_is_no_function_is_unsupported() {
    for item in ["struct Point { x: i32 }", "fn broken(", "", "const N: u32 = 1;", "fn f();", "fn f() {} fn g() {}"] {
        match FunctionDescriptor::parse(item) {
            Err(HemeraError::UnsupportedItem(complaint)) => assert!(!complaint.is_empty()),
            other => panic!("on {:?}: {:?}", item, other),
        }
        assert!(matches!(hemera("", item, false), Err(HemeraError::UnsupportedItem(_))));
    }
}

#[test]
fn the_item_is_judged_before_the_arguments() {
    assert!(matches!(
        hemera("colour = \"red\"", "struct Point;", false),
        Err(HemeraError::UnsupportedItem(_))
    ));
    assert_eq!(
        hemera("colour = \"red\"", "fn f() {}", false),
        Err(HemeraError::UnknownOption("colour".to_string()))
    );
}

#[test]
fn defective_arguments_stop_the_instrumentation() {
    let item = "fn f() {}";
    assert_eq!(hemera("name", item, false), Err(HemeraError::ExpectedNameValuePair));
    assert_eq!(hemera("name = ", item, true), Err(HemeraError::ExpectedNameValuePair));
    assert_eq!(
        hemera("level = \"loud\"", item, false),
        Err(HemeraError::InvalidLevelValue("loud".to_string()))
    );
    assert_eq!(
        hemera("threshold = \"5x\"", item, false),
        Err(HemeraError::InvalidThresholdGrammar("5x".to_string()))
    );
    assert_eq!(
        hemera("threshold = \"abcms\"", item, false),
        Err(HemeraError::InvalidThresholdValue("abc".to_string()))
    );
}

#[test]
fn pass_basic() {
    let code = instrumented("", "fn simple_sync() -> i32 { 42 }");
    assert!(code.contains("\"simple_sync\""));
    assert!(code.contains("if true {"));
    assert!(code.contains("println!("));
    assert!(!code.contains(".await"));
    assert!(!code.contains("tracing::"));

    let code = instrumented("", "async fn simple_async() -> String { \"hello\".to_string() }");
    assert!(code.contains("\"simple_async\""));
    assert!(code.contains("async move {"));
    assert_eq!(code.matches(".await").count(), 1);

    let code = instrumented("name = \"Custom\"", "fn with_name() {}");
    assert!(code.contains("\"Custom\""));
    assert!(!code.contains("\"with_name\""));
    assert!(code.contains("if true {"));
    assert!(code.contains("println!("));

    let code = instrumented("level = \"debug\"", "fn with_level() {}");
    assert!(code.contains("eprintln!("));
    assert!(code.contains("\"with_level\""));

    let code = instrumented("threshold = \"10ms\"", "fn with_threshold() {}");
    assert!(code.contains("if __hemera_elapsed >= std::time::Duration::from_millis(10u64) {"));

    let code = instrumented(
        "name = \"Test\", level = \"debug\", threshold = \"5ms\"",
        "fn all_attrs() {}",
    );
    assert!(code.contains("eprintln!("));
    assert!(code.contains("\"Test\""));
    assert!(code.contains("if __hemera_elapsed >= std::time::Duration::from_millis(5u64) {"));
}

#[test]
fn pass_generics() {
    let code = instrumented("", "fn generic_function<T: Clone>(value: T) -> T { value.clone() }");
    assert!(code.contains("\"generic_function\""));

    let code = instrumented(
        "",
        "async fn generic_async<T: std::fmt::Display>(value: T) -> String { format!(\"{}\", value) }",
    );
    assert!(code.contains("\"generic_async\""));
    assert_eq!(code.matches(".await").count(), 1);

    let code = instrumented(
        "name = \"GenericWithAttrs\"",
        "fn generic_with_attrs<T, U>(a: T, b: U) -> (T, U) { (a, b) }",
    );
    assert!(code.contains("\"GenericWithAttrs\""));
}

#[test]
fn qualifiers_attributes_and_where_clauses_survive() {
    instrumented(
        "",
        "/// Documented.\n#[inline]\npub(crate) const unsafe extern \"C\" fn raw<'a, T>(x: &'a T, n: usize) -> &'a T where T: Sized + 'a { x }",
    );
    instrumented("level = \"info\"", "pub async unsafe fn risky(mut count: u8, (a, b): (u8, u8)) -> Result<u8, String> { count += a + b; Ok(count) }");
    instrumented("", "pub(in crate::inner) fn scoped(self: Box<Self>) -> impl Iterator<Item = u8> + '_ { self.items.iter().copied() }");
}

#[test]
fn the_tracing_flag_adds_the_span() {
    let item = "fn traced() -> u8 { 1 }";
    let without = hemera("name = \"T\"", item, false).unwrap();
    let with = hemera("name = \"T\"", item, true).unwrap();
    assert!(!without.contains("tracing::info_span!"));
    assert!(with.contains("let __hemera_span = tracing::info_span!(\"hemera\", function = \"T\");"));
    assert!(with.contains("let __hemera_enter = __hemera_span.enter();"));
    assert_eq!(header_of(&with), header_of(item));
    assert_eq!(with.matches("println!(").count(), without.matches("println!(").count());
}

#[test]
fn the_original_body_is_moved_in_whole() {
    let item = "fn body() -> u32 { let x = 1; if x > 0 { return x + 1; } x }";
    let function = FunctionDescriptor::parse(item).unwrap();
    let code = hemera("", item, false).unwrap();
    assert_eq!(code.matches(function.body.as_str()).count(), 1);
    assert!(code.contains(&format!("(|| {})();", function.body)));
}

#[test]
fn instrument_works_on_values_already_read() {
    let function = FunctionDescriptor {
        attributes: vec![],
        visibility: "pub".to_string(),
        signature: "fn f()".to_string(),
        name: "f".to_string(),
        is_async: false,
        body: "{}".to_string(),
    };
    let args = vec![
        AttrArg::NameValue { key: Some("name".to_string()), value: Some("shown".to_string()) },
        AttrArg::NameValue { key: Some("threshold".to_string()), value: Some("2s".to_string()) },
    ];
    let expected = "pub fn f() {\n\
        {\n\
        let __hemera_start = std::time::Instant::now();\n\
        let __hemera_result = (|| {})();\n\
        let __hemera_elapsed = __hemera_start.elapsed();\n\
        if __hemera_elapsed >= std::time::Duration::from_secs(2u64) {\n\
        println!(\"\u{23f1} Function `{}` executed in {:.3?}\", \"shown\", __hemera_elapsed);\n\
        }\n\
        __hemera_result\n\
        }\n\
        }\n";
    assert_eq!(instrument(&args, function, false), Ok(expected.to_string()));

    let function = FunctionDescriptor {
        attributes: vec![],
        visibility: String::new(),
        signature: "fn f()".to_string(),
        name: "f".to_string(),
        is_async: false,
        body: "{}".to_string(),
    };
    assert_eq!(
        instrument(&vec![AttrArg::Other], function, false),
        Err(HemeraError::ExpectedNameValuePair)
    );
}

#[test]
fn instrumenting_agrees_with_its_steps() {
    let attr = "name = \"Steps\", level = \"debug\", threshold = \"3us\"";
    let item = "pub async fn steps(n: u8) -> u8 { n }";
    let config = hemera::options::HemeraConfig::parse(attr).unwrap();
    let function = FunctionDescriptor::parse(item).unwrap();
    let by_steps =
        hemera::emit::emit(&hemera::transform::Transformer::new(true).transform(config, function));
    assert_eq!(hemera(attr, item, true), Ok(by_steps));
}

#[test]
fn errors_are_reported_at_the_argument_to_blame() {
    let item = "fn f() {}";
    let blamed = |attr: &str, item: &str| {
        let error = hemera(attr, item, false).unwrap_err();
        hemera::blamed_argument(attr, &error)
    };
    assert_eq!(blamed("name = \"ok\", colour = \"red\"", item), Some(1));
    assert_eq!(blamed("threshold = \"5x\", name = \"ok\"", item), Some(0));
    assert_eq!(blamed("level = \"loud\"", item), Some(0));
    assert_eq!(blamed("name = ", item), None);
    assert_eq!(blamed("colour = \"red\"", "struct S;"), None);
    assert_eq!(blamed("", "struct S;"), None);
}
