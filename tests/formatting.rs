use tsfmt::engine::format_source;
use tsfmt::report::{reply_for, Failure};
use tsfmt::run::format_invocation;
use tsfmt::settings::Setting;

#[test]
fn default_formatting_of_a_statement() {
    let r = format_invocation("if(x)console.log(\"hi\");".to_string(), &vec![]);
    assert_eq!(r, Ok("if (x) console.log(\"hi\");\n".to_string()));
}

#[test]
fn empty_input_formats_without_failure() {
    let r = format_invocation(String::new(), &vec![]);
    assert_eq!(r, Ok(String::new()));
}

#[test]
fn overrides_reach_the_engine() {
    let code = "if (x) {\ny();\n}\n".to_string();
    let four = vec![("indentWidth".to_string(), Setting::Int(4))];
    assert_eq!(format_invocation(code.clone(), &four), Ok("if (x) {\n    y();\n}\n".to_string()));
    assert_eq!(format_invocation(code, &vec![]), Ok("if (x) {\n  y();\n}\n".to_string()));
}

#[test]
fn text_override_reaches_the_engine() {
    let single = vec![("quoteStyle".to_string(), Setting::Text("alwaysSingle".to_string()))];
    assert_eq!(format_invocation("f(\"a\");".to_string(), &single), Ok("f('a');\n".to_string()));
}

#[test]
fn already_formatted_text_is_printed_as_it_was() {
    let code = "let a = 1;\n".to_string();
    assert_eq!(format_source(&code, &vec![]), Ok(None));
    assert_eq!(format_invocation(code.clone(), &vec![]), Ok(code));
}

#[test]
fn syntax_error_is_reported() {
    match format_invocation("let = ;".to_string(), &vec![]) {
        Err(Failure::Format(m)) => assert!(!m.is_empty()),
        other => panic!("unexpected {:?}", other),
    }
}

#[test]
fn reply_follows_the_outcome() {
    let source = "x".to_string();
    assert_eq!(reply_for(source.clone(), Ok(None)), Ok("x".to_string()));
    assert_eq!(reply_for(source.clone(), Ok(Some("y;\n".to_string()))), Ok("y;\n".to_string()));
    assert_eq!(
        reply_for(source, Err("bad".to_string())),
        Err(Failure::Format("bad".to_string()))
    );
}
