use act_zero_ext::into_actor_result;
use act_zero_ext::transform::Strategy;

fn expand(src: &str, strategy: Strategy) -> String {
    let out = into_actor_result(&src.as_bytes().to_vec(), strategy).expect("well-formed input");
    String::from_utf8(out).expect("output is valid text")
}

#[test]
fn sync_public_wrap_and_forward() {
    let src = r#"pub fn pub_hello(&self) -> Result<String, Err> { Ok("Hello do pub world!") }"#;
    let expected = "pub fn pub_hello(&self) -> act_zero::ActorResult<Result<String, Err>> { let result = self.do_pub_hello(); act_zero::Produces::ok(result) }\n\nfn do_pub_hello(&self) -> Result<String, Err> { Ok(\"Hello do pub world!\") }";
    assert_eq!(expand(src, Strategy::WrapAndForward), expected);
}

#[test]
fn suspending_wrap_and_forward() {
    let src =
        r#"async fn hello(&self, name: String) -> Result<String, Err> { Ok(format!("Hello, {}!", name)) }"#;
    let expected = "async fn hello(&self, name: String) -> act_zero::ActorResult<Result<String, Err>> { let result = self.do_hello(name).await; act_zero::Produces::ok(result) }\n\nasync fn do_hello(&self, name: String) -> Result<String, Err> { Ok(format!(\"Hello, {}!\", name)) }";
    assert_eq!(expand(src, Strategy::WrapAndForward), expected);
}

#[test]
fn rename_only_drops_original_name() {
    let src = r#"pub fn pub_hello(&self) -> Result<String, Err> { Ok("Hello do pub world!") }"#;
    let out = expand(src, Strategy::RenameOnly);
    let expected =
        r#"pub fn do_pub_hello(&self) -> Result<String, Err> { Ok("Hello do pub world!") }"#;
    assert_eq!(out, expected);
    // The original publicly-named function no longer exists in the output.
    assert!(!out.contains("fn pub_hello"));
}

#[test]
fn destructured_parameter_dropped_from_forwarding_call() {
    // Known limitation: a parameter bound through a destructuring pattern is
    // silently omitted from the forwarding call, so the wrapper calls the
    // implementation with fewer arguments than it declares (an arity
    // mismatch in the generated code).
    let src = "fn f(&self, (a, b): (i32, i32)) { let c = a + b; }";
    let out = expand(src, Strategy::WrapAndForward);
    let expected = "fn f(&self, (a, b): (i32, i32)) -> act_zero::ActorResult<()> { let result = self.do_f(); act_zero::Produces::ok(result) }\n\nfn do_f(&self, (a, b): (i32, i32)) { let c = a + b; }";
    assert_eq!(out, expected);
    // The forwarding call is empty: the pattern-bound parameter is gone.
    assert!(out.contains("self.do_f()"));
    // Yet both emitted definitions still declare it.
    assert_eq!(out.matches("(a, b): (i32, i32)").count(), 2);
}
