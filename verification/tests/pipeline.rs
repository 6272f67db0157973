use act_zero_ext::into_actor_result;
use act_zero_ext::transform::Strategy;

fn expand(src: &str, strategy: Strategy) -> String {
    let out = into_actor_result(&src.as_bytes().to_vec(), strategy).expect("well-formed input");
    String::from_utf8(out).expect("output is valid text")
}

#[test]
fn implementation_forced_private() {
    // The original is public; the emitted implementation carries no
    // visibility qualifier at all, while the wrapper keeps `pub`.
    let out = expand("pub fn ping(&mut self) {}", Strategy::WrapAndForward);
    let parts: Vec<&str> = out.split("\n\n").collect();
    assert_eq!(parts.len(), 2);
    assert!(parts[0].starts_with("pub fn ping(&mut self)"));
    assert!(parts[1].starts_with("fn do_ping(&mut self)"));
}

#[test]
fn restricted_visibility_kept_on_wrapper() {
    let out = expand("pub(crate) fn ping(&self) {}", Strategy::WrapAndForward);
    let expected = "pub(crate) fn ping(&self) -> act_zero::ActorResult<()> { let result = self.do_ping(); act_zero::Produces::ok(result) }\n\nfn do_ping(&self) {}";
    assert_eq!(out, expected);
}

#[test]
fn forwarding_keeps_declaration_order() {
    let src = "fn combine(&self, first: u32, second: u32) -> u32 { first - second }";
    let out = expand(src, Strategy::WrapAndForward);
    assert!(out.contains("self.do_combine(first, second)"));
}

#[test]
fn unit_return_enveloped() {
    let out = expand("fn quiet(&self) {}", Strategy::WrapAndForward);
    assert!(out.contains("-> act_zero::ActorResult<()>"));
}

#[test]
fn generics_copied_verbatim_onto_both() {
    let src = "fn id<T: Clone>(&self, x: T) -> T { x }";
    let expected = "fn id<T: Clone>(&self, x: T) -> act_zero::ActorResult<T> { let result = self.do_id(x); act_zero::Produces::ok(result) }\n\nfn do_id<T: Clone>(&self, x: T) -> T { x }";
    assert_eq!(expand(src, Strategy::WrapAndForward), expected);
}

#[test]
fn mut_binding_kept_but_forwarded_bare() {
    let src = "fn bump(&self, mut n: u64) -> u64 { n += 1; n }";
    let expected = "fn bump(&self, mut n: u64) -> act_zero::ActorResult<u64> { let result = self.do_bump(n); act_zero::Produces::ok(result) }\n\nfn do_bump(&self, mut n: u64) -> u64 { n += 1; n }";
    assert_eq!(expand(src, Strategy::WrapAndForward), expected);
}

#[test]
fn trailing_comma_accepted() {
    let out = expand("fn t(&self, x: u8,) {}", Strategy::WrapAndForward);
    assert!(out.contains("fn t(&self, x: u8) ->"));
    assert!(out.contains("self.do_t(x)"));
}

#[test]
fn whitespace_between_tokens_is_free() {
    let src = "  pub   async fn  spaced ( &self )->u8{ 1 }";
    let expected = "pub async fn spaced(&self) -> act_zero::ActorResult<u8> { let result = self.do_spaced().await; act_zero::Produces::ok(result) }\n\nasync fn do_spaced(&self) -> u8 { 1 }";
    assert_eq!(expand(src, Strategy::WrapAndForward), expected);
}

#[test]
fn suspension_point_only_when_suspending() {
    let sync_out = expand("fn a_call(&self) {}", Strategy::WrapAndForward);
    assert!(!sync_out.contains(".await"));
    let susp_out = expand("async fn a_call(&self) {}", Strategy::WrapAndForward);
    assert!(susp_out.contains("self.do_a_call().await"));
    assert!(susp_out.starts_with("async fn a_call"));
    assert!(susp_out.contains("\n\nasync fn do_a_call"));
}

#[test]
fn deterministic_on_identical_input() {
    let src = "pub fn same(&self, v: Vec<u8>) -> usize { v.len() }";
    for strategy in [Strategy::WrapAndForward, Strategy::RenameOnly] {
        let first = expand(src, strategy);
        let second = expand(src, strategy);
        assert_eq!(first, second);
    }
}

#[test]
fn envelope_wraps_whole_result_value() {
    // The envelope layer reports only that a response was produced: the
    // result value, failure variant included, goes into the constructor
    // uninspected.
    let src = "fn may_fail(&self) -> Result<u8, Err> { Err(Err) }";
    let out = expand(src, Strategy::WrapAndForward);
    assert!(out.contains("act_zero::Produces::ok(result)"));
    assert!(out.contains("-> act_zero::ActorResult<Result<u8, Err>>"));
}

#[test]
fn derived_prefix_stacks_on_existing_prefix() {
    let out = expand("fn do_work(&self) {}", Strategy::WrapAndForward);
    assert!(out.contains("self.do_do_work()"));
    assert!(out.contains("\n\nfn do_do_work(&self) {}"));
}

#[test]
fn rename_only_keeps_suspension_and_visibility() {
    let out = expand("pub async fn tick(&mut self) -> u8 { 0 }", Strategy::RenameOnly);
    assert_eq!(out, "pub async fn do_tick(&mut self) -> u8 { 0 }");
}
