use act_zero_ext::into_actor_result;
use act_zero_ext::transform::Strategy;

fn refuse(src: &str) {
    for strategy in [Strategy::WrapAndForward, Strategy::RenameOnly] {
        let r = into_actor_result(&src.as_bytes().to_vec(), strategy);
        assert!(r.is_err(), "input should be refused: {src}");
    }
}

#[test]
fn empty_input_refused() {
    refuse("");
    refuse("   \n\t ");
}

#[test]
fn not_a_function_refused() {
    refuse("struct S;");
    refuse("let x = 1;");
    refuse("pub use other::thing;");
}

#[test]
fn missing_name_refused() {
    refuse("pub fn () {}");
    refuse("fn -> u8 {}");
}

#[test]
fn missing_parameter_list_refused() {
    refuse("fn nameonly {}");
    refuse("fn open_list( {}");
}

#[test]
fn unterminated_generics_refused() {
    refuse("fn g<T(&self) {}");
}

#[test]
fn parameter_without_type_refused() {
    refuse("fn g(&self, x) {}");
}

#[test]
fn empty_parameter_refused() {
    refuse("fn g(&self,, x: u8) {}");
}

#[test]
fn receiver_after_first_position_refused() {
    refuse("fn g(x: u8, &self) {}");
    refuse("fn g(&self, &self) {}");
}

#[test]
fn invalid_return_type_syntax_refused() {
    refuse("fn g(&self) -> {}");
    refuse("fn g(&self) -> ) {}");
}

#[test]
fn missing_or_unclosed_body_refused() {
    refuse("fn g(&self)");
    refuse("fn g(&self) -> u8");
    refuse("fn g(&self) { unclosed");
}

#[test]
fn trailing_text_after_body_refused() {
    refuse("fn g(&self) {} extra");
    refuse("fn g(&self) {} fn h(&self) {}");
}

#[test]
fn empty_visibility_restriction_refused() {
    refuse("pub() fn g(&self) {}");
    refuse("pub( fn g(&self) {}");
}
