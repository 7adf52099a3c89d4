use error_link::{
    ErrorChain, ErrorLink_, ErrorLinkable, LinkableResult1of2, LinkableResult2of2, NextLink,
    ResultExt, Textual,
};
use std::backtrace::Backtrace;

#[allow(dead_code)]
trait X {
    fn letter() -> char;
}
impl<T> X for T {
    fn letter() -> char {
        'X'
    }
}
struct B;
impl B {
    fn letter() -> char {
        'B'
    }
}

#[test]
fn test_favour_concrete() {
    assert!(B::letter() == 'B');
}

/// An I/O error as a payload: its text is what the error displays.
#[derive(Debug)]
struct Io(std::io::Error);

impl Textual for Io {
    fn to_text(&self) -> String {
        self.0.to_string()
    }
}

fn is_frame_output_default(default_output: &str) {
    assert_eq!(
        default_output
            .matches("Frame 0: Higher level error.\nFrame 1: Underlying error.\n")
            .collect::<Vec<_>>()
            .len(),
        1
    );
    assert!(default_output.starts_with(
        "Frame 0: Higher level error.\nFrame 1: Underlying error.\nApproximate backtrace of link no. 1:\n"
    ));
    has_only_one_backtrace(default_output);
}

fn is_link_output_default(default_output: &str) {
    assert_eq!(
        default_output
            .matches("Link no. 0: Higher level error.\nLink no. 1: Underlying error.")
            .collect::<Vec<_>>()
            .len(),
        1
    );
    has_only_one_backtrace(default_output);
}

fn has_only_one_backtrace(formatted_link: &str) {
    assert_eq!(
        formatted_link
            .matches("Approximate backtrace of link no. ")
            .collect::<Vec<_>>()
            .len(),
        1
    );
}

#[test]
#[allow(non_snake_case)]
fn test__chaining_non_error_chain() {
    let format_output = Err::<(), _>(Io(std::io::Error::other("Underlying error.")))
        .map_err(ErrorChain::link_fn("Higher level error."))
        .expect_err("look above")
        .render();
    println!("{}", format_output);
    is_link_output_default(&format_output);
}

#[test]
#[allow(non_snake_case)]
fn test__chaining_non_error_link_() {
    let error_link: ErrorLink_<String> =
        Err::<(), _>(Io(std::io::Error::other("Underlying error.")))
            .map_err(|e| e.as_link())
            .map_err(|e| e.link("Higher level error."))
            .expect_err("look above");
    let format_output = error_link.render();
    println!("{}", format_output);
    is_frame_output_default(&format_output);
}

#[test]
#[allow(non_snake_case)]
fn test__chaining_error_chain() {
    let format_output = Err::<(), _>(ErrorChain::start("Underlying error."))
        .map_err(ErrorChain::link_fn("Higher level error."))
        .expect_err("look above")
        .render();
    println!("{}", format_output);
    is_link_output_default(&format_output);
}

#[test]
#[allow(non_snake_case)]
fn test__chaining_error_link_() {
    let error_link: ErrorLink_<String> =
        Err::<(), _>(ErrorLink_::new_string("Underlying error."))
            .map_err(|e| e.as_link() as ErrorLink_<String>)
            .map_err(|e| e.link("Higher level error."))
            .expect_err("look above");
    let format_output = error_link.render();
    println!("{}", format_output);
    is_frame_output_default(&format_output);
}

fn new_i32(error_number: impl Into<i32>) -> ErrorLink_<i32> {
    ErrorLink_(error_number.into(), NextLink::Terminal(Backtrace::capture()))
}

#[derive(Debug, PartialEq)]
enum ErrorReasons {
    One,
    Two,
    #[allow(dead_code)]
    Three,
}

fn new_reason(error_reason: ErrorReasons) -> ErrorLink_<ErrorReasons> {
    ErrorLink_(error_reason, NextLink::Terminal(Backtrace::capture()))
}

impl Textual for ErrorReasons {
    fn to_text(&self) -> String {
        let as_string = match self {
            ErrorReasons::One => "First reason for underlying error.",
            ErrorReasons::Two => "Second reason for underlying error.",
            ErrorReasons::Three => "Third reason for underlying error.",
        };
        String::from(as_string)
    }
}

#[test]
#[allow(non_snake_case)]
fn test__chaining_error_link__non_string_payload() {
    let error_link: ErrorLink_<String> = Err::<(), _>(new_i32(100))
        .map_err(|e| e.link("Higher level error."))
        .expect_err("look above");
    let mut format_output = error_link.render();
    println!("{}", format_output);
    assert_eq!(
        format_output
            .matches("Frame 0: Higher level error.\nFrame 1: 100")
            .collect::<Vec<_>>()
            .len(),
        1
    );
    has_only_one_backtrace(&format_output);

    let error_link: ErrorLink_<String> = Err::<(), _>(new_reason(ErrorReasons::One))
        .map_err(|e| e.link("Higher level error."))
        .expect_err("look above");
    format_output = error_link.render();
    println!("{}", format_output);
    assert_eq!(
        format_output
            .matches("Frame 0: Higher level error.\nFrame 1: First reason for underlying error.")
            .collect::<Vec<_>>()
            .len(),
        1
    );
    has_only_one_backtrace(&format_output);

    match Err::<(), _>(new_reason(ErrorReasons::Two)) {
        Err(error_chain) if error_chain.0 == ErrorReasons::Two => {
            format_output = error_chain.render();
            println!("{}", format_output);
            assert_eq!(
                format_output
                    .matches("Frame 0: Second reason for underlying error.")
                    .collect::<Vec<_>>()
                    .len(),
                1
            );
            has_only_one_backtrace(&format_output);
        }
        _ => panic!("look above"),
    }
}

#[test]
#[allow(non_snake_case)]
fn test__chaining_non_error_chain_and_non_error_trait() {
    let format_output = Err::<(), _>(String::from("Underlying error."))
        .map_err(ErrorChain::onboard_fn("Higher level error."))
        .expect_err("look above")
        .render();
    println!("{}", format_output);
    is_link_output_default(&format_output);
}

#[test]
#[allow(non_snake_case)]
fn test__chaining_non_error_link_and_non_error_trait() {
    let format_output = Err::<(), _>(String::from("Underlying error."))
        .map_err(|e| e.link("Higher level error."))
        .expect_err("look above")
        .render();
    println!("{}", format_output);
    is_frame_output_default(&format_output);
}

#[test]
#[allow(non_snake_case)]
fn test__resultext__chaining_non() {
    let format_output = Err::<(), _>(String::from("Underlying error."))
        .map_err(|e| e.link("Higher level error."))
        .expect_err("look above")
        .render();
    println!("{}", format_output);
    is_frame_output_default(&format_output);
}

#[test]
#[allow(non_snake_case)]
fn test__resultext__chaining_error_link__string_payload() {
    let format_output = Err::<(), _>(ErrorLink_::new_string("Underlying error."))
        .me_al()
        .me_l("Higher level error.")
        .expect_err("look above")
        .render();
    println!("{}", format_output);
    is_frame_output_default(&format_output);
}

#[test]
#[allow(non_snake_case)]
fn test__resultext__chaining_error_link__non_string_payload() {
    let format_output = Err::<(), _>(new_i32(100))
        .me_al()
        .expect_err("look above")
        .render();
    println!("{}", format_output);
    assert_eq!(format_output.matches("100").collect::<Vec<_>>().len(), 1);
    has_only_one_backtrace(&format_output);
}

#[test]
#[allow(non_snake_case)]
fn test__resultext__chaining_non_error_link__string_payload() {
    let format_output = Err::<(), _>(String::from("Underlying error."))
        .me_al()
        .expect_err("look above")
        .render();
    println!("{}", format_output);
    assert_eq!(
        format_output
            .matches("Underlying error.")
            .collect::<Vec<_>>()
            .len(),
        1
    );
    has_only_one_backtrace(&format_output);
}

#[test]
#[allow(non_snake_case)]
fn test__resultext__chaining_non_error_link__non_string_payload() {
    let format_output = Err::<(), _>(100)
        .me_al()
        .expect_err("look above")
        .render();
    println!("{}", format_output);
    assert_eq!(format_output.matches("100").collect::<Vec<_>>().len(), 1);
    has_only_one_backtrace(&format_output);
}

#[allow(dead_code)]
struct DisplayableAndIntoStringable(String);
impl From<DisplayableAndIntoStringable> for String {
    fn from(value: DisplayableAndIntoStringable) -> Self {
        value.0
    }
}
impl Textual for DisplayableAndIntoStringable {
    fn to_text(&self) -> String {
        String::from("DisplayableAndIntoStringable")
    }
}

#[test]
#[allow(non_snake_case)]
fn test__link_conversion__to_error_link_string() {
    let _ = || -> Result<(), ErrorLink_<String>> {
        Err::<(), _>(ErrorLink_::new("These `Result`s would be typically from function calls."))?;
        Err::<(), _>(String::from(
            "So, if the error is an `ErrorLink_` of same payload, or the payload type itself, \
            `?` can be used.",
        ))?;
        Err::<(), _>(Io(std::io::Error::other(
            "`ErrorLink_<String>` is like a terminal type. `me_as_slink()?` can always be called, \
            and all can turn into it.",
        )))
        .me_as_slink()?;
        Err::<(), _>(ErrorLink_::<DisplayableAndIntoStringable>::new(
            DisplayableAndIntoStringable(String::from(
                "`impl<T> from <T> for T` exists, so `?` cannot cover all `ErrorLink_` to \
                `ErrorLink_`s. Hence `me_as_link`.",
            )),
        ))
        .me_as_link()?;
        Ok(())
    }();
}

#[test]
#[allow(non_snake_case)]
fn test__adding_link__to_error_link_string() {
    let _ = || -> Result<(), ErrorLink_<String>> {
        Err::<(), _>(ErrorLink_::<Io>::new(Io(std::io::Error::other(
            "Some data relating to an unhappy code path.",
        ))))
        .me_link("Some more information.")?;
        Ok(())
    }();
}

#[test]
#[allow(non_snake_case)]
fn test__replacing_payload__to_error_link_string() {
    let _ = || -> Result<(), ErrorLink_<String>> {
        Err::<(), _>(ErrorLink_::<Io>::new(Io(std::io::Error::other("Something ugly."))))
            .map_err(|_| ErrorLink_::new("Get replaced."))?;
        Err::<(), _>(ErrorLink_::<Io>::new(Io(std::io::Error::other("Something ugly."))))
            .map_err(|e| e.replace("Get replaced. But keep its linkage."))?;
        Ok(())
    }();
}

#[test]
#[allow(non_snake_case)]
fn test__link_conversion__to_error_link_non_string() {
    let _ = || -> Result<(), ErrorLink_<i32>> {
        Err::<(), _>(ErrorLink_::new(88))?;
        Err::<(), _>(44)?;
        Err::<(), _>(ErrorLink_::<i8>::new(8)).me_as_link()?;
        Ok(())
    }();
}

#[test]
#[allow(non_snake_case)]
fn test__adding_link__to_error_link_non_string() {
    let _ = || -> Result<(), ErrorLink_<i32>> {
        Err::<(), _>(ErrorLink_::new_string("")).me_link(100)?;
        Ok(())
    }();
}

#[test]
#[allow(non_snake_case)]
fn test__replacing_payload__to_error_link_non_string() {
    let _ = || -> Result<(), ErrorLink_<i32>> {
        Err::<(), _>(ErrorLink_::<Io>::new(Io(std::io::Error::other("Something ugly."))))
            .map_err(|_| ErrorLink_::new(3))?;
        Err::<(), _>(ErrorLink_::<Io>::new(Io(std::io::Error::other("Something ugly."))))
            .map_err(|e| e.replace(1))?;
        Ok(())
    }();
}
