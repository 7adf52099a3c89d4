use error_link::{ErrorChain, ErrorLink, Textual};
use std::backtrace::Backtrace;

#[derive(Debug)]
struct Code(u16);

impl Textual for Code {
    fn to_text(&self) -> String {
        format!("code {}", self.0)
    }
}

fn messages_of(link: &ErrorLink) -> Vec<String> {
    let mut messages = Vec::new();
    let mut link = link;
    loop {
        match link {
            ErrorLink::Severed(_) => return messages,
            ErrorLink::Continued(message, next) => {
                messages.push(message.clone());
                link = next;
            }
        }
    }
}

fn snapshot_of(link: &ErrorLink) -> &Backtrace {
    let mut link = link;
    loop {
        match link {
            ErrorLink::Severed(snapshot) => return snapshot,
            ErrorLink::Continued(_, next) => link = next,
        }
    }
}

#[test]
fn severed_ends_a_chain() {
    assert!(matches!(ErrorLink::severed(), ErrorLink::Severed(_)));
}

#[test]
fn continued_holds_the_message_and_the_next_link() {
    let link = ErrorLink::continued("message", ErrorLink::severed());
    match &link {
        ErrorLink::Continued(message, next) => {
            assert_eq!(message, "message");
            assert!(matches!(**next, ErrorLink::Severed(_)));
        }
        ErrorLink::Severed(_) => panic!("a continued link is expected"),
    }
    let link = ErrorLink::continued(String::from("outer"), Box::new(link));
    assert_eq!(messages_of(&link), vec!["outer", "message"]);
}

#[test]
fn start_makes_a_single_frame() {
    let chain = ErrorChain::start("Underlying error.");
    assert_eq!(chain.0, "Underlying error.");
    assert!(matches!(chain.1, ErrorLink::Severed(_)));
    assert_eq!(
        chain.render_with("S"),
        "Link no. 0: Underlying error.\nApproximate backtrace of link no. 0:\nS"
    );
}

#[test]
fn add_puts_a_frame_before_a_chain() {
    let under = ErrorChain(Code(404), ErrorLink::Severed(Backtrace::force_capture()));
    let snapshot_text = snapshot_of(&under.1).to_string();
    let chain = ErrorChain::add("Higher level error.", under);
    assert_eq!(chain.0, "Higher level error.");
    assert_eq!(messages_of(&chain.1), vec!["code 404"]);
    assert_eq!(snapshot_of(&chain.1).to_string(), snapshot_text);
    let chain = ErrorChain::add_fn("top")(chain);
    assert_eq!(
        chain.render_with("S"),
        "Link no. 0: top\nLink no. 1: Higher level error.\nLink no. 2: code 404\n\
         Approximate backtrace of link no. 2:\nS"
    );
    assert_eq!(snapshot_of(&chain.1).to_string(), snapshot_text);
}

#[test]
fn onboard_starts_a_chain_under_the_message() {
    let chain = ErrorChain::onboard("Higher level error.", Code(7));
    assert_eq!(
        chain.render_with("S"),
        "Link no. 0: Higher level error.\nLink no. 1: code 7\n\
         Approximate backtrace of link no. 1:\nS"
    );
    let chain = ErrorChain::onboard_fn("top")(String::from("Underlying error."));
    assert_eq!(messages_of(&chain.1), vec!["Underlying error."]);
}

#[test]
fn link_takes_a_chain_or_a_value() {
    let chain = ErrorChain::link("Higher level error.", ErrorChain::start("Underlying error."));
    assert_eq!(
        chain.render_with("S"),
        "Link no. 0: Higher level error.\nLink no. 1: Underlying error.\n\
         Approximate backtrace of link no. 1:\nS"
    );
    let chain = ErrorChain::link("Higher level error.", Code(500));
    assert_eq!(messages_of(&chain.1), vec!["code 500"]);
    let chain = ErrorChain::link_fn("top")(chain);
    assert_eq!(
        messages_of(&chain.1),
        vec!["Higher level error.", "code 500"]
    );
}

#[test]
fn from_a_value_starts_a_chain_of_text() {
    let chain: ErrorChain<String> = Code(3).into();
    assert_eq!(chain.0, "code 3");
    assert!(matches!(chain.1, ErrorLink::Severed(_)));
}

#[test]
fn render_of_a_chain_ends_with_its_snapshot() {
    let chain = ErrorChain(
        String::from("Underlying error."),
        ErrorLink::Severed(Backtrace::force_capture()),
    );
    let chain = ErrorChain::link("Higher level error.", chain);
    let snapshot_text = snapshot_of(&chain.1).to_string();
    let out = chain.render();
    assert_eq!(out, chain.render_with(&snapshot_text));
    assert_eq!(out.matches("Approximate backtrace of link no. ").count(), 1);
}
