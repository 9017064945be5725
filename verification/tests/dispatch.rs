use std::cell::RefCell;

use yobot::listener::ListenerModel;
use yobot::{Dispatch, Message, MessageListener, Pattern, Yobot};

/// Everything that was sent: (channel, text).
type Outbox = RefCell<Vec<(String, String)>>;

/// A listener that answers with its own name.
struct Named {
    name: &'static str,
    help: &'static str,
    re: Pattern,
    addressed_only: bool,
}

impl Named {
    fn new(name: &'static str, help: &'static str, re: &str, addressed_only: bool) -> Named {
        Named { name, help, re: Pattern::new(re).unwrap(), addressed_only }
    }
}

impl MessageListener for Named {
    type Sender = Outbox;

    fn model(&self) -> ListenerModel {
        unreachable!()
    }

    fn help(&self) -> String {
        String::from(self.help)
    }

    fn re(&self) -> &Pattern {
        &self.re
    }

    fn only_when_addressed(&self) -> bool {
        self.addressed_only
    }

    fn handle(&self, message: &Message, cli: &Outbox) {
        cli.borrow_mut().push((message.channel.clone(), String::from(self.name)));
    }
}

/// A listener that overrides eligibility with the rule itself.
struct Shouting(Pattern);

impl MessageListener for Shouting {
    type Sender = Outbox;

    fn model(&self) -> ListenerModel {
        unreachable!()
    }

    fn help(&self) -> String {
        String::from("`LOUD`: shouts back")
    }

    fn re(&self) -> &Pattern {
        &self.0
    }

    fn only_when_addressed(&self) -> bool {
        false
    }

    fn handle(&self, message: &Message, cli: &Outbox) {
        cli.borrow_mut().push((message.channel.clone(), message.text.to_uppercase()));
    }

    fn can_handle(&self, message: &Message) -> bool {
        self.0.is_match(&message.text)
    }
}

fn message(text: &str, is_addressed: bool) -> Message {
    Message { channel: String::from("general"), text: String::from(text), is_addressed }
}

/// Carries a decision out, the way a transport would.
fn perform<L: MessageListener<Sender = Outbox>>(bot: &Yobot<L>, m: &Message, outbox: &Outbox) {
    match bot.handle_message(m) {
        Dispatch::Help(text) => outbox.borrow_mut().push((m.channel.clone(), text)),
        Dispatch::Handle(i) => bot.listeners()[i].handle(m, outbox),
        Dispatch::Ignore => {}
    }
}

#[test]
fn new_registry_is_empty() {
    let bot: Yobot<Named> = Yobot::new();
    assert!(bot.listeners().is_empty());
}

#[test]
fn first_match_wins() {
    let mut bot = Yobot::new();
    bot.add_listener(Named::new("A", "a", ".", true));
    bot.add_listener(Named::new("B", "b", ".", true));
    let m = message("ping", true);
    assert_eq!(bot.handle_message(&m), Dispatch::Handle(0));
    let outbox = Outbox::default();
    perform(&bot, &m, &outbox);
    assert_eq!(outbox.into_inner(), vec![(String::from("general"), String::from("A"))]);
}

#[test]
fn later_listener_is_taken_when_earlier_ones_decline() {
    let mut bot = Yobot::new();
    bot.add_listener(Named::new("A", "a", "^deploy", true));
    bot.add_listener(Named::new("B", "b", "^status", false));
    bot.add_listener(Named::new("C", "c", ".", false));
    assert_eq!(bot.handle_message(&message("status please", false)), Dispatch::Handle(1));
    assert_eq!(bot.handle_message(&message("deploy now", true)), Dispatch::Handle(0));
    assert_eq!(bot.handle_message(&message("deploy now", false)), Dispatch::Handle(2));
}

#[test]
fn help_takes_precedence() {
    let mut bot = Yobot::new();
    bot.add_listener(Named::new("echo", "`echo`: says hi", ".", true));
    let m = message("help", true);
    assert_eq!(bot.handle_message(&m), Dispatch::Help(String::from("`echo`: says hi")));
    let outbox = Outbox::default();
    perform(&bot, &m, &outbox);
    assert_eq!(
        outbox.into_inner(),
        vec![(String::from("general"), String::from("`echo`: says hi"))]
    );
}

#[test]
fn help_lists_every_listener_in_registration_order() {
    let mut bot = Yobot::new();
    bot.add_listener(Named::new("A", "first", "x", true))
        .add_listener(Named::new("B", "second", "y", false))
        .add_listener(Named::new("C", "third", "z", true));
    assert_eq!(bot.help(), "first\nsecond\nthird");
    assert_eq!(
        bot.handle_message(&message("help", true)),
        Dispatch::Help(String::from("first\nsecond\nthird"))
    );
}

#[test]
fn help_of_an_empty_registry_is_empty() {
    let bot: Yobot<Named> = Yobot::new();
    assert_eq!(bot.help(), "");
    assert_eq!(bot.handle_message(&message("help", true)), Dispatch::Help(String::new()));
}

#[test]
fn unaddressed_help_is_an_ordinary_message() {
    let mut bot = Yobot::new();
    bot.add_listener(Named::new("A", "a", "^help$", false));
    assert_eq!(bot.handle_message(&message("help", false)), Dispatch::Handle(0));
    let mut quiet = Yobot::new();
    quiet.add_listener(Named::new("A", "a", "^help$", true));
    assert_eq!(quiet.handle_message(&message("help", false)), Dispatch::Ignore);
}

#[test]
fn only_the_exact_text_asks_for_help() {
    let mut bot = Yobot::new();
    bot.add_listener(Named::new("A", "a", "help", true));
    assert_eq!(bot.handle_message(&message("help me", true)), Dispatch::Handle(0));
    assert_eq!(bot.handle_message(&message(" help", true)), Dispatch::Handle(0));
    assert_eq!(bot.handle_message(&message("Help", true)), Dispatch::Ignore);
    assert_eq!(bot.handle_message(&message("hel", true)), Dispatch::Ignore);
}

#[test]
fn unaddressed_message_skips_addressed_only_listener() {
    let mut bot = Yobot::new();
    bot.add_listener(Named::new("A", "a", ".", true));
    let m = message("hello", false);
    assert_eq!(bot.handle_message(&m), Dispatch::Ignore);
    let outbox = Outbox::default();
    perform(&bot, &m, &outbox);
    assert!(outbox.into_inner().is_empty());
}

#[test]
fn empty_registry_is_silent() {
    let bot: Yobot<Named> = Yobot::new();
    for m in [message("ping", true), message("ping", false), message("", false)] {
        assert_eq!(bot.handle_message(&m), Dispatch::Ignore);
        let outbox = Outbox::default();
        perform(&bot, &m, &outbox);
        assert!(outbox.into_inner().is_empty());
    }
}

#[test]
fn no_match_is_dropped() {
    let mut bot = Yobot::new();
    bot.add_listener(Named::new("A", "a", "^deploy", false));
    assert_eq!(bot.handle_message(&message("status", true)), Dispatch::Ignore);
    assert_eq!(bot.handle_message(&message("", true)), Dispatch::Ignore);
}

#[test]
fn dispatch_is_repeatable() {
    let mut bot = Yobot::new();
    bot.add_listener(Named::new("A", "a", "^a", false));
    bot.add_listener(Named::new("B", "b", "b$", false));
    for text in ["ab", "b", "c", "help"] {
        let m = message(text, true);
        let first = bot.handle_message(&m);
        assert_eq!(bot.handle_message(&m), first);
        assert_eq!(bot.handle_message(&m), first);
    }
}

#[test]
fn registration_keeps_order() {
    let mut bot = Yobot::new();
    bot.add_listener(Named::new("A", "a", ".", true));
    bot.add_listener(Named::new("B", "b", ".", true));
    bot.add_listener(Named::new("C", "c", ".", true));
    let names: Vec<&str> = bot.listeners().iter().map(|l| l.name).collect();
    assert_eq!(names, vec!["A", "B", "C"]);
}

#[test]
fn duplicates_are_kept() {
    let mut bot = Yobot::new();
    bot.add_listener(Named::new("A", "a", ".", true)).add_listener(Named::new("A", "a", ".", true));
    assert_eq!(bot.listeners().len(), 2);
    assert_eq!(bot.help(), "a\na");
}

#[test]
fn default_rule_needs_addressing_and_a_match() {
    let strict = Named::new("A", "a", "b+", true);
    assert!(strict.can_handle(&message("abba", true)));
    assert!(!strict.can_handle(&message("abba", false)));
    assert!(!strict.can_handle(&message("acca", true)));
    let open = Named::new("B", "b", "b+", false);
    assert!(open.can_handle(&message("abba", false)));
    assert!(open.can_handle(&message("abba", true)));
    assert!(!open.can_handle(&message("acca", false)));
}

#[test]
fn addressing_gate() {
    assert!(message("x", true).is_admitted(true));
    assert!(message("x", true).is_admitted(false));
    assert!(message("x", false).is_admitted(false));
    assert!(!message("x", false).is_admitted(true));
}

#[test]
fn pattern_matches_anywhere_in_the_text() {
    let l = Named::new("A", "a", "needle", false);
    assert!(l.can_handle(&message("hay needle hay", false)));
    assert!(!l.can_handle(&message("hay", false)));
}

#[test]
fn boxed_listeners_of_different_kinds_share_a_registry() {
    let mut bot: Yobot<Box<dyn MessageListener<Sender = Outbox>>> = Yobot::new();
    bot.add_listener(Box::new(Named::new("A", "a", "^a", true)));
    bot.add_listener(Box::new(Shouting(Pattern::new("!$").unwrap())));
    assert_eq!(bot.help(), "a\n`LOUD`: shouts back");
    assert_eq!(bot.handle_message(&message("hey!", false)), Dispatch::Handle(1));
    assert_eq!(bot.handle_message(&message("a!", true)), Dispatch::Handle(0));
    let outbox = Outbox::default();
    perform(&bot, &message("hey!", false), &outbox);
    assert_eq!(outbox.into_inner(), vec![(String::from("general"), String::from("HEY!"))]);
}
