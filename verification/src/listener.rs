//! Messages and the listeners that handle them.

use vstd::prelude::*;
use crate::pattern::{regex_is_match, Pattern};

verus! {

/// One inbound chat event, after addressing has been resolved.
#[derive(Debug, PartialEq, Eq)]
pub struct Message {
    /// The channel the event arrived on.
    pub channel: String,
    /// The body, without the addressing prefix.
    pub text: String,
    /// Whether the raw line began with the addressing prefix.
    pub is_addressed: bool,
}

/// The mathematical content of a [`Message`].
pub struct MessageView {
    pub channel: Seq<char>,
    pub text: Seq<char>,
    pub is_addressed: bool,
}

impl View for Message {
    type V = MessageView;

    open spec fn view(&self) -> MessageView {
        MessageView { channel: self.channel@, text: self.text@, is_addressed: self.is_addressed }
    }
}

/// What a listener always answers: its model.
pub struct ListenerModel {
    /// The one-line description shown in the aggregate help text.
    pub help_text: Seq<char>,
    /// The source of the pattern that the message text is matched against.
    pub pattern: Seq<char>,
    /// Whether only addressed messages are of interest.
    pub requires_addressing: bool,
}

/// The addressing gate: a listener that asks for addressing admits only
/// addressed messages, any other listener admits every message.
pub open spec fn admits(requires_addressing: bool, message: MessageView) -> bool {
    !requires_addressing || message.is_addressed
}

/// The eligibility rule: the listener admits the message, and its pattern
/// matches somewhere in the text.
pub open spec fn eligible(listener: ListenerModel, message: MessageView) -> bool {
    admits(listener.requires_addressing, message) && regex_is_match(
        listener.pattern,
        message.text,
    )
}

impl Message {
    /// Whether the message passes the addressing gate of a listener that
    /// does, or does not, ask for addressing.
    pub fn is_admitted(&self, only_when_addressed: bool) -> (r: bool)
        ensures
            r == admits(only_when_addressed, self@),
    {
        !only_when_addressed || self.is_addressed
    }
}

/// A unit that pairs a pattern with a handling action.
///
/// An implementation promises that `help`, `re` and `only_when_addressed`
/// return what its model says, whenever they are called, and that
/// `can_handle`, where it is overridden, still computes the eligibility
/// rule. `model` itself is never executed.
pub trait MessageListener {
    /// What the handling action sends through.
    type Sender;

    /// The listener's model.
    spec fn model(&self) -> ListenerModel;

    /// The listener's help line.
    fn help(&self) -> (r: String)
        ensures
            r@ == self.model().help_text,
    ;

    /// The listener's pattern.
    fn re(&self) -> (r: &Pattern)
        ensures
            r@ == self.model().pattern,
    ;

    /// Whether the listener takes addressed messages only.
    fn only_when_addressed(&self) -> (r: bool)
        ensures
            r == self.model().requires_addressing,
    ;

    /// Performs the listener's side effect for `message`, typically one
    /// send through `cli`.
    fn handle(&self, message: &Message, cli: &Self::Sender);

    /// Whether the listener is eligible for `message`.
    fn can_handle(&self, message: &Message) -> (r: bool)
        ensures
            r == eligible(self.model(), message@),
    {
        message.is_admitted(self.only_when_addressed()) && self.re().is_match(
            message.text.as_str(),
        )
    }
}

/// A boxed listener is the listener it holds.
impl<L: MessageListener + ?Sized> MessageListener for Box<L> {
    type Sender = L::Sender;

    open spec fn model(&self) -> ListenerModel {
        (**self).model()
    }

    fn help(&self) -> (r: String) {
        (**self).help()
    }

    fn re(&self) -> (r: &Pattern) {
        (**self).re()
    }

    fn only_when_addressed(&self) -> (r: bool) {
        (**self).only_when_addressed()
    }

    fn handle(&self, message: &Message, cli: &Self::Sender) {
        (**self).handle(message, cli)
    }

    fn can_handle(&self, message: &Message) -> (r: bool) {
        (**self).can_handle(message)
    }
}

} // verus!
