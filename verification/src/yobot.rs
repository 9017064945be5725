//! The dispatcher: an ordered registry of listeners and the rule that
//! resolves a message to at most one of them.

use vstd::prelude::*;
use vstd::string::*;
use crate::listener::{eligible, Message, MessageListener, MessageView};
use crate::pattern::regex_compiles;
use crate::slackhandler::{addresser_source, bot_id, find_bot_id, ConnectError, SlackHandler, User};
use crate::text::same_text;

verus! {

/// What is to be done with one message.
#[derive(Debug, PartialEq, Eq)]
pub enum Dispatch {
    /// Send this text, the aggregate help, to the message's channel.
    Help(String),
    /// Invoke the listener at this position of the registry.
    Handle(usize),
    /// No listener is eligible: the message is dropped.
    Ignore,
}

/// The mathematical content of a [`Dispatch`].
pub enum DispatchView {
    Help(Seq<char>),
    Handle(int),
    Ignore,
}

impl View for Dispatch {
    type V = DispatchView;

    open spec fn view(&self) -> DispatchView {
        match self {
            Dispatch::Help(text) => DispatchView::Help(text@),
            Dispatch::Handle(index) => DispatchView::Handle(*index as int),
            Dispatch::Ignore => DispatchView::Ignore,
        }
    }
}

/// The text that asks for help.
pub open spec fn help_command() -> Seq<char> {
    seq!['h', 'e', 'l', 'p']
}

/// A help request is the addressed message whose whole text is `help`.
pub open spec fn is_help_request(message: MessageView) -> bool {
    message.is_addressed && message.text == help_command()
}

/// The lines joined by a newline between each two neighbours.
pub open spec fn join_lines(lines: Seq<Seq<char>>) -> Seq<char>
    decreases lines.len(),
{
    if lines.len() == 0 {
        Seq::empty()
    } else if lines.len() == 1 {
        lines[0]
    } else {
        join_lines(lines.drop_last()) + seq!['\n'] + lines.last()
    }
}

/// The help line of each listener, in registration order.
pub open spec fn help_lines<L: MessageListener>(listeners: Seq<L>) -> Seq<Seq<char>> {
    Seq::new(listeners.len(), |i: int| listeners[i].model().help_text)
}

/// Whether the listener at `index` is eligible for `message`.
pub open spec fn eligible_at<L: MessageListener>(
    listeners: Seq<L>,
    index: int,
    message: MessageView,
) -> bool {
    eligible(listeners[index].model(), message)
}

/// Whether `outcome` is what the registry `listeners` owes to `message`:
/// the aggregate help for a help request; otherwise the first eligible
/// listener, or nothing where none is eligible.
pub open spec fn dispatches<L: MessageListener>(
    listeners: Seq<L>,
    message: MessageView,
    outcome: DispatchView,
) -> bool {
    if is_help_request(message) {
        outcome == DispatchView::Help(join_lines(help_lines(listeners)))
    } else {
        match outcome {
            DispatchView::Help(_) => false,
            DispatchView::Handle(index) => {
                &&& 0 <= index < listeners.len()
                &&& eligible_at(listeners, index, message)
                &&& forall|j: int| 0 <= j < index ==> !eligible_at(listeners, j, message)
            },
            DispatchView::Ignore => forall|j: int|
                0 <= j < listeners.len() ==> !eligible_at(listeners, j, message),
        }
    }
}

/// An ordered registry of listeners. Registration order is priority order.
pub struct Yobot<L: MessageListener> {
    listeners: Vec<L>,
}

impl<L: MessageListener> View for Yobot<L> {
    type V = Seq<L>;

    /// A registry is modelled by its listeners in registration order.
    closed spec fn view(&self) -> Seq<L> {
        self.listeners@
    }
}

impl<L: MessageListener> Yobot<L> {
    /// A registry without listeners.
    pub fn new() -> (r: Yobot<L>)
        ensures
            r@ == Seq::<L>::empty(),
    {
        Yobot { listeners: Vec::new() }
    }

    /// Appends `listener` to the registry and hands the registry back, so
    /// that registrations can be chained.
    pub fn add_listener(&mut self, listener: L) -> (r: &mut Yobot<L>)
        ensures
            r@ == old(self)@.push(listener),
            *final(self) == *final(r),
    {
        self.listeners.push(listener);
        self
    }

    /// The registered listeners, in registration order.
    pub fn listeners(&self) -> (r: &Vec<L>)
        ensures
            r@ == self@,
    {
        &self.listeners
    }

    /// The help lines of all listeners, one per line, in registration order.
    pub fn help(&self) -> (r: String)
        ensures
            r@ == join_lines(help_lines(self@)),
    {
        let mut text = String::new();
        let mut i: usize = 0;
        while i < self.listeners.len()
            invariant
                i <= self.listeners@.len(),
                text@ == join_lines(help_lines(self.listeners@).take(i as int)),
            decreases self.listeners@.len() - i,
        {
            let line = self.listeners[i].help();
            proof {
                let lines = help_lines(self.listeners@);
                assert(lines.take(i + 1).drop_last() =~= lines.take(i as int));
                assert(lines.take(i + 1).last() == line@);
                if i > 0 {
                    reveal_strlit("\n");
                    assert("\n"@ =~= seq!['\n']);
                } else {
                    assert(text@ + line@ =~= line@);
                }
            }
            if i > 0 {
                text.append("\n");
            }
            text.append(line.as_str());
            i = i + 1;
        }
        proof {
            let lines = help_lines(self.listeners@);
            assert(lines.take(self.listeners@.len() as int) =~= lines);
        }
        text
    }

    /// Resolves `message`: the aggregate help for a help request, otherwise
    /// the first listener in registration order that can handle it.
    pub fn handle_message(&self, message: &Message) -> (r: Dispatch)
        ensures
            dispatches(self@, message@, r@),
    {
        proof {
            reveal_strlit("help");
            assert("help"@ =~= help_command());
        }
        if same_text(message.text.as_str(), "help") && message.is_addressed {
            return Dispatch::Help(self.help());
        }
        let mut i: usize = 0;
        while i < self.listeners.len()
            invariant
                i <= self.listeners@.len(),
                !is_help_request(message@),
                forall|j: int| 0 <= j < i ==> !eligible_at(self.listeners@, j, message@),
            decreases self.listeners@.len() - i,
        {
            if self.listeners[i].can_handle(message) {
                return Dispatch::Handle(i);
            }
            i = i + 1;
        }
        Dispatch::Ignore
    }

    /// Binds the registry to the bot named `bot_name`, looked up among the
    /// users that the platform reported on connecting.
    ///
    /// Succeeds exactly where the lookup finds an id and the addressing
    /// pattern of that id and name compiles. Fails with `BotNotFound`
    /// exactly where the lookup finds no id, and with `Addresser` exactly
    /// where it finds one and the pattern does not compile.
    pub fn connect<'a>(&'a self, users: &Vec<User>, bot_name: &str) -> (r: Result<
        SlackHandler<'a, L>,
        ConnectError,
    >)
        ensures
            r is Ok == (bot_id(users@, bot_name@) matches Some(id) && regex_compiles(
                addresser_source(id, bot_name@),
            )),
            match bot_id(users@, bot_name@) {
                Some(id) => if regex_compiles(addresser_source(id, bot_name@)) {
                    &&& r matches Ok(handler)
                    &&& handler.addresser() == addresser_source(id, bot_name@)
                    &&& handler.registry() == self@
                } else {
                    r matches Err(ConnectError::Addresser(_))
                },
                None => r == Err::<SlackHandler<'a, L>, ConnectError>(ConnectError::BotNotFound),
            },
    {
        match find_bot_id(users, bot_name) {
            Some(id) => match SlackHandler::new(self, id.as_str(), bot_name) {
                Ok(handler) => Ok(handler),
                Err(error) => Err(ConnectError::Addresser(error)),
            },
            None => Err(ConnectError::BotNotFound),
        }
    }
}

/// The registry that results from registering `listeners`, one after the
/// other, on top of `registry`.
pub open spec fn registered<L: MessageListener>(registry: Seq<L>, listeners: Seq<L>) -> Seq<L>
    decreases listeners.len(),
{
    if listeners.len() == 0 {
        registry
    } else {
        registered(registry, listeners.drop_last()).push(listeners.last())
    }
}

/// Dispatch is deterministic: a registry and a message have one outcome.
pub proof fn lemma_dispatch_is_deterministic<L: MessageListener>(
    listeners: Seq<L>,
    message: MessageView,
    one: DispatchView,
    other: DispatchView,
)
    requires
        dispatches(listeners, message, one),
        dispatches(listeners, message, other),
    ensures
        one == other,
{
}

/// First match wins: where two listeners are both eligible, the one that
/// was registered later is not selected, and unless help was asked for the
/// selected listener is the earlier one or one before it.
pub proof fn lemma_first_match_wins<L: MessageListener>(
    listeners: Seq<L>,
    message: MessageView,
    first: int,
    second: int,
    outcome: DispatchView,
)
    requires
        0 <= first < second < listeners.len(),
        eligible_at(listeners, first, message),
        eligible_at(listeners, second, message),
        dispatches(listeners, message, outcome),
    ensures
        outcome != DispatchView::Handle(second),
        !is_help_request(message) ==> (outcome matches DispatchView::Handle(index) && index
            <= first),
{
}

/// Help takes precedence: a help request is answered with the aggregate
/// help text, whatever the listeners are eligible for.
pub proof fn lemma_help_takes_precedence<L: MessageListener>(
    listeners: Seq<L>,
    message: MessageView,
    outcome: DispatchView,
)
    requires
        is_help_request(message),
        dispatches(listeners, message, outcome),
    ensures
        outcome == DispatchView::Help(join_lines(help_lines(listeners))),
        listeners.len() == 1 ==> outcome == DispatchView::Help(listeners[0].model().help_text),
{
}

/// An unaddressed message never selects a listener that asks for
/// addressing, and is never answered with the help text.
pub proof fn lemma_unaddressed_skips_addressed_only<L: MessageListener>(
    listeners: Seq<L>,
    message: MessageView,
    outcome: DispatchView,
)
    requires
        !message.is_addressed,
        dispatches(listeners, message, outcome),
    ensures
        outcome !is Help,
        outcome matches DispatchView::Handle(index) ==> !listeners[index].model().requires_addressing,
{
}

/// An empty registry drops every message that does not ask for help.
pub proof fn lemma_empty_registry_is_silent<L: MessageListener>(
    listeners: Seq<L>,
    message: MessageView,
    outcome: DispatchView,
)
    requires
        listeners.len() == 0,
        !is_help_request(message),
        dispatches(listeners, message, outcome),
    ensures
        outcome == DispatchView::Ignore,
{
}

/// Registration keeps order: registering `listeners` one after the other
/// leaves what was registered before in place and puts `listeners` behind
/// it, as they came. On an empty registry the result is exactly `listeners`.
pub proof fn lemma_registration_keeps_order<L: MessageListener>(
    registry: Seq<L>,
    listeners: Seq<L>,
)
    ensures
        registered(registry, listeners) == registry + listeners,
        registered(Seq::<L>::empty(), listeners) == listeners,
    decreases listeners.len(),
{
    if listeners.len() > 0 {
        lemma_registration_keeps_order(registry, listeners.drop_last());
        lemma_registration_keeps_order(Seq::<L>::empty(), listeners.drop_last());
        assert(listeners.drop_last().push(listeners.last()) =~= listeners);
        assert((registry + listeners.drop_last()).push(listeners.last()) =~= registry
            + listeners);
    } else {
        assert(registry + listeners =~= registry);
    }
}

} // verus!
