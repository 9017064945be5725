//! The bot's identity, the addressing prefix, and the handler that turns
//! inbound events into messages and decisions.

use vstd::prelude::*;
use vstd::string::*;
use vstd::utf8::*;
use crate::listener::{Message, MessageListener, MessageView};
use crate::pattern::{escaped, regex_compiles, regex_find, Pattern, PatternError};
use crate::text::same_text;
use crate::yobot::{dispatches, Dispatch, Yobot};

verus! {

/// One user as the platform reports it. Either part may be missing.
#[derive(Debug, PartialEq, Eq)]
pub struct User {
    pub id: Option<String>,
    pub name: Option<String>,
}

/// Whether `user` carries the display name `name`.
pub open spec fn is_named(user: User, name: Seq<char>) -> bool {
    user.name matches Some(n) && n@ == name
}

/// Whether the user at `index` is the first one named `name`.
pub open spec fn first_named_at(users: Seq<User>, name: Seq<char>, index: int) -> bool {
    &&& 0 <= index < users.len()
    &&& is_named(users[index], name)
    &&& forall|j: int| 0 <= j < index ==> !is_named(users[j], name)
}

/// The platform id of the bot: the id of the first user named `name`, if
/// there is such a user and it has an id.
pub open spec fn bot_id(users: Seq<User>, name: Seq<char>) -> Option<Seq<char>> {
    if exists|i: int| first_named_at(users, name, i) {
        let i = choose|i: int| first_named_at(users, name, i);
        match users[i].id {
            Some(id) => Some(id@),
            None => None,
        }
    } else {
        None
    }
}

/// Looks the bot up by display name among `users`.
pub fn find_bot_id<'a>(users: &'a Vec<User>, bot_name: &str) -> (r: Option<&'a String>)
    ensures
        match r {
            Some(id) => bot_id(users@, bot_name@) == Some(id@),
            None => bot_id(users@, bot_name@) is None,
        },
{
    let mut i: usize = 0;
    while i < users.len()
        invariant
            i <= users@.len(),
            forall|j: int| 0 <= j < i ==> !is_named(users@[j], bot_name@),
        decreases users@.len() - i,
    {
        let named = match &users[i].name {
            Some(name) => same_text(name.as_str(), bot_name),
            None => false,
        };
        if named {
            assert(first_named_at(users@, bot_name@, i as int));
            return users[i].id.as_ref();
        }
        i = i + 1;
    }
    None
}

/// The source of the addressing pattern of a bot: at the start of the line,
/// a mention of the platform id or the display name, both taken literally,
/// and after it at most one separator (a colon, a comma or a whitespace).
pub open spec fn addresser_source(bot_id: Seq<char>, bot_name: Seq<char>) -> Seq<char> {
    "^(?:<@"@ + escaped(bot_id) + ">|"@ + escaped(bot_name) + ")[:,\\s]?"@
}

/// Writes the source of the addressing pattern of a bot.
pub fn addresser_for(bot_id: &str, bot_name: &str) -> (r: String)
    ensures
        r@ == addresser_source(bot_id@, bot_name@),
{
    let mut source = String::from_str("^(?:<@");
    source.append(Pattern::escape(bot_id).as_str());
    source.append(">|");
    source.append(Pattern::escape(bot_name).as_str());
    source.append(")[:,\\s]?");
    source
}

/// The offsets of a match as mathematical integers.
pub open spec fn found_view(found: Option<(usize, usize)>) -> Option<(int, int)> {
    match found {
        Some((start, end)) => Some((start as int, end as int)),
        None => None,
    }
}

/// Where the addressing prefix of `raw` ends, given the leftmost match
/// `found` of the addressing pattern in `raw`: only a match that starts at
/// the very beginning of the line and ends between two characters counts.
pub open spec fn prefix_end(raw: Seq<char>, found: Option<(int, int)>) -> Option<int> {
    match found {
        Some((start, end)) => if start == 0 && is_char_boundary(encode_utf8(raw), end) {
            Some(end)
        } else {
            None
        },
        None => None,
    }
}

/// The first `end` bytes of `raw`, as text.
pub open spec fn prefix(raw: Seq<char>, end: int) -> Seq<char> {
    decode_utf8(encode_utf8(raw).subrange(0, end))
}

/// `raw` without its first `end` bytes, as text.
pub open spec fn remainder(raw: Seq<char>, end: int) -> Seq<char> {
    decode_utf8(encode_utf8(raw).subrange(end, encode_utf8(raw).len() as int))
}

/// A line is its addressing prefix followed by its remainder: the prefix is
/// the line's first characters, as many as take `end` bytes, and the
/// remainder is the line without them. Removing the prefix removes nothing
/// else, and leaves everything else.
pub proof fn lemma_prefix_then_remainder(raw: Seq<char>, found: Option<(int, int)>)
    requires
        prefix_end(raw, found) is Some,
    ensures
        ({
            let end = prefix_end(raw, found)->0;
            let count = prefix(raw, end).len() as int;
            &&& prefix(raw, end) + remainder(raw, end) == raw
            &&& encode_utf8(prefix(raw, end)).len() == end
            &&& 0 <= count <= raw.len()
            &&& prefix(raw, end) == raw.take(count)
            &&& remainder(raw, end) == raw.skip(count)
        }),
{
    let bytes = encode_utf8(raw);
    let end = prefix_end(raw, found)->0;
    encode_utf8_valid_utf8(raw);
    encode_utf8_decode_utf8(raw);
    decode_utf8_split(bytes, end);
    valid_utf8_split(bytes, end);
    decode_utf8_encode_utf8(bytes.subrange(0, end));
    let count = prefix(raw, end).len() as int;
    assert(prefix(raw, end) =~= raw.take(count));
    assert(remainder(raw, end) =~= raw.skip(count));
}

/// Splits `raw` at the end of its addressing prefix, given the leftmost
/// match `found` of the addressing pattern in `raw`. Without a prefix the
/// line comes back unchanged and unaddressed.
pub fn strip_prefix(raw: &str, found: Option<(usize, usize)>) -> (r: (bool, String))
    ensures
        match prefix_end(raw@, found_view(found)) {
            Some(end) => r.0 && r.1@ == remainder(raw@, end) && prefix(raw@, end) + r.1@ == raw@,
            None => !r.0 && r.1@ == raw@,
        },
{
    match found {
        Some((start, end)) => {
            if start == 0 && raw.is_char_boundary(end) {
                let (_, rest) = raw.split_at(end);
                proof {
                    encode_utf8_decode_utf8(rest@);
                    lemma_prefix_then_remainder(raw@, found_view(found));
                }
                (true, rest.to_owned())
            } else {
                (false, raw.to_owned())
            }
        },
        None => (false, raw.to_owned()),
    }
}

/// Where the addressing prefix of `raw` ends, for the addressing pattern
/// with the source `addresser`: `None` unless `raw` begins with a match of
/// that pattern.
pub open spec fn addressing_end(addresser: Seq<char>, raw: Seq<char>) -> Option<int> {
    prefix_end(raw, regex_find(addresser, raw))
}

/// Whether the raw line `raw` is addressed to the bot whose addressing
/// pattern has the source `addresser`, and the text that is left of it.
pub open spec fn parsed(addresser: Seq<char>, raw: Seq<char>) -> (bool, Seq<char>) {
    match addressing_end(addresser, raw) {
        Some(end) => (true, remainder(raw, end)),
        None => (false, raw),
    }
}

/// The message that an inbound event with this text and channel becomes:
/// a missing part counts as empty, and the text is parsed for addressing.
pub open spec fn inbound(
    addresser: Seq<char>,
    text: Option<Seq<char>>,
    channel: Option<Seq<char>>,
) -> MessageView {
    let raw = match text {
        Some(t) => t,
        None => Seq::empty(),
    };
    MessageView {
        channel: match channel {
            Some(c) => c,
            None => Seq::empty(),
        },
        text: parsed(addresser, raw).1,
        is_addressed: parsed(addresser, raw).0,
    }
}

/// Why a registry could not be bound to a bot.
#[derive(Debug, PartialEq, Eq)]
pub enum ConnectError {
    /// No user carries the bot's display name, or the first that does has
    /// no id.
    BotNotFound,
    /// The addressing pattern did not compile.
    Addresser(PatternError),
}

/// A registry bound to a resolved bot identity: it turns inbound events into
/// messages and says what is to be done with each.
pub struct SlackHandler<'a, L: MessageListener> {
    event_handler: &'a Yobot<L>,
    addresser: Pattern,
}

impl<'a, L: MessageListener> SlackHandler<'a, L> {
    /// The source of the handler's addressing pattern.
    pub closed spec fn addresser(&self) -> Seq<char> {
        self.addresser@
    }

    /// The listeners that the handler dispatches to.
    pub closed spec fn registry(&self) -> Seq<L> {
        self.event_handler@
    }

    /// Binds `event_handler` to the bot with the given platform id and
    /// display name. Succeeds exactly where the bot's addressing pattern
    /// compiles.
    pub fn new(event_handler: &'a Yobot<L>, bot_id: &str, bot_name: &str) -> (r: Result<
        SlackHandler<'a, L>,
        PatternError,
    >)
        ensures
            r is Ok == regex_compiles(addresser_source(bot_id@, bot_name@)),
            r matches Ok(handler) ==> {
                &&& handler.addresser() == addresser_source(bot_id@, bot_name@)
                &&& handler.registry() == event_handler@
            },
    {
        let source = addresser_for(bot_id, bot_name);
        SlackHandler::bind(event_handler, Pattern::new(source.as_str()))
    }

    /// Pairs `event_handler` with what compiling the addressing pattern
    /// gave: a handler where it compiled, the same complaint where it did
    /// not.
    fn bind(event_handler: &'a Yobot<L>, compiled: Result<Pattern, PatternError>) -> (r: Result<
        SlackHandler<'a, L>,
        PatternError,
    >)
        ensures
            match compiled {
                Ok(addresser) => {
                    &&& r matches Ok(handler)
                    &&& handler.addresser() == addresser@
                    &&& handler.registry() == event_handler@
                },
                Err(error) => r matches Err(same) && same == error,
            },
    {
        match compiled {
            Ok(addresser) => Ok(SlackHandler::with_addresser(event_handler, addresser)),
            Err(error) => Err(error),
        }
    }

    /// Binds `event_handler` to an addressing pattern that is already
    /// compiled.
    pub fn with_addresser(event_handler: &'a Yobot<L>, addresser: Pattern) -> (r: SlackHandler<
        'a,
        L,
    >)
        ensures
            r.addresser() == addresser@,
            r.registry() == event_handler@,
    {
        SlackHandler { event_handler, addresser }
    }

    /// The registry that the handler dispatches to.
    pub fn yobot(&self) -> (r: &'a Yobot<L>)
        ensures
            r@ == self.registry(),
    {
        self.event_handler
    }

    /// Says whether `raw` is addressed to the bot, and hands back the text
    /// without the addressing prefix.
    ///
    /// A line that begins with a match of the addressing pattern is
    /// addressed, and loses exactly the matched prefix. Any other line is
    /// unaddressed and comes back unchanged.
    pub fn parse_message(&self, raw: &str) -> (r: (bool, String))
        ensures
            (r.0, r.1@) == parsed(self.addresser(), raw@),
            match addressing_end(self.addresser(), raw@) {
                Some(end) => r.0 && r.1@ == remainder(raw@, end) && prefix(raw@, end) + r.1@
                    == raw@,
                None => !r.0 && r.1@ == raw@,
            },
    {
        let found = self.addresser.find(raw);
        strip_prefix(raw, found)
    }

    /// Turns one inbound text event into a message and resolves it against
    /// the registry.
    pub fn on_event(&self, text: Option<String>, channel: Option<String>) -> (r: (
        Message,
        Dispatch,
    ))
        ensures
            r.0@ == inbound(self.addresser(), option_view(text), option_view(channel)),
            dispatches(self.registry(), r.0@, r.1@),
    {
        let text = match text {
            Some(t) => t,
            None => String::new(),
        };
        let (is_addressed, message) = self.parse_message(text.as_str());
        let channel = match channel {
            Some(c) => c,
            None => String::new(),
        };
        let message = Message { channel, is_addressed, text: message };
        let decision = self.event_handler.handle_message(&message);
        (message, decision)
    }
}

/// The text of an optional string.
pub open spec fn option_view(text: Option<String>) -> Option<Seq<char>> {
    match text {
        Some(t) => Some(t@),
        None => None,
    }
}

} // verus!
