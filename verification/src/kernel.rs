use vstd::prelude::*;
use crate::json::{json_string, quote_json};
use crate::text::{first_index_of, split_first, str_eq};

verus! {

broadcast use vstd::string::group_string_axioms;

/// Data carried by the messages between the actors.
#[derive(Debug)]
pub enum Parcel {
    Empty,
    String(String),
    Tuple1(String, String),
}

/// A parcel by its characters.
pub enum ParcelView {
    Empty,
    String(Seq<char>),
    Tuple1(Seq<char>, Seq<char>),
}

impl View for Parcel {
    type V = ParcelView;

    open spec fn view(&self) -> ParcelView {
        match self {
            Parcel::Empty => ParcelView::Empty,
            Parcel::String(s) => ParcelView::String(s@),
            Parcel::Tuple1(a, b) => ParcelView::Tuple1(a@, b@),
        }
    }
}

/// A message to an actor: a request code and its parcel.
#[derive(Debug)]
pub struct Note(pub u32, pub Parcel);

/// The answer of an actor to a `Note`.
#[derive(Debug)]
pub struct ReturnData(pub Parcel);

/// How long a client may stay silent before its connection is dropped, in nanoseconds.
pub const CLIENT_TIMEOUT_NANOS: u128 = 10_000_000_000;

/// How often the server pings its clients, in seconds.
pub const HEARTBEAT_INTERVAL_SECS: u64 = 5;

/// Whether a client whose last heartbeat is `elapsed_nanos` old has timed out.
pub fn client_timed_out(elapsed_nanos: u128) -> (r: bool)
    ensures
        r == (elapsed_nanos > CLIENT_TIMEOUT_NANOS),
{
    elapsed_nanos > CLIENT_TIMEOUT_NANOS
}

/// A character of Unicode's `White_Space` property, which `char::is_whitespace` tests.
pub open spec fn is_white_space(c: char) -> bool {
    let u = c as u32;
    ||| 0x9 <= u <= 0xd
    ||| u == 0x20
    ||| u == 0x85
    ||| u == 0xa0
    ||| u == 0x1680
    ||| 0x2000 <= u <= 0x200a
    ||| u == 0x2028
    ||| u == 0x2029
    ||| u == 0x202f
    ||| u == 0x205f
    ||| u == 0x3000
}

/// `s` without its leading white space.
pub open spec fn trim_start(s: Seq<char>) -> Seq<char>
    decreases s.len(),
{
    if s.len() > 0 && is_white_space(s[0]) {
        trim_start(s.drop_first())
    } else {
        s
    }
}

/// `s` without its trailing white space.
pub open spec fn trim_end(s: Seq<char>) -> Seq<char>
    decreases s.len(),
{
    if s.len() > 0 && is_white_space(s.last()) {
        trim_end(s.drop_last())
    } else {
        s
    }
}

/// `s` without white space at either end.
pub open spec fn trim(s: Seq<char>) -> Seq<char> {
    trim_end(trim_start(s))
}

/// `str::trim`.
///
/// Trusted: the contract states what std's documentation says of `trim`: the
/// leading and trailing characters of Unicode's `White_Space` property are
/// removed, and nothing else.
#[verifier::external_body]
fn trim_text(s: &str) -> (r: &str)
    ensures
        r@ == trim(s@),
{
    s.trim()
}

/// The actor that a websocket command goes to.
#[derive(Debug, Clone, Copy, PartialEq, Eq)]
pub enum Target {
    Chain,
    Network,
}

/// The shape of the JSON answer that a websocket command gets.
#[derive(Debug, Clone, Copy, PartialEq, Eq)]
pub enum ReplyShape {
    /// `{"did", "error", "keys"}` from the pair `(did, keys)`.
    DidKeys,
    /// `{"did", "error", "exists"}` from the pair `(exists, did)`.
    ExistsDid,
}

/// What the websocket session does with a text message.
#[derive(Debug)]
pub enum KernelCommand {
    /// Sends the note to the actor and answers the client in the given shape.
    Send(Target, Note, ReplyShape),
    /// Nothing: the message is no command.
    Ignore,
}

/// A command by its characters.
pub enum KernelCommandView {
    Send(Target, u32, ParcelView, ReplyShape),
    Ignore,
}

impl View for KernelCommand {
    type V = KernelCommandView;

    open spec fn view(&self) -> KernelCommandView {
        match self {
            KernelCommand::Send(t, n, s) => KernelCommandView::Send(*t, n.0, n.1@, *s),
            KernelCommand::Ignore => KernelCommandView::Ignore,
        }
    }
}

/// The command word of a message: the trimmed text up to its first `#`.
pub open spec fn command_word(text: Seq<char>) -> Seq<char> {
    let m = trim(text);
    m.subrange(0, first_index_of(m, '#'))
}

/// Whether the trimmed text holds a `#` after its command word.
pub open spec fn has_argument(text: Seq<char>) -> bool {
    let m = trim(text);
    first_index_of(m, '#') < m.len()
}

/// The argument of a command: the trimmed text after its first `#`.
pub open spec fn command_argument(text: Seq<char>) -> Seq<char> {
    let m = trim(text);
    m.subrange(first_index_of(m, '#') + 1, m.len() as int)
}

/// Whether the command word is one that takes an argument (`~1`, `~3`, `~4`).
pub open spec fn takes_argument(w: Seq<char>) -> bool {
    w == seq!['~', '1'] || w == seq!['~', '3'] || w == seq!['~', '4']
}

/// Whether the message is a command that takes an argument but has none;
/// reading its missing argument is out of bounds.
pub open spec fn lacks_argument(text: Seq<char>) -> bool {
    takes_argument(command_word(text)) && !has_argument(text)
}

/// The commands of the websocket protocol: `~1#doc` creates a user, `~2` an
/// app, `~3#keys` authenticates, `~4#params` inserts a record.
pub open spec fn kernel_command_spec(text: Seq<char>) -> KernelCommandView {
    let w = command_word(text);
    let arg = command_argument(text);
    if w == seq!['~', '1'] {
        KernelCommandView::Send(Target::Chain, 101, ParcelView::String(arg), ReplyShape::DidKeys)
    } else if w == seq!['~', '2'] {
        KernelCommandView::Send(Target::Chain, 102, ParcelView::Empty, ReplyShape::DidKeys)
    } else if w == seq!['~', '3'] {
        KernelCommandView::Send(Target::Chain, 103, ParcelView::String(arg), ReplyShape::ExistsDid)
    } else if w == seq!['~', '4'] {
        KernelCommandView::Send(Target::Network, 103, ParcelView::String(arg), ReplyShape::ExistsDid)
    } else {
        KernelCommandView::Ignore
    }
}

proof fn lemma_command_words()
    ensures
        "~1"@ == seq!['~', '1'],
        "~2"@ == seq!['~', '2'],
        "~3"@ == seq!['~', '3'],
        "~4"@ == seq!['~', '4'],
{
    reveal_strlit("~1");
    reveal_strlit("~2");
    reveal_strlit("~3");
    reveal_strlit("~4");
    assert("~1"@ =~= seq!['~', '1']);
    assert("~2"@ =~= seq!['~', '2']);
    assert("~3"@ =~= seq!['~', '3']);
    assert("~4"@ =~= seq!['~', '4']);
}

/// Tells whether a text message is a command that needs an argument and has
/// none (`~1`, `~3` or `~4` with no `#`); the session cannot serve it.
pub fn command_lacks_argument(text: &str) -> (b: bool)
    ensures
        b == lacks_argument(text@),
{
    let m = trim_text(text);
    let (word, rest) = split_first(m, '#');
    let w = word.as_str();
    proof {
        lemma_command_words();
    }
    let takes = str_eq(w, "~1") || str_eq(w, "~3") || str_eq(w, "~4");
    takes && rest.is_none()
}

/// Decides what a text message from a websocket client asks for.
pub fn kernel_command(text: &str) -> (r: KernelCommand)
    requires
        !lacks_argument(text@),
    ensures
        r@ == kernel_command_spec(text@),
{
    let m = trim_text(text);
    let (word, rest) = split_first(m, '#');
    let w = word.as_str();
    proof {
        lemma_command_words();
    }
    if str_eq(w, "~1") {
        KernelCommand::Send(Target::Chain, Note(101, Parcel::String(rest.unwrap())), ReplyShape::DidKeys)
    } else if str_eq(w, "~2") {
        KernelCommand::Send(Target::Chain, Note(102, Parcel::Empty), ReplyShape::DidKeys)
    } else if str_eq(w, "~3") {
        KernelCommand::Send(Target::Chain, Note(103, Parcel::String(rest.unwrap())), ReplyShape::ExistsDid)
    } else if str_eq(w, "~4") {
        KernelCommand::Send(Target::Network, Note(103, Parcel::String(rest.unwrap())), ReplyShape::ExistsDid)
    } else {
        KernelCommand::Ignore
    }
}

/// The answer sent when a command fails.
pub open spec fn error_reply_text() -> Seq<char> {
    "{\"error\":true,\"res\":\"fatal: an error has occured\"}"@
}

/// The answer to a command of the given shape, for the pair `(a, b)` that the actor returned.
pub open spec fn pair_reply_text(shape: ReplyShape, a: Seq<char>, b: Seq<char>) -> Seq<char> {
    match shape {
        ReplyShape::DidKeys => "{\"did\":"@ + json_string(a) + ",\"error\":false,\"keys\":"@ + json_string(b) + "}"@,
        ReplyShape::ExistsDid => "{\"did\":"@ + json_string(b) + ",\"error\":false,\"exists\":"@ + json_string(a) + "}"@,
    }
}

/// The answer to a command, given what the actor returned (`None` when the
/// message could not be delivered or the actor failed).
pub open spec fn kernel_reply_spec(shape: ReplyShape, reply: Option<ParcelView>) -> Seq<char> {
    match reply {
        Some(ParcelView::Tuple1(a, b)) => pair_reply_text(shape, a, b),
        _ => error_reply_text(),
    }
}

/// Writes the JSON answer for the client.
pub fn kernel_reply(shape: ReplyShape, reply: Option<ReturnData>) -> (r: String)
    ensures
        r@ == kernel_reply_spec(shape, match reply {
            Some(d) => Some(d.0@),
            None => None,
        }),
{
    proof {
        reveal_strlit("{\"error\":true,\"res\":\"fatal: an error has occured\"}");
        reveal_strlit("{\"did\":");
        reveal_strlit(",\"error\":false,\"keys\":");
        reveal_strlit(",\"error\":false,\"exists\":");
        reveal_strlit("}");
    }
    match reply {
        Some(ReturnData(Parcel::Tuple1(a, b))) => {
            let mut out = "{\"did\":".to_owned();
            match shape {
                ReplyShape::DidKeys => {
                    out.append(quote_json(a.as_str()).as_str());
                    out.append(",\"error\":false,\"keys\":");
                    out.append(quote_json(b.as_str()).as_str());
                },
                ReplyShape::ExistsDid => {
                    out.append(quote_json(b.as_str()).as_str());
                    out.append(",\"error\":false,\"exists\":");
                    out.append(quote_json(a.as_str()).as_str());
                },
            }
            out.append("}");
            out
        },
        _ => "{\"error\":true,\"res\":\"fatal: an error has occured\"}".to_owned(),
    }
}

} // verus!
