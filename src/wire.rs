use vstd::prelude::*;

use crate::resolve::{EffectiveConfig, Milli};

verus! {

/// The author of one message of a conversation.
#[derive(Debug, Clone, Copy, PartialEq, Eq)]
pub enum Role {
    System,
    User,
    Assistant,
}

/// One message of a conversation.
#[derive(Debug, Clone)]
pub struct Message {
    pub role: Role,
    pub content: String,
}

pub open spec fn role_name(r: Role) -> Seq<char> {
    match r {
        Role::System => "system"@,
        Role::User => "user"@,
        Role::Assistant => "assistant"@,
    }
}

impl Role {
    /// The role as the API writes it.
    pub fn name(&self) -> (r: &'static str)
        ensures
            r@ == role_name(*self),
    {
        match self {
            Role::System => "system",
            Role::User => "user",
            Role::Assistant => "assistant",
        }
    }
}

/// Appends a message with the given role and text.
pub fn put_message(messages: &mut Vec<Message>, role: Role, content: &str)
    ensures
        final(messages)@.len() == old(messages)@.len() + 1,
        final(messages)@.subrange(0, old(messages)@.len() as int) == old(messages)@,
        final(messages)@.last().role == role,
        final(messages)@.last().content@ == content@,
{
    messages.push(Message { role, content: String::from_str(content) });
    assert(final(messages)@.subrange(0, old(messages)@.len() as int) =~= old(messages)@);
}

/// The text of one decimal digit.
pub open spec fn digit_text(d: nat) -> Seq<char> {
    if d == 0 {
        "0"@
    } else if d == 1 {
        "1"@
    } else if d == 2 {
        "2"@
    } else if d == 3 {
        "3"@
    } else if d == 4 {
        "4"@
    } else if d == 5 {
        "5"@
    } else if d == 6 {
        "6"@
    } else if d == 7 {
        "7"@
    } else if d == 8 {
        "8"@
    } else {
        "9"@
    }
}

/// `n` in decimal, without leading zeros.
pub open spec fn decimal(n: nat) -> Seq<char>
    decreases n,
{
    if n < 10 {
        digit_text(n)
    } else {
        decimal(n / 10) + digit_text(n % 10)
    }
}

/// The fractional digits of `f` thousandths, trailing zeros dropped but at
/// least one digit kept.
pub open spec fn fraction_text(f: nat) -> Seq<char> {
    if f % 10 != 0 {
        digit_text(f / 100) + digit_text((f / 10) % 10) + digit_text(f % 10)
    } else if f % 100 != 0 {
        digit_text(f / 100) + digit_text((f / 10) % 10)
    } else {
        digit_text(f / 100)
    }
}

/// A `Milli` as a JSON number: `1.0`, `0.25`, `0.125`.
pub open spec fn milli_text(m: Milli) -> Seq<char> {
    decimal(m.thousandths as nat / 1000) + "."@ + fraction_text(m.thousandths as nat % 1000)
}

/// A lowercase hexadecimal digit.
pub open spec fn hex_digit(d: nat) -> char {
    "0123456789abcdef"@[d as int]
}

/// How serde_json writes one character inside a string literal: `"` and `\`
/// behind a backslash, the short escapes for backspace, tab, line feed, form
/// feed and carriage return, `\u00XX` for the other control characters below
/// 0x20, and every other character as it is.
pub open spec fn escaped_char(c: char) -> Seq<char> {
    if c == '"' {
        seq!['\\', '"']
    } else if c == '\\' {
        seq!['\\', '\\']
    } else if c == '\u{8}' {
        seq!['\\', 'b']
    } else if c == '\t' {
        seq!['\\', 't']
    } else if c == '\n' {
        seq!['\\', 'n']
    } else if c == '\u{c}' {
        seq!['\\', 'f']
    } else if c == '\r' {
        seq!['\\', 'r']
    } else if (c as u32) < 0x20 {
        seq!['\\', 'u', '0', '0', hex_digit((c as u32 / 16) as nat), hex_digit((c as u32 % 16) as nat)]
    } else {
        seq![c]
    }
}

/// The characters of `s`, each escaped.
pub open spec fn escaped(s: Seq<char>) -> Seq<char>
    decreases s.len(),
{
    if s.len() == 0 {
        Seq::empty()
    } else {
        escaped(s.drop_last()) + escaped_char(s.last())
    }
}

/// What serde_json writes for a string: the escaped characters between
/// double quotes.
pub open spec fn json_quoted(s: Seq<char>) -> Seq<char> {
    seq!['"'] + escaped(s) + seq!['"']
}

/// Relies on serde_json::to_string on a `str`: it writes the string between
/// double quotes, escaped by serde_json's escape table, and cannot fail for a
/// `str`.
#[verifier::external_body]
fn quote_json(s: &str) -> (r: String)
    ensures
        r@ == json_quoted(s@),
{
    serde_json::to_string(s).unwrap_or_default()
}

fn digit_str(d: u64) -> (r: &'static str)
    requires
        d < 10,
    ensures
        r@ == digit_text(d as nat),
{
    if d == 0 {
        "0"
    } else if d == 1 {
        "1"
    } else if d == 2 {
        "2"
    } else if d == 3 {
        "3"
    } else if d == 4 {
        "4"
    } else if d == 5 {
        "5"
    } else if d == 6 {
        "6"
    } else if d == 7 {
        "7"
    } else if d == 8 {
        "8"
    } else {
        "9"
    }
}

/// Appends `n` in decimal.
pub fn write_decimal(out: &mut String, n: u64)
    ensures
        final(out)@ == old(out)@ + decimal(n as nat),
    decreases n,
{
    if n < 10 {
        out.append(digit_str(n));
    } else {
        write_decimal(out, n / 10);
        out.append(digit_str(n % 10));
        assert(final(out)@ =~= old(out)@ + decimal(n as nat));
    }
}

/// Appends `m` as a JSON number.
pub fn write_milli(out: &mut String, m: Milli)
    ensures
        final(out)@ == old(out)@ + milli_text(m),
{
    let t = m.thousandths as u64;
    write_decimal(out, t / 1000);
    out.append(".");
    let f = t % 1000;
    out.append(digit_str(f / 100));
    if f % 100 != 0 {
        out.append(digit_str((f / 10) % 10));
        if f % 10 != 0 {
            out.append(digit_str(f % 10));
        }
    }
    assert(final(out)@ =~= old(out)@ + milli_text(m));
}

/// One message as a JSON object.
pub open spec fn message_json(m: Message) -> Seq<char> {
    "{\"role\":\""@ + role_name(m.role) + "\",\"content\":"@ + json_quoted(m.content@) + "}"@
}

/// The messages as the items of a JSON array, comma separated.
pub open spec fn messages_json(ms: Seq<Message>) -> Seq<char>
    decreases ms.len(),
{
    if ms.len() == 0 {
        Seq::empty()
    } else if ms.len() == 1 {
        message_json(ms[0])
    } else {
        messages_json(ms.drop_last()) + ","@ + message_json(ms.last())
    }
}

/// The body of a chat-completion request with the sampling settings of `c`.
pub open spec fn chat_body(c: EffectiveConfig, ms: Seq<Message>) -> Seq<char> {
    "{\"model\":"@ + json_quoted(c.model@) + ",\"max_tokens\":"@ + decimal(c.max_tokens as nat)
        + ",\"messages\":["@ + messages_json(ms) + "],\"n\":"@ + decimal(c.sample_count as nat)
        + ",\"temperature\":"@ + milli_text(c.temperature) + ",\"top_p\":"@ + milli_text(c.top_p)
        + "}"@
}

/// Appends one message as a JSON object.
pub fn write_message(out: &mut String, m: &Message)
    ensures
        final(out)@ == old(out)@ + message_json(*m),
{
    out.append("{\"role\":\"");
    out.append(m.role.name());
    out.append("\",\"content\":");
    let q = quote_json(m.content.as_str());
    out.append(q.as_str());
    out.append("}");
    assert(final(out)@ =~= old(out)@ + message_json(*m));
}

proof fn messages_json_step(ms: Seq<Message>, i: int)
    requires
        1 <= i < ms.len(),
    ensures
        messages_json(ms.subrange(0, i + 1)) == messages_json(ms.subrange(0, i)) + ","@
            + message_json(ms[i]),
{
    let s = ms.subrange(0, i + 1);
    assert(s.drop_last() =~= ms.subrange(0, i));
}

/// Appends the messages as the items of a JSON array.
pub fn write_messages(out: &mut String, ms: &Vec<Message>)
    ensures
        final(out)@ == old(out)@ + messages_json(ms@),
{
    let ghost start = out@;
    let mut i: usize = 0;
    while i < ms.len()
        invariant
            i <= ms@.len(),
            out@ == start + messages_json(ms@.subrange(0, i as int)),
        decreases ms@.len() - i,
    {
        if i > 0 {
            out.append(",");
            proof {
                messages_json_step(ms@, i as int);
            }
        } else {
            assert(ms@.subrange(0, 1).drop_last() =~= Seq::<Message>::empty());
        }
        write_message(out, &ms[i]);
        i = i + 1;
        assert(out@ =~= start + messages_json(ms@.subrange(0, i as int)));
    }
    assert(ms@.subrange(0, ms@.len() as int) =~= ms@);
}

/// The JSON body of a chat-completion request: the model, the token limit,
/// every message in order, the sample count, the temperature and top-p.
pub fn build_chat_body(c: &EffectiveConfig, ms: &Vec<Message>) -> (r: String)
    ensures
        r@ == chat_body(*c, ms@),
{
    let mut out = String::new();
    out.append("{\"model\":");
    let q = quote_json(c.model.as_str());
    out.append(q.as_str());
    out.append(",\"max_tokens\":");
    write_decimal(&mut out, c.max_tokens as u64);
    out.append(",\"messages\":[");
    write_messages(&mut out, ms);
    out.append("],\"n\":");
    write_decimal(&mut out, c.sample_count as u64);
    out.append(",\"temperature\":");
    write_milli(&mut out, c.temperature);
    out.append(",\"top_p\":");
    write_milli(&mut out, c.top_p);
    out.append("}");
    assert(out@ =~= chat_body(*c, ms@));
    out
}

/// The body for a single prompt: one user message holding `text`.
pub fn build_prompt_body(c: &EffectiveConfig, text: &str) -> (r: String)
    ensures
        exists|m: Message|
            m.role == Role::User && m.content@ == text@ && r@ == chat_body(*c, seq![m]),
{
    let mut ms: Vec<Message> = Vec::new();
    put_message(&mut ms, Role::User, text);
    let r = build_chat_body(c, &ms);
    assert(ms@ =~= seq![ms@[0]]);
    r
}

/// The URL of the chat-completion call under `endpoint`.
pub fn completions_url(endpoint: &str) -> (r: String)
    ensures
        r@ == endpoint@ + "/v1/chat/completions"@,
{
    let mut r = String::from_str(endpoint);
    r.append("/v1/chat/completions");
    r
}

/// The value of the authorization header for `token`.
pub fn bearer(token: &str) -> (r: String)
    ensures
        r@ == "Bearer "@ + token@,
{
    let mut r = String::from_str("Bearer ");
    r.append(token);
    r
}

} // verus!
