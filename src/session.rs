use vstd::prelude::*;

use crate::config::{trim, trim_end, trim_start, trimmed};
use crate::output::{join_completions, joined, texts_of};
use crate::resolve::EffectiveConfig;
use crate::wire::{build_chat_body, chat_body, put_message, Message, Role};

verus! {

/// Where a conversation stands.
#[derive(Debug, Clone, Copy, PartialEq, Eq)]
pub enum SessionState {
    /// Waiting for the user's next line.
    AwaitingInput,
    /// A user message was added; its request is outstanding.
    Requesting,
    /// The user ended the conversation.
    Done,
}

/// What the caller does after a line of input.
#[derive(Debug, Clone)]
pub enum Step {
    /// End the conversation; no request is made.
    Quit,
    /// Send this request body.
    Send(String),
}

/// A multi-turn conversation: the history sent with each request and the
/// state of the exchange.
pub struct Session {
    pub history: Vec<Message>,
    pub state: SessionState,
    /// The history starts with a system message.
    pub seeded: bool,
    /// The text of the system message.
    pub instructions: Ghost<Seq<char>>,
    /// The texts of the user and assistant messages, in the order they came.
    pub transcript: Ghost<Seq<Seq<char>>>,
    /// Completed question-and-answer turns.
    pub turns: Ghost<nat>,
}

/// A line that ends the conversation.
pub open spec fn is_quit(line: Seq<char>) -> bool {
    line == "quit"@ || line == "q"@
}

/// The role of the `k`-th message after the system message: questions and
/// answers alternate, starting with a question.
pub open spec fn turn_role(k: int) -> Role {
    if k % 2 == 0 {
        Role::User
    } else {
        Role::Assistant
    }
}

pub open spec fn offset_of(seeded: bool) -> int {
    if seeded {
        1
    } else {
        0
    }
}

/// The `k`-th message after the system message.
pub open spec fn entry(h: Seq<Message>, seeded: bool, k: int) -> Message {
    h[offset_of(seeded) + k]
}

/// `h` is the system message with `instructions` when `seeded`, followed by
/// one message per text of `transcript`, in order, questions and answers
/// alternating.
pub open spec fn shaped(
    h: Seq<Message>,
    seeded: bool,
    instructions: Seq<char>,
    transcript: Seq<Seq<char>>,
) -> bool {
    &&& h.len() == offset_of(seeded) + transcript.len()
    &&& seeded ==> h[0].role == Role::System && h[0].content@ == instructions
    &&& forall|k: int|
        0 <= k < transcript.len() ==> #[trigger] entry(h, seeded, k).role == turn_role(k)
            && entry(h, seeded, k).content@ == transcript[k]
}

/// Appending the next message of the alternation keeps a history shaped.
proof fn shaped_push(
    old_h: Seq<Message>,
    h: Seq<Message>,
    seeded: bool,
    instructions: Seq<char>,
    transcript: Seq<Seq<char>>,
    text: Seq<char>,
)
    requires
        shaped(old_h, seeded, instructions, transcript),
        h.len() == old_h.len() + 1,
        h.subrange(0, old_h.len() as int) == old_h,
        h.last().role == turn_role(transcript.len() as int),
        h.last().content@ == text,
    ensures
        shaped(h, seeded, instructions, transcript.push(text)),
{
    let t = transcript.push(text);
    assert forall|k: int| 0 <= k < t.len() implies #[trigger] entry(h, seeded, k).role
        == turn_role(k) && entry(h, seeded, k).content@ == t[k] by {
        if k < transcript.len() {
            assert(h[offset_of(seeded) + k] == old_h[offset_of(seeded) + k]);
            assert(entry(old_h, seeded, k).role == turn_role(k));
        }
    }
    if seeded {
        assert(h[0] == old_h[0]);
    }
}

/// Whether an input line, already trimmed, ends the conversation; the
/// comparison is case-sensitive.
pub fn is_termination(trimmed_line: &str) -> (r: bool)
    ensures
        r == is_quit(trimmed_line@),
{
    let t = String::from_str(trimmed_line);
    t == String::from_str("quit") || t == String::from_str("q")
}

impl Session {
    /// The history holds the optional system message, then the questions and
    /// answers of the transcript, one user and one assistant message per
    /// completed turn, then the pending question while a request is
    /// outstanding.
    pub open spec fn well_formed(&self) -> bool {
        &&& shaped(self.history@, self.seeded, self.instructions@, self.transcript@)
        &&& self.transcript@.len() == 2 * self.turns@ + (if self.state is Requesting {
            1int
        } else {
            0
        })
    }

    /// A new conversation; the history holds one system message with the
    /// instructions if there are any, and is empty otherwise.
    pub fn start(instructions: Option<&str>) -> (r: Session)
        ensures
            r.well_formed(),
            r.state is AwaitingInput,
            r.turns@ == 0,
            r.transcript@.len() == 0,
            r.seeded == instructions is Some,
            instructions matches Some(t) ==> r.history@.len() == 1 && r.instructions@ == t@,
            instructions is None ==> r.history@.len() == 0,
    {
        let mut history: Vec<Message> = Vec::new();
        let ghost text = Seq::<char>::empty();
        let seeded = match instructions {
            Some(t) => {
                put_message(&mut history, Role::System, t);
                proof {
                    text = t@;
                }
                true
            },
            None => false,
        };
        Session {
            history,
            state: SessionState::AwaitingInput,
            seeded,
            instructions: Ghost(text),
            transcript: Ghost(Seq::empty()),
            turns: Ghost(0),
        }
    }

    /// Takes one line of input. A line that is a quit word once trimmed ends
    /// the conversation with no request; any other line is added as a user
    /// message and yields the body of a request that carries the whole
    /// history.
    pub fn on_input(&mut self, line: &str, c: &EffectiveConfig) -> (r: Step)
        requires
            old(self).well_formed(),
            old(self).state is AwaitingInput,
        ensures
            final(self).well_formed(),
            final(self).seeded == old(self).seeded,
            final(self).instructions == old(self).instructions,
            final(self).turns == old(self).turns,
            is_quit(trimmed(line@)) ==> {
                &&& r is Quit
                &&& final(self).state is Done
                &&& final(self).history@ == old(self).history@
                &&& final(self).transcript == old(self).transcript
            },
            !is_quit(trimmed(line@)) ==> {
                &&& final(self).state is Requesting
                &&& final(self).transcript@ == old(self).transcript@.push(line@)
                &&& final(self).history@.len() == old(self).history@.len() + 1
                &&& final(self).history@.subrange(0, old(self).history@.len() as int)
                    == old(self).history@
                &&& final(self).history@.last().role == Role::User
                &&& final(self).history@.last().content@ == line@
                &&& r matches Step::Send(b) && b@ == chat_body(*c, final(self).history@)
            },
    {
        let t = trim(line);
        if is_termination(t.as_str()) {
            self.state = SessionState::Done;
            return Step::Quit;
        }
        let ghost old_h = self.history@;
        put_message(&mut self.history, Role::User, line);
        proof {
            shaped_push(old_h, self.history@, self.seeded, self.instructions@, self.transcript@, line@);
            self.transcript@ = self.transcript@.push(line@);
        }
        self.state = SessionState::Requesting;
        Step::Send(build_chat_body(c, &self.history))
    }

    /// Takes the completions of the outstanding request: their joined text is
    /// returned and added to the history as the assistant's message.
    pub fn on_reply(&mut self, texts: &Vec<String>) -> (r: String)
        requires
            old(self).well_formed(),
            old(self).state is Requesting,
        ensures
            r@ == joined(texts_of(texts@)),
            final(self).well_formed(),
            final(self).state is AwaitingInput,
            final(self).seeded == old(self).seeded,
            final(self).instructions == old(self).instructions,
            final(self).turns@ == old(self).turns@ + 1,
            final(self).transcript@ == old(self).transcript@.push(r@),
            final(self).history@.len() == old(self).history@.len() + 1,
            final(self).history@.subrange(0, old(self).history@.len() as int)
                == old(self).history@,
            final(self).history@.last().role == Role::Assistant,
            final(self).history@.last().content@ == r@,
    {
        let out = join_completions(texts);
        let ghost old_h = self.history@;
        put_message(&mut self.history, Role::Assistant, out.as_str());
        proof {
            shaped_push(old_h, self.history@, self.seeded, self.instructions@, self.transcript@, out@);
            self.transcript@ = self.transcript@.push(out@);
        }
        self.state = SessionState::AwaitingInput;
        self.turns = Ghost(self.turns@ + 1);
        out
    }
}

/// After `n` completed turns of a conversation seeded with a system message,
/// the history holds `1 + 2n` messages: the system message first and only
/// there, then the questions and answers of the transcript in order, user
/// and assistant alternating.
pub proof fn history_after_turns(s: Session)
    requires
        s.well_formed(),
        s.seeded,
        !(s.state is Requesting),
    ensures
        s.history@.len() == 1 + 2 * s.turns@,
        s.history@[0].role == Role::System,
        s.history@[0].content@ == s.instructions@,
        forall|i: int|
            1 <= i < s.history@.len() ==> (#[trigger] s.history@[i]).role == if i % 2 == 1 {
                Role::User
            } else {
                Role::Assistant
            } && s.history@[i].content@ == s.transcript@[i - 1],
{
    let h = s.history@;
    assert forall|i: int| 1 <= i < h.len() implies (#[trigger] h[i]).role == if i % 2 == 1 {
        Role::User
    } else {
        Role::Assistant
    } && h[i].content@ == s.transcript@[i - 1] by {
        assert(entry(h, true, i - 1) == h[i]);
    }
}

/// The quit words are left as they are by trimming, so a line that is
/// exactly `quit` or `q` ends a conversation.
pub proof fn quit_words_trim_to_themselves()
    ensures
        trimmed("quit"@) == "quit"@,
        trimmed("q"@) == "q"@,
        is_quit(trimmed("quit"@)),
        is_quit(trimmed("q"@)),
{
    reveal_strlit("quit");
    reveal_strlit("q");
    assert(trim_start("quit"@) == "quit"@);
    assert(trim_end("quit"@) == "quit"@);
    assert(trim_start("q"@) == "q"@);
    assert(trim_end("q"@) == "q"@);
}

/// Histories only grow: a session whose transcript extends another's, with
/// the same system message, holds every message of the other, in the same
/// place, with the same role and text.
pub proof fn earlier_history_is_prefix(s1: Session, s2: Session)
    requires
        s1.well_formed(),
        s2.well_formed(),
        s1.seeded == s2.seeded,
        s1.instructions == s2.instructions,
        s1.transcript@.len() <= s2.transcript@.len(),
        s1.transcript@ == s2.transcript@.subrange(0, s1.transcript@.len() as int),
    ensures
        s1.history@.len() <= s2.history@.len(),
        forall|i: int|
            0 <= i < s1.history@.len() ==> (#[trigger] s1.history@[i]).role == s2.history@[i].role
                && s1.history@[i].content@ == s2.history@[i].content@,
{
    let (h1, h2) = (s1.history@, s2.history@);
    assert forall|i: int| 0 <= i < h1.len() implies (#[trigger] h1[i]).role == h2[i].role
        && h1[i].content@ == h2[i].content@ by {
        if !(s1.seeded && i == 0) {
            let k = i - offset_of(s1.seeded);
            assert(entry(h1, s1.seeded, k) == h1[i]);
            assert(entry(h2, s2.seeded, k) == h2[i]);
            assert(s1.transcript@[k] == s2.transcript@[k]);
        }
    }
}

} // verus!
