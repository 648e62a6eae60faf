//! One conversation with the clock service: connect, write a line, read the
//! one-line reply, and say how it ended.
use vstd::prelude::*;
use vstd::utf8::{
    decode_utf8, encode_utf8, encode_utf8_decode_utf8, encode_utf8_valid_utf8, valid_utf8,
};

use crate::text::{
    all_white, law_trim_ignores_white_space, law_trim_keeps_the_rest, law_trim_strips_white_space,
    lossy_text, strips, trim, trimmed, utf8_lossy, white_space,
};

verus! {

/// Read cap on the reply: the service answers `ok` or a short `error: ...`
/// line.
pub const REPLY_CAP: usize = 256;

/// What a conversation waits for.
#[derive(Clone, Copy, PartialEq, Eq, Structural, Debug)]
pub enum Stage {
    Connecting,
    Writing,
    Reading,
    Over,
}

/// A conversation with the clock service at `host`:`port`.
#[derive(Debug)]
pub struct Exchange {
    host: String,
    port: u16,
    line: String,
    restarts: bool,
    stage: Stage,
}

pub ghost struct ExchangeView {
    pub host: Seq<char>,
    pub port: u16,
    pub line: Seq<char>,
    pub restarts: bool,
    pub stage: Stage,
}

/// How a conversation ended.
#[derive(Debug)]
pub enum Outcome {
    /// It broke down or the service refused; the text is for the operator.
    Failed(String),
    /// The clock is set and the machine stays up.
    ClockSet,
    /// The clock is set and the machine restarts.
    Restart,
}

pub ghost enum OutcomeView {
    Failed(Seq<char>),
    ClockSet,
    Restart,
}

/// What to do on the socket next.
#[derive(Debug)]
pub enum Next {
    /// Write all of these bytes.
    Write(Vec<u8>),
    /// Read until the peer closes or this many bytes are there.
    Read(usize),
    /// Nothing: the conversation is over.
    Finished(Outcome),
}

pub ghost enum NextView {
    Write(Seq<u8>),
    Read(nat),
    Finished(OutcomeView),
}

impl View for Exchange {
    type V = ExchangeView;

    closed spec fn view(&self) -> ExchangeView {
        ExchangeView {
            host: self.host@,
            port: self.port,
            line: self.line@,
            restarts: self.restarts,
            stage: self.stage,
        }
    }
}

impl View for Outcome {
    type V = OutcomeView;

    open spec fn view(&self) -> OutcomeView {
        match *self {
            Outcome::Failed(why) => OutcomeView::Failed(why@),
            Outcome::ClockSet => OutcomeView::ClockSet,
            Outcome::Restart => OutcomeView::Restart,
        }
    }
}

impl View for Next {
    type V = NextView;

    open spec fn view(&self) -> NextView {
        match *self {
            Next::Write(bytes) => NextView::Write(bytes@),
            Next::Read(cap) => NextView::Read(cap as nat),
            Next::Finished(outcome) => NextView::Finished(outcome@),
        }
    }
}

impl ExchangeView {
    /// The same conversation at another stage.
    pub open spec fn at(self, stage: Stage) -> ExchangeView {
        ExchangeView { stage, ..self }
    }
}

/// The end of a conversation that was answered with `text`: `ok`, with or
/// without white space around it, is success; whatever else is there is the
/// reason it failed.
pub open spec fn verdict(text: Seq<char>, restarts: bool) -> OutcomeView {
    if trimmed(text) == "ok"@ {
        if restarts {
            OutcomeView::Restart
        } else {
            OutcomeView::ClockSet
        }
    } else {
        OutcomeView::Failed("Could not set the clock: "@ + trimmed(text))
    }
}

/// The reason a step failed for, if it did.
pub open spec fn reason(result: Result<(), String>) -> Option<Seq<char>> {
    match result {
        Ok(_) => None,
        Err(why) => Some(why@),
    }
}

/// The conversation behind the connection attempt, and what to do next.
pub open spec fn connect_step(x: ExchangeView, why: Option<Seq<char>>) -> (ExchangeView, NextView) {
    match why {
        None => (x.at(Stage::Writing), NextView::Write(encode_utf8(x.line))),
        Some(why) => (
            x.at(Stage::Over),
            NextView::Finished(OutcomeView::Failed("Could not reach the clock service: "@ + why)),
        ),
    }
}

/// The conversation behind the write, and what to do next.
pub open spec fn write_step(x: ExchangeView, why: Option<Seq<char>>) -> (ExchangeView, NextView) {
    match why {
        None => (x.at(Stage::Reading), NextView::Read(REPLY_CAP as nat)),
        Some(why) => (
            x.at(Stage::Over),
            NextView::Finished(OutcomeView::Failed("Could not send the time: "@ + why)),
        ),
    }
}

/// The conversation behind the read, and how it ended. `reply` is the text that
/// came back, or the reason that none did.
pub open spec fn reply_step(x: ExchangeView, reply: Result<Seq<char>, Seq<char>>) -> (
    ExchangeView,
    OutcomeView,
) {
    match reply {
        Ok(text) => (x.at(Stage::Over), verdict(text, x.restarts)),
        Err(why) => (
            x.at(Stage::Over),
            OutcomeView::Failed("No reply from the clock service: "@ + why),
        ),
    }
}

fn failed(what: &str, why: &str) -> (r: Outcome)
    ensures
        r@ == OutcomeView::Failed(what@ + why@),
{
    let mut message = what.to_owned();
    message.append(why);
    Outcome::Failed(message)
}

/// Opens a conversation that sends `want` as one line. The first thing to do is
/// to connect to `host`:`port`.
pub fn send(host: &str, port: u16, want: &str, restarts: bool) -> (r: Exchange)
    ensures
        r@ == (ExchangeView {
            host: host@,
            port,
            line: want@ + "\n"@,
            restarts,
            stage: Stage::Connecting,
        }),
{
    let mut line = want.to_owned();
    line.append("\n");
    Exchange { host: host.to_owned(), port, line, restarts, stage: Stage::Connecting }
}

/// What a reply means, read as text.
pub fn judge(text: &str, restarts: bool) -> (r: Outcome)
    ensures
        r@ == verdict(text@, restarts),
{
    let reply = trim(text);
    if reply == "ok".to_owned() {
        if restarts {
            Outcome::Restart
        } else {
            Outcome::ClockSet
        }
    } else {
        failed("Could not set the clock: ", reply.as_str())
    }
}

impl Exchange {
    /// The host to connect to.
    pub fn host(&self) -> (r: &str)
        ensures
            r@ == self@.host,
    {
        self.host.as_str()
    }

    /// The port to connect to.
    pub fn port(&self) -> (r: u16)
        ensures
            r == self@.port,
    {
        self.port
    }

    /// The line to send, with its newline.
    pub fn line(&self) -> (r: &str)
        ensures
            r@ == self@.line,
    {
        self.line.as_str()
    }

    /// Whether success means a restart of the machine.
    pub fn restarts(&self) -> (r: bool)
        ensures
            r == self@.restarts,
    {
        self.restarts
    }

    /// What the conversation waits for.
    pub fn stage(&self) -> (r: Stage)
        ensures
            r == self@.stage,
    {
        self.stage
    }

    /// The connection attempt is over; `Err` holds the reason it failed.
    pub fn connected(&mut self, result: Result<(), String>) -> (r: Next)
        requires
            old(self)@.stage == Stage::Connecting,
        ensures
            (final(self)@, r@) == connect_step(old(self)@, reason(result)),
    {
        match result {
            Ok(_) => {
                self.stage = Stage::Writing;
                Next::Write(self.line.as_str().as_bytes_vec())
            },
            Err(why) => {
                self.stage = Stage::Over;
                Next::Finished(failed("Could not reach the clock service: ", why.as_str()))
            },
        }
    }

    /// The line is written; `Err` holds the reason it could not be.
    pub fn written(&mut self, result: Result<(), String>) -> (r: Next)
        requires
            old(self)@.stage == Stage::Writing,
        ensures
            (final(self)@, r@) == write_step(old(self)@, reason(result)),
    {
        match result {
            Ok(_) => {
                self.stage = Stage::Reading;
                Next::Read(REPLY_CAP)
            },
            Err(why) => {
                self.stage = Stage::Over;
                Next::Finished(failed("Could not send the time: ", why.as_str()))
            },
        }
    }

    /// The read is over: the first `n` bytes of the buffer are the reply, or
    /// `Err` holds the reason there is none. Bytes that are not UTF-8 are read
    /// with replacement characters, and never mean success.
    pub fn replied(&mut self, result: Result<(&[u8], usize), String>) -> (r: Outcome)
        requires
            old(self)@.stage == Stage::Reading,
            result matches Ok((buf, n)) ==> n <= buf@.len(),
        ensures
            result matches Ok((buf, n)) ==> (final(self)@, r@) == reply_step(
                old(self)@,
                Ok(lossy_text(buf@.subrange(0, n as int))),
            ),
            result matches Ok((buf, n)) ==> valid_utf8(buf@.subrange(0, n as int)) ==> (
            final(self)@, r@) == reply_step(
                old(self)@,
                Ok(decode_utf8(buf@.subrange(0, n as int))),
            ),
            result matches Ok((buf, n)) ==> !valid_utf8(buf@.subrange(0, n as int)) ==> r is Failed,
            result matches Err(why) ==> (final(self)@, r@) == reply_step(old(self)@, Err(why@)),
    {
        self.stage = Stage::Over;
        match result {
            Ok((buf, n)) => {
                let text = utf8_lossy(vstd::slice::slice_subrange(buf, 0, n));
                proof {
                    if text@.contains('\u{fffd}') {
                        law_garbled_reply_fails(text@, self.restarts);
                    }
                }
                judge(text.as_str(), self.restarts)
            },
            Err(why) => failed("No reply from the clock service: ", why.as_str()),
        }
    }
}

/// A conversation in which every step works writes its line, reads one reply,
/// and ends as that reply says.
pub proof fn law_conversation(x: ExchangeView, text: Seq<char>)
    requires
        x.stage == Stage::Connecting,
    ensures
        ({
            let (x1, n1) = connect_step(x, None);
            let (x2, n2) = write_step(x1, None);
            let (x3, end) = reply_step(x2, Ok(text));
            &&& x1.stage == Stage::Writing
            &&& n1 is Write
            &&& valid_utf8(n1->Write_0)
            &&& decode_utf8(n1->Write_0) == x.line
            &&& x2.stage == Stage::Reading
            &&& n2 == NextView::Read(256)
            &&& x3 == x.at(Stage::Over)
            &&& end == verdict(text, x.restarts)
        }),
{
    encode_utf8_valid_utf8(x.line);
    encode_utf8_decode_utf8(x.line);
}

/// Any step that fails ends the conversation there, with the reason it failed
/// for at the end of what the operator is told.
pub proof fn law_failure_ends_it(x: ExchangeView, why: Seq<char>)
    ensures
        connect_step(x, Some(why)).0 == x.at(Stage::Over),
        write_step(x, Some(why)).0 == x.at(Stage::Over),
        reply_step(x, Err(why)).0 == x.at(Stage::Over),
        connect_step(x, Some(why)).1 matches NextView::Finished(OutcomeView::Failed(told))
            && why.is_suffix_of(told),
        write_step(x, Some(why)).1 matches NextView::Finished(OutcomeView::Failed(told))
            && why.is_suffix_of(told),
        reply_step(x, Err(why)).1 matches OutcomeView::Failed(told) && why.is_suffix_of(told),
{
    lemma_suffix("Could not reach the clock service: "@, why);
    lemma_suffix("Could not send the time: "@, why);
    lemma_suffix("No reply from the clock service: "@, why);
}

proof fn lemma_suffix(a: Seq<char>, b: Seq<char>)
    ensures
        b.is_suffix_of(a + b),
{
    assert((a + b).subrange(a.len() as int, (a + b).len() as int) =~= b);
}

/// A conversation succeeds exactly on the replies that are `ok` with nothing
/// but white space around it.
pub proof fn law_success_is_ok(text: Seq<char>, restarts: bool)
    ensures
        !(verdict(text, restarts) is Failed) <==> exists|before: Seq<char>, after: Seq<char>|
            all_white(before) && all_white(after) && text == #[trigger] (before + "ok"@ + after),
{
    reveal_strlit("ok");
    if trimmed(text) == "ok"@ {
        law_trim_strips_white_space(text);
        let (i, j) = choose|i: int, j: int| #[trigger] strips(text, i, j);
        let before = text.subrange(0, i);
        let after = text.subrange(j, text.len() as int);
        assert(text =~= before + "ok"@ + after);
    }
    if exists|before: Seq<char>, after: Seq<char>|
        all_white(before) && all_white(after) && text == #[trigger] (before + "ok"@ + after) {
        let (before, after) = choose|before: Seq<char>, after: Seq<char>|
            all_white(before) && all_white(after) && text == #[trigger] (before + "ok"@ + after);
        law_trim_ignores_white_space(before, "ok"@, after);
        assert(trimmed("ok"@) == "ok"@);
    }
}

/// A reply that is not success is passed on to the operator as it came, but for the
/// white space around it: behind the words for it stands what is left of the reply
/// between two runs of white space.
pub proof fn law_refusal_is_passed_on(text: Seq<char>, restarts: bool)
    requires
        verdict(text, restarts) is Failed,
    ensures
        exists|i: int, j: int|
            0 <= i <= j <= text.len() && verdict(text, restarts) == OutcomeView::Failed(
                "Could not set the clock: "@ + #[trigger] text.subrange(i, j),
            ) && all_white(text.subrange(0, i)) && all_white(text.subrange(j, text.len() as int))
                && (i < j ==> !white_space(text[i]) && !white_space(text[j - 1])),
{
    law_trim_strips_white_space(text);
    let (i, j) = choose|i: int, j: int| #[trigger] strips(text, i, j);
    assert(all_white(text.subrange(0, i)));
    assert(all_white(text.subrange(j, text.len() as int)));
    assert(verdict(text, restarts) == OutcomeView::Failed(
        "Could not set the clock: "@ + text.subrange(i, j),
    ));
}

/// What the operator is told of a step that failed: which one, and why.
pub proof fn law_failure_is_told(x: ExchangeView, why: Seq<char>)
    ensures
        connect_step(x, Some(why)).1 == NextView::Finished(
            OutcomeView::Failed("Could not reach the clock service: "@ + why),
        ),
        write_step(x, Some(why)).1 == NextView::Finished(
            OutcomeView::Failed("Could not send the time: "@ + why),
        ),
        reply_step(x, Err(why)).1 == OutcomeView::Failed(
            "No reply from the clock service: "@ + why,
        ),
{
}

/// From stage to stage a conversation changes nothing but the stage, whatever it is
/// and however the step ends.
pub proof fn law_only_the_stage_changes(
    x: ExchangeView,
    why: Option<Seq<char>>,
    reply: Result<Seq<char>, Seq<char>>,
)
    ensures
        connect_step(x, why).0 == (ExchangeView {
            stage: if why is None {
                Stage::Writing
            } else {
                Stage::Over
            },
            ..x
        }),
        write_step(x, why).0 == (ExchangeView {
            stage: if why is None {
                Stage::Reading
            } else {
                Stage::Over
            },
            ..x
        }),
        reply_step(x, reply).0 == (ExchangeView { stage: Stage::Over, ..x }),
{
}

/// A step that works has no reason to fail for, and one that fails has its own.
pub proof fn law_reason(why: String)
    ensures
        reason(Ok(())) is None,
        reason(Err(why)) == Some(why@),
{
}

/// A success restarts the machine exactly when the conversation was opened for
/// a change that does.
pub proof fn law_restart_as_announced(text: Seq<char>, restarts: bool)
    requires
        !(verdict(text, restarts) is Failed),
    ensures
        verdict(text, restarts) is Restart <==> restarts,
{
}

/// A reply with a replacement character in it never counts as success.
pub proof fn law_garbled_reply_fails(text: Seq<char>, restarts: bool)
    requires
        text.contains('\u{fffd}'),
    ensures
        verdict(text, restarts) is Failed,
{
    law_trim_keeps_the_rest(text, '\u{fffd}');
    reveal_strlit("ok");
}

/// What is handed back is meant to the letter: a failure's text is the whole of its
/// text, and the bytes to write are all of them.
pub proof fn law_handed_back_to_the_letter(why: String, bytes: Vec<u8>, cap: usize, end: Outcome)
    ensures
        Outcome::Failed(why)@ == OutcomeView::Failed(why@),
        Outcome::ClockSet@ == OutcomeView::ClockSet,
        Outcome::Restart@ == OutcomeView::Restart,
        Next::Write(bytes)@ == NextView::Write(bytes@),
        Next::Read(cap)@ == NextView::Read(cap as nat),
        Next::Finished(end)@ == NextView::Finished(end@),
{
}

} // verus!
