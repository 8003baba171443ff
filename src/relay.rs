use vstd::prelude::*;

use crate::text::{center, center_pad, question_from_poll, repeat, repeat_spec, spaces};

verus! {

/// Why the relay refused a request.
#[derive(Clone, Copy, Debug, PartialEq, Eq, Structural)]
pub enum RelayError {
    /// A question is already waiting for its answer.
    Busy,
    /// No question is waiting, so there is nothing to answer.
    NothingPending,
}

/// A question waiting for its answer, and where the answer must go.
pub struct Inquiry<S> {
    pub question: String,
    pub sender: S,
}

/// An answer together with the channel of the agent that asked.
pub struct Delivery<S> {
    pub sender: S,
    pub answer: String,
}

/// What a relay holds: the waiting question's text and its answer channel.
pub type RelayView<S> = Option<(Seq<char>, S)>;

/// The relay after question `q` is posted with channel `to`.
pub open spec fn post_next<S>(v: RelayView<S>, q: Seq<char>, to: S) -> RelayView<S> {
    if v is None {
        Some((q, to))
    } else {
        v
    }
}

/// What posting a question returns: refused while another one waits.
pub open spec fn post_result<S>(v: RelayView<S>) -> Result<(), RelayError> {
    if v is None {
        Ok(())
    } else {
        Err(RelayError::Busy)
    }
}

/// The text shown to the human: the waiting question, or empty text.
pub open spec fn question_of<S>(v: RelayView<S>) -> Seq<char> {
    match v {
        Some((q, _)) => q,
        None => Seq::empty(),
    }
}

/// What answering with `a` returns: the asker's channel and `a` itself.
pub open spec fn answer_result<S>(v: RelayView<S>, a: Seq<char>) -> Result<(S, Seq<char>), RelayError> {
    match v {
        Some((_, to)) => Ok((to, a)),
        None => Err(RelayError::NothingPending),
    }
}

/// The rendezvous between an agent that asks a blocking question and the
/// host loop that puts it to a human. It holds at most one question; `S` is
/// the single-use channel on which the asker waits.
pub struct InquiryState<S> {
    pending: Option<Inquiry<S>>,
}

impl<S> View for InquiryState<S> {
    type V = RelayView<S>;

    closed spec fn view(&self) -> RelayView<S> {
        match self.pending {
            Some(p) => Some((p.question@, p.sender)),
            None => None,
        }
    }
}

impl<S> InquiryState<S> {
    /// A relay with no question waiting.
    pub fn new() -> (r: InquiryState<S>)
        ensures
            r@ is None,
    {
        InquiryState { pending: None }
    }

    /// Posts `question`, to be answered on `sender`. Refused with `Busy`,
    /// and nothing changed, while another question waits.
    pub fn inquiry(&mut self, question: String, sender: S) -> (r: Result<(), RelayError>)
        ensures
            r == post_result(old(self)@),
            final(self)@ == post_next(old(self)@, question@, sender),
    {
        if self.pending.is_some() {
            return Err(RelayError::Busy);
        }
        self.pending = Some(Inquiry { question, sender });
        Ok(())
    }

    /// The waiting question, or empty text when there is none.
    pub fn get_inquiry(&self) -> (r: String)
        ensures
            r@ == question_of(self@),
    {
        match &self.pending {
            Some(p) => p.question.clone(),
            None => String::new(),
        }
    }

    /// Whether a question waits for its answer.
    pub fn is_pending(&self) -> (r: bool)
        ensures
            r == (self@ is Some),
    {
        self.pending.is_some()
    }

    /// Takes the waiting question and hands `answer` to its asker's channel;
    /// the relay is then empty. `NothingPending`, with nothing changed, when
    /// no question waits.
    pub fn inquiry_response(&mut self, answer: String) -> (r: Result<Delivery<S>, RelayError>)
        ensures
            final(self)@ is None,
            r is Ok <==> answer_result(old(self)@, answer@) is Ok,
            r is Ok ==> (r->Ok_0.sender, r->Ok_0.answer@) == answer_result(
                old(self)@,
                answer@,
            )->Ok_0,
            r is Err ==> r->Err_0 == answer_result(old(self)@, answer@)->Err_0,
    {
        match self.pending.take() {
            Some(p) => Ok(Delivery { sender: p.sender, answer }),
            None => Err(RelayError::NothingPending),
        }
    }
}

/// A question posted to an empty relay is what the host sees, and answering
/// it hands exactly the answer to the asker's own channel and leaves the relay
/// empty.
pub proof fn lemma_inquiry_round_trip<S>(q: Seq<char>, to: S, a: Seq<char>)
    ensures
        post_result::<S>(None) == Ok::<(), RelayError>(()),
        question_of(post_next(None, q, to)) == q,
        answer_result(post_next(None, q, to), a) == Ok::<(S, Seq<char>), RelayError>((to, a)),
{
}

/// Answering while no question waits is refused with `NothingPending`.
pub proof fn lemma_answer_without_inquiry<S>(a: Seq<char>)
    ensures
        answer_result::<S>(None, a) == Err::<(S, Seq<char>), RelayError>(RelayError::NothingPending),
{
}

/// A second question posted before the first is answered is refused with
/// `Busy`, and the first stays the waiting one with its own channel.
pub proof fn lemma_second_inquiry_rejected<S>(q1: Seq<char>, to1: S, q2: Seq<char>, to2: S)
    ensures
        ({
            let v1 = post_next(None, q1, to1);
            &&& post_result(v1) == Err::<(), RelayError>(RelayError::Busy)
            &&& post_next(v1, q2, to2) == v1
            &&& question_of(post_next(v1, q2, to2)) == q1
        }),
{
}

/// The headline shown above a question.
pub open spec fn headline() -> Seq<char> {
    "\u{1f40b}=== ORCA WANTS INPUT ===\u{1f40b}"@
}

/// The length in bytes of the headline.
pub open spec fn headline_bytes() -> usize {
    "\u{1f40b}=== ORCA WANTS INPUT ===\u{1f40b}".len()
}

/// The line that introduces the question.
pub open spec fn asking_line() -> Seq<char> {
    "\u{1f40b} ORCA is asking:"@
}

/// The length in bytes of the introducing line.
pub open spec fn asking_line_bytes() -> usize {
    "\u{1f40b} ORCA is asking:".len()
}

/// The rule drawn above and below a question.
pub open spec fn rule_unit() -> Seq<char> {
    "\u{2500}"@
}

/// The lines that put `question` before the human on a terminal `width`
/// wide: a rule, the headline, the introduction and the question, each
/// centered, a rule and an empty line.
pub fn inquiry_banner(question: &str, width: usize) -> (r: Vec<String>)
    ensures
        r@.len() == 6,
        r@[0]@ == repeat_spec(rule_unit(), width as nat),
        r@[1]@ == spaces(center_pad(width, headline_bytes())) + headline(),
        r@[2]@ == spaces(center_pad(width, asking_line_bytes())) + asking_line(),
        r@[3]@ == spaces(center_pad(width, question.len())) + question@,
        r@[4]@ == repeat_spec(rule_unit(), width as nat),
        r@[5]@ == Seq::<char>::empty(),
{
    let rule = repeat("\u{2500}", width);
    let head = "\u{1f40b}=== ORCA WANTS INPUT ===\u{1f40b}";
    let asking = "\u{1f40b} ORCA is asking:";
    let mut lines: Vec<String> = Vec::new();
    lines.push(rule.clone());
    lines.push(center(head, width));
    lines.push(center(asking, width));
    lines.push(center(question, width));
    lines.push(rule);
    lines.push(String::new());
    lines
}

/// A question to put before the human.
pub struct Prompt {
    pub question: String,
    pub lines: Vec<String>,
}

/// What the host loop does with the text of a poll: nothing when it is only
/// white space, else show the trimmed question framed for a terminal `width`
/// wide.
pub fn prompt_for_poll(text: &str, width: usize) -> (r: Option<Prompt>)
    ensures
        r is None <==> forall|i: int| 0 <= i < text@.len() ==> crate::text::is_white_space(#[trigger] text@[i]),
        r is Some ==> crate::text::is_trim_of(text@, r->Some_0.question@) && r->Some_0.question@.len() > 0,
        r is Some ==> r->Some_0.lines@.len() == 6 && r->Some_0.lines@[3]@ == spaces(
            center_pad(width, vstd::utf8::encode_utf8(r->Some_0.question@).len() as usize),
        ) + r->Some_0.question@,
{
    match question_from_poll(text) {
        Some(question) => {
            let lines = inquiry_banner(question.as_str(), width);
            Some(Prompt { question, lines })
        },
        None => None,
    }
}

/// Relies on term_size::dimensions for the terminal's width, absent when it
/// cannot be told.
#[verifier::external_body]
fn terminal_columns() -> (r: Option<usize>) {
    term_size::dimensions().map(|d| d.0)
}

/// The width to lay text out for: the terminal's, or 80 columns when it
/// cannot be told.
pub fn width_or_default(columns: Option<usize>) -> (r: usize)
    ensures
        r == width_or_default_spec(columns),
{
    match columns {
        Some(w) => w,
        None => 80,
    }
}

/// The terminal's width, or 80 columns when it cannot be told.
pub fn terminal_width() -> (r: usize) {
    width_or_default(terminal_columns())
}

/// The width to lay text out for, given the terminal's width if known.
pub open spec fn width_or_default_spec(columns: Option<usize>) -> usize {
    match columns {
        Some(w) => w,
        None => 80,
    }
}

} // verus!
