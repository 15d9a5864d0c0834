use vstd::prelude::*;

verus! {

/// One of the four fixed answer positions of a question.
#[derive(Clone, Copy, Debug, PartialEq, Eq, Structural)]
pub enum OptionIndex {
    One,
    Two,
    Three,
    Four,
}

/// The graded outcome of one question for one user.
#[derive(Clone, Copy, Debug, PartialEq, Eq, Structural)]
pub enum AnswerStatus {
    Correct,
    Incorrect,
    NoAnswer,
}

/// A question: its text (the key under which answers are stored), four
/// options, and the position of the correct one.
#[derive(Clone, Debug)]
pub struct Question {
    pub question: String,
    pub options: [String; 4],
    pub answer_idx: OptionIndex,
}

/// The ordered questions of one round.
#[derive(Clone, Debug)]
pub struct Game {
    pub questions: Vec<Question>,
}

pub ghost struct QuestionView {
    pub question: Seq<char>,
    pub options: Seq<Seq<char>>,
    pub answer_idx: OptionIndex,
}

pub open spec fn options_view(options: [String; 4]) -> Seq<Seq<char>> {
    options@.map_values(|s: String| s@)
}

impl View for Question {
    type V = QuestionView;

    open spec fn view(&self) -> QuestionView {
        QuestionView {
            question: self.question@,
            options: options_view(self.options),
            answer_idx: self.answer_idx,
        }
    }
}

impl View for Game {
    type V = Seq<QuestionView>;

    open spec fn view(&self) -> Seq<QuestionView> {
        self.questions@.map_values(|q: Question| q@)
    }
}

/// Messages sent from the server to one client.
#[derive(Clone, Debug)]
pub enum ServerMessage {
    TimeTillGame { time: u64 },
    Question { question: String, options: [String; 4] },
    Answer { status: AnswerStatus, answer_idx: OptionIndex },
    NoGame,
    GameEnd { score: u32 },
    GameStart,
}

pub ghost enum MessageView {
    TimeTillGame { time: u64 },
    Question { question: Seq<char>, options: Seq<Seq<char>> },
    Answer { status: AnswerStatus, answer_idx: OptionIndex },
    NoGame,
    GameEnd { score: u32 },
    GameStart,
}

impl View for ServerMessage {
    type V = MessageView;

    open spec fn view(&self) -> MessageView {
        match self {
            ServerMessage::TimeTillGame { time } => MessageView::TimeTillGame { time: *time },
            ServerMessage::Question { question, options } => MessageView::Question {
                question: question@,
                options: options_view(*options),
            },
            ServerMessage::Answer { status, answer_idx } => MessageView::Answer {
                status: *status,
                answer_idx: *answer_idx,
            },
            ServerMessage::NoGame => MessageView::NoGame,
            ServerMessage::GameEnd { score } => MessageView::GameEnd { score: *score },
            ServerMessage::GameStart => MessageView::GameStart,
        }
    }
}

/// Messages sent from a client to the server.
#[derive(Clone, Copy, Debug, PartialEq, Eq, Structural)]
pub enum ClientMessage {
    Answer { answer_idx: OptionIndex },
}

/// The status a recorded answer earns against the correct option.
pub open spec fn grade_spec(answer: Option<OptionIndex>, correct: OptionIndex) -> AnswerStatus {
    match answer {
        None => AnswerStatus::NoAnswer,
        Some(a) => if a == correct {
            AnswerStatus::Correct
        } else {
            AnswerStatus::Incorrect
        },
    }
}

/// Number of `Correct` entries in `statuses`.
pub open spec fn count_correct(statuses: Seq<AnswerStatus>) -> nat
    decreases statuses.len(),
{
    if statuses.len() == 0 {
        0
    } else {
        count_correct(statuses.drop_last()) + if statuses.last() == AnswerStatus::Correct {
            1nat
        } else {
            0nat
        }
    }
}

/// The score reported for `statuses`: their number of `Correct` entries,
/// capped at the largest `u32`.
pub open spec fn score_spec(statuses: Seq<AnswerStatus>) -> u32 {
    if count_correct(statuses) <= u32::MAX {
        count_correct(statuses) as u32
    } else {
        u32::MAX
    }
}

/// Grades a recorded answer: no record is `NoAnswer`, the correct option is
/// `Correct`, any other option is `Incorrect`.
pub fn grade(answer: Option<OptionIndex>, correct: OptionIndex) -> (r: AnswerStatus)
    ensures
        r == grade_spec(answer, correct),
{
    match answer {
        None => AnswerStatus::NoAnswer,
        Some(a) => if a == correct {
            AnswerStatus::Correct
        } else {
            AnswerStatus::Incorrect
        },
    }
}

/// Counts the `Correct` statuses.
pub fn score(statuses: &Vec<AnswerStatus>) -> (r: u32)
    ensures
        r == score_spec(statuses@),
{
    let mut count: u32 = 0;
    let mut i: usize = 0;
    while i < statuses.len()
        invariant
            i <= statuses@.len(),
            count == score_spec(statuses@.subrange(0, i as int)),
        decreases statuses@.len() - i,
    {
        assert(statuses@.subrange(0, i as int + 1).drop_last() =~= statuses@.subrange(0, i as int));
        if statuses[i] == AnswerStatus::Correct && count < u32::MAX {
            count = count + 1;
        }
        i = i + 1;
    }
    assert(statuses@.subrange(0, statuses@.len() as int) =~= statuses@);
    count
}

} // verus!
