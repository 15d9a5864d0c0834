use vstd::prelude::*;

use crate::models::{
    grade, grade_spec, options_view, score, score_spec, AnswerStatus, ClientMessage, Game,
    MessageView, OptionIndex, Question, QuestionView, ServerMessage,
};

verus! {

/// Seconds between `GameStart` and the first question.
pub const INTRO_DELAY_SECS: u64 = 10;

/// Seconds during which an answer to the active question is accepted.
pub const ANSWER_WINDOW_SECS: u64 = 10;

/// Seconds between revealing an answer and the next question.
pub const REVEAL_DELAY_SECS: u64 = 10;

/// Where a connection stands in its round.
#[derive(Clone, Copy, Debug, PartialEq, Eq, Structural)]
pub enum Phase {
    /// Waiting for the next start signal.
    AwaitingStart,
    /// A start signal came; the game is being fetched.
    Fetching,
    /// `GameStart` was sent; the intro delay runs.
    Intro,
    /// The current question was sent and its answer window runs.
    Answering,
    /// The answer window closed; the recorded answer is being read.
    Grading,
    /// The answer was revealed; the reveal delay runs.
    Revealing,
}

/// What the outside world reports to a session.
#[derive(Debug)]
pub enum Event {
    /// The start signal was observed.
    Signal,
    /// The game fetch finished; `None` when it failed or no game is stored.
    GameFetched(Option<Game>),
    /// The pending delay elapsed.
    TimerElapsed,
    /// The store was read for this user's answer to the current question.
    AnswerRead(Option<OptionIndex>),
}

/// What a session asks the outside world to do, in order.
#[derive(Debug)]
pub enum Action {
    /// Wait for the next start signal.
    WaitForSignal,
    /// Fetch the current game.
    FetchGame,
    /// Queue a message for this connection's client.
    Send(ServerMessage),
    /// Sleep this many seconds, then report `TimerElapsed`.
    Sleep(u64),
    /// Store this user's answer to a question.
    RecordAnswer { question: String, answer: OptionIndex },
    /// Read this user's answer to a question, then report `AnswerRead`.
    ReadAnswer { question: String },
    /// Store this user's status for a question.
    RecordStatus { question: String, status: AnswerStatus },
    /// Store this user's score.
    RecordScore { score: u32 },
}

pub ghost enum EventView {
    Signal,
    GameFetched(Option<Seq<QuestionView>>),
    TimerElapsed,
    AnswerRead(Option<OptionIndex>),
}

pub ghost enum ActionView {
    WaitForSignal,
    FetchGame,
    Send(MessageView),
    Sleep(u64),
    RecordAnswer { question: Seq<char>, answer: OptionIndex },
    ReadAnswer { question: Seq<char> },
    RecordStatus { question: Seq<char>, status: AnswerStatus },
    RecordScore { score: u32 },
}

impl View for Event {
    type V = EventView;

    open spec fn view(&self) -> EventView {
        match self {
            Event::Signal => EventView::Signal,
            Event::GameFetched(None) => EventView::GameFetched(None),
            Event::GameFetched(Some(g)) => EventView::GameFetched(Some(g@)),
            Event::TimerElapsed => EventView::TimerElapsed,
            Event::AnswerRead(a) => EventView::AnswerRead(*a),
        }
    }
}

impl View for Action {
    type V = ActionView;

    open spec fn view(&self) -> ActionView {
        match self {
            Action::WaitForSignal => ActionView::WaitForSignal,
            Action::FetchGame => ActionView::FetchGame,
            Action::Send(m) => ActionView::Send(m@),
            Action::Sleep(s) => ActionView::Sleep(*s),
            Action::RecordAnswer { question, answer } => ActionView::RecordAnswer {
                question: question@,
                answer: *answer,
            },
            Action::ReadAnswer { question } => ActionView::ReadAnswer { question: question@ },
            Action::RecordStatus { question, status } => ActionView::RecordStatus {
                question: question@,
                status: *status,
            },
            Action::RecordScore { score } => ActionView::RecordScore { score: *score },
        }
    }
}

pub open spec fn actions_view(actions: Seq<Action>) -> Seq<ActionView> {
    actions.map_values(|a: Action| a@)
}

pub ghost struct SessionView {
    pub user_id: Seq<char>,
    pub phase: Phase,
    pub questions: Seq<QuestionView>,
    pub index: nat,
    pub active_question: Option<Seq<char>>,
    pub answered: bool,
    pub statuses: Seq<AnswerStatus>,
}

/// The state of one connection: its user, its phase, the game of the
/// current round, the statuses graded so far, the active-question slot, and
/// whether the client answered during the current question's window.
pub struct Session {
    user_id: String,
    phase: Phase,
    questions: Vec<Question>,
    index: usize,
    active_question: Option<String>,
    answered: bool,
    statuses: Vec<AnswerStatus>,
}

impl View for Session {
    type V = SessionView;

    closed spec fn view(&self) -> SessionView {
        SessionView {
            user_id: self.user_id@,
            phase: self.phase,
            questions: self.questions@.map_values(|q: Question| q@),
            index: self.index as nat,
            active_question: match self.active_question {
                None => None,
                Some(q) => Some(q@),
            },
            answered: self.answered,
            statuses: self.statuses@,
        }
    }
}

/// The session invariant: the active-question slot is set exactly during
/// an answer window, to the text of the question being asked, and one status
/// has been graded for each question already asked.
pub open spec fn session_wf(s: SessionView) -> bool {
    match s.phase {
        Phase::AwaitingStart | Phase::Fetching => s.active_question is None,
        Phase::Intro => s.active_question is None && s.index == 0 && s.statuses.len() == 0,
        Phase::Answering => s.index < s.questions.len() && s.statuses.len() == s.index
            && s.active_question == Some(s.questions[s.index as int].question),
        Phase::Grading => s.index < s.questions.len() && s.statuses.len() == s.index
            && s.active_question is None,
        Phase::Revealing => s.index < s.questions.len() && s.statuses.len() == s.index + 1
            && s.active_question is None,
    }
}

/// Question `i` is sent and its answer window opens, or, past the last
/// question, the score is stored and sent and the session waits again.
pub open spec fn begin_question(s: SessionView, i: nat) -> (SessionView, Seq<ActionView>) {
    if i < s.questions.len() {
        let q = s.questions[i as int];
        (
            SessionView {
                phase: Phase::Answering,
                index: i,
                active_question: Some(q.question),
                answered: false,
                ..s
            },
            seq![
                ActionView::Send(MessageView::Question { question: q.question, options: q.options }),
                ActionView::Sleep(ANSWER_WINDOW_SECS),
            ],
        )
    } else {
        let sc = score_spec(s.statuses);
        (
            SessionView { phase: Phase::AwaitingStart, active_question: None, ..s },
            seq![
                ActionView::RecordScore { score: sc },
                ActionView::Send(MessageView::GameEnd { score: sc }),
                ActionView::WaitForSignal,
            ],
        )
    }
}

/// The next state and the actions that one event causes.
pub open spec fn step_spec(s: SessionView, e: EventView) -> (SessionView, Seq<ActionView>) {
    match (s.phase, e) {
        (Phase::AwaitingStart, EventView::Signal) => (
            SessionView { phase: Phase::Fetching, ..s },
            seq![ActionView::FetchGame],
        ),
        (Phase::Fetching, EventView::GameFetched(None)) => (
            SessionView { phase: Phase::AwaitingStart, ..s },
            seq![ActionView::WaitForSignal],
        ),
        (Phase::Fetching, EventView::GameFetched(Some(g))) => (
            SessionView {
                phase: Phase::Intro,
                questions: g,
                index: 0,
                active_question: None,
                statuses: seq![],
                ..s
            },
            seq![ActionView::Send(MessageView::GameStart), ActionView::Sleep(INTRO_DELAY_SECS)],
        ),
        (Phase::Intro, EventView::TimerElapsed) => begin_question(s, 0),
        (Phase::Answering, EventView::TimerElapsed) => (
            SessionView { phase: Phase::Grading, active_question: None, ..s },
            seq![ActionView::ReadAnswer { question: s.questions[s.index as int].question }],
        ),
        (Phase::Grading, EventView::AnswerRead(a)) => {
            let q = s.questions[s.index as int];
            let st = status_spec(s.answered, a, q.answer_idx);
            (
                SessionView { phase: Phase::Revealing, statuses: s.statuses.push(st), ..s },
                seq![
                    ActionView::RecordStatus { question: q.question, status: st },
                    ActionView::Send(MessageView::Answer { status: st, answer_idx: q.answer_idx }),
                    ActionView::Sleep(REVEAL_DELAY_SECS),
                ],
            )
        },
        (Phase::Revealing, EventView::TimerElapsed) => begin_question(s, s.index + 1),
        _ => (s, seq![]),
    }
}

/// The status of a question: graded from the stored answer when the client
/// answered during its window, `NoAnswer` otherwise, whatever the store
/// holds from earlier rounds or connections.
pub open spec fn status_spec(answered: bool, stored: Option<OptionIndex>, correct: OptionIndex) -> AnswerStatus {
    if answered {
        grade_spec(stored, correct)
    } else {
        AnswerStatus::NoAnswer
    }
}

/// What a session does with one client message: while a question is active
/// the answer is stored under it and noted as given; otherwise the client is
/// told that no game is running, and nothing is stored.
pub open spec fn inbound_spec(s: SessionView, m: ClientMessage) -> (SessionView, Seq<ActionView>) {
    match m {
        ClientMessage::Answer { answer_idx } => match s.active_question {
            Some(q) => (
                SessionView { answered: true, ..s },
                seq![ActionView::RecordAnswer { question: q, answer: answer_idx }],
            ),
            None => (s, seq![ActionView::Send(MessageView::NoGame)]),
        },
    }
}

/// The initial actions of a connection: the time till the next game, when
/// the schedule gives one, then waiting for the start signal.
pub open spec fn connect_spec(time_till_game: Option<u64>) -> Seq<ActionView> {
    match time_till_game {
        Some(t) => seq![
            ActionView::Send(MessageView::TimeTillGame { time: t }),
            ActionView::WaitForSignal,
        ],
        None => seq![ActionView::WaitForSignal],
    }
}

fn copy_question(q: &Question) -> (r: Question)
    ensures
        r@ == q@,
{
    let options = [
        q.options[0].clone(),
        q.options[1].clone(),
        q.options[2].clone(),
        q.options[3].clone(),
    ];
    assert(options_view(options) =~= options_view(q.options));
    Question { question: q.question.clone(), options, answer_idx: q.answer_idx }
}

impl Session {
    pub open spec fn wf(&self) -> bool {
        session_wf(self@)
    }

    /// A new connection for `user_id`, with the actions that open it.
    pub fn new(user_id: String, time_till_game: Option<u64>) -> (r: (Session, Vec<Action>))
        ensures
            r.0.wf(),
            r.0@.user_id == user_id@,
            r.0@.phase == Phase::AwaitingStart,
            r.0@.active_question is None,
            actions_view(r.1@) == connect_spec(time_till_game),
            // the time till the game is the first message of a connection
            time_till_game is Some ==> r.1@.len() > 0 && r.1@[0]@ == ActionView::Send(
                MessageView::TimeTillGame { time: time_till_game->Some_0 },
            ),
    {
        let s = Session {
            user_id,
            phase: Phase::AwaitingStart,
            questions: Vec::new(),
            index: 0,
            active_question: None,
            answered: false,
            statuses: Vec::new(),
        };
        let mut actions: Vec<Action> = Vec::new();
        match time_till_game {
            Some(time) => {
                actions.push(Action::Send(ServerMessage::TimeTillGame { time }));
            },
            None => {},
        }
        actions.push(Action::WaitForSignal);
        assert(actions_view(actions@) =~= connect_spec(time_till_game));
        (s, actions)
    }

    pub fn user_id(&self) -> (r: &String)
        ensures
            r@ == self@.user_id,
    {
        &self.user_id
    }

    pub fn phase(&self) -> (r: Phase)
        ensures
            r == self@.phase,
    {
        self.phase
    }

    /// The text of the question whose answer window is open, if any.
    pub fn active_question(&self) -> (r: Option<String>)
        ensures
            r is None <==> self@.active_question is None,
            r is Some ==> self@.active_question == Some(r->Some_0@),
    {
        match &self.active_question {
            None => None,
            Some(q) => Some(q.clone()),
        }
    }

    fn begin_question(&mut self, i: usize) -> (r: Vec<Action>)
        requires
            old(self).phase == Phase::Intro || old(self).phase == Phase::Revealing,
            i <= old(self).questions@.len(),
            old(self).statuses@.len() == i,
        ensures
            (final(self)@, actions_view(r@)) == begin_question(old(self)@, i as nat),
    {
        let ghost s0 = self@;
        if i < self.questions.len() {
            let q = copy_question(&self.questions[i]);
            let text = q.question.clone();
            self.phase = Phase::Answering;
            self.index = i;
            self.active_question = Some(text);
            self.answered = false;
            let mut actions: Vec<Action> = Vec::new();
            actions.push(Action::Send(ServerMessage::Question { question: q.question, options: q.options }));
            actions.push(Action::Sleep(ANSWER_WINDOW_SECS));
            assert(actions_view(actions@) =~= begin_question(s0, i as nat).1);
            assert(self@.questions =~= s0.questions);
            actions
        } else {
            let sc = score(&self.statuses);
            self.phase = Phase::AwaitingStart;
            self.active_question = None;
            let mut actions: Vec<Action> = Vec::new();
            actions.push(Action::RecordScore { score: sc });
            actions.push(Action::Send(ServerMessage::GameEnd { score: sc }));
            actions.push(Action::WaitForSignal);
            assert(actions_view(actions@) =~= begin_question(s0, i as nat).1);
            assert(self@.questions =~= s0.questions);
            actions
        }
    }

    /// Advances the round by one event and returns the actions it causes.
    /// An event that does not fit the current phase changes nothing.
    pub fn step(&mut self, event: Event) -> (r: Vec<Action>)
        requires
            old(self).wf(),
        ensures
            final(self).wf(),
            (final(self)@, actions_view(r@)) == step_spec(old(self)@, event@),
    {
        let ghost s0 = self@;
        let ghost e = event@;
        let mut actions: Vec<Action> = Vec::new();
        match (self.phase, event) {
            (Phase::AwaitingStart, Event::Signal) => {
                self.phase = Phase::Fetching;
                actions.push(Action::FetchGame);
            },
            (Phase::Fetching, Event::GameFetched(None)) => {
                self.phase = Phase::AwaitingStart;
                actions.push(Action::WaitForSignal);
            },
            (Phase::Fetching, Event::GameFetched(Some(game))) => {
                self.phase = Phase::Intro;
                self.questions = game.questions;
                self.index = 0;
                self.active_question = None;
                self.statuses = Vec::new();
                actions.push(Action::Send(ServerMessage::GameStart));
                actions.push(Action::Sleep(INTRO_DELAY_SECS));
            },
            (Phase::Intro, Event::TimerElapsed) => {
                actions = self.begin_question(0);
            },
            (Phase::Answering, Event::TimerElapsed) => {
                self.phase = Phase::Grading;
                self.active_question = None;
                let text = self.questions[self.index].question.clone();
                actions.push(Action::ReadAnswer { question: text });
            },
            (Phase::Grading, Event::AnswerRead(a)) => {
                let correct = self.questions[self.index].answer_idx;
                let text = self.questions[self.index].question.clone();
                let st = if self.answered {
                    grade(a, correct)
                } else {
                    AnswerStatus::NoAnswer
                };
                self.phase = Phase::Revealing;
                self.statuses.push(st);
                actions.push(Action::RecordStatus { question: text, status: st });
                actions.push(Action::Send(ServerMessage::Answer { status: st, answer_idx: correct }));
                actions.push(Action::Sleep(REVEAL_DELAY_SECS));
            },
            (Phase::Revealing, Event::TimerElapsed) => {
                let n = self.questions.len();
                assert(self.index < n);
                let next = self.index + 1;
                actions = self.begin_question(next);
            },
            _ => {},
        }
        assert(actions_view(actions@) =~= step_spec(s0, e).1);
        assert(self@.questions =~= step_spec(s0, e).0.questions);
        assert(self@.statuses =~= step_spec(s0, e).0.statuses);
        actions
    }

    /// Handles one message from the client.
    pub fn on_client_message(&mut self, message: ClientMessage) -> (r: Vec<Action>)
        requires
            old(self).wf(),
        ensures
            final(self).wf(),
            (final(self)@, actions_view(r@)) == inbound_spec(old(self)@, message),
            // outside an answer window: one `NoGame` reply, nothing stored
            old(self)@.active_question is None ==> actions_view(r@) == seq![
                ActionView::Send(MessageView::NoGame),
            ] && final(self)@ == old(self)@,
    {
        let ghost s0 = self@;
        let mut actions: Vec<Action> = Vec::new();
        match message {
            ClientMessage::Answer { answer_idx } => match &self.active_question {
                Some(q) => {
                    actions.push(Action::RecordAnswer { question: q.clone(), answer: answer_idx });
                    self.answered = true;
                },
                None => {
                    actions.push(Action::Send(ServerMessage::NoGame));
                },
            },
        }
        assert(actions_view(actions@) =~= inbound_spec(s0, message).1);
        assert(self@.questions =~= s0.questions);
        actions
    }
}

} // verus!
