use vstd::prelude::*;

use crate::models::{count_correct, score_spec, AnswerStatus, ClientMessage, MessageView, OptionIndex, QuestionView};
use crate::session::{
    begin_question, inbound_spec, session_wf, status_spec, step_spec, ActionView, EventView, Phase,
    SessionView, ANSWER_WINDOW_SECS, INTRO_DELAY_SECS, REVEAL_DELAY_SECS,
};

verus! {

/// What reaches a session: an event of the outside world, or a message of
/// its client.
pub ghost enum Input {
    Event(EventView),
    Client(ClientMessage),
}

pub open spec fn input_step(s: SessionView, i: Input) -> (SessionView, Seq<ActionView>) {
    match i {
        Input::Event(e) => step_spec(s, e),
        Input::Client(m) => inbound_spec(s, m),
    }
}

/// The state reached and the actions produced by feeding `inputs` in order.
pub open spec fn run(s: SessionView, inputs: Seq<Input>) -> (SessionView, Seq<ActionView>)
    decreases inputs.len(),
{
    if inputs.len() == 0 {
        (s, seq![])
    } else {
        let (s1, a1) = input_step(s, inputs[0]);
        let (s2, a2) = run(s1, inputs.drop_first());
        (s2, a1 + a2)
    }
}

/// The client's message during the window of question `i`, if it sent one.
pub open spec fn client_inputs(sent: Seq<Option<OptionIndex>>, i: int) -> Seq<Input> {
    match sent[i] {
        Some(o) => seq![Input::Client(ClientMessage::Answer { answer_idx: o })],
        None => seq![],
    }
}

/// For each question from `i` on: the client's answer if it sends one, the
/// end of the answer window, the store giving back `reads[i]`, and the end
/// of the reveal delay.
pub open spec fn question_inputs(
    sent: Seq<Option<OptionIndex>>,
    reads: Seq<Option<OptionIndex>>,
    i: nat,
) -> Seq<Input>
    decreases sent.len() - i,
{
    if i < sent.len() {
        client_inputs(sent, i as int) + seq![
            Input::Event(EventView::TimerElapsed),
            Input::Event(EventView::AnswerRead(reads[i as int])),
            Input::Event(EventView::TimerElapsed),
        ] + question_inputs(sent, reads, i + 1)
    } else {
        seq![]
    }
}

/// A whole round: the start signal, the fetched game, the end of the intro
/// delay, then each question in turn. `sent[i]` is what the client sends
/// during question `i`'s window, and `reads[i]` what the store then holds
/// for it.
pub open spec fn round_inputs(
    game: Seq<QuestionView>,
    sent: Seq<Option<OptionIndex>>,
    reads: Seq<Option<OptionIndex>>,
) -> Seq<Input> {
    seq![
        Input::Event(EventView::Signal),
        Input::Event(EventView::GameFetched(Some(game))),
        Input::Event(EventView::TimerElapsed),
    ] + question_inputs(sent, reads, 0)
}

/// The status each question earns.
pub open spec fn graded(
    game: Seq<QuestionView>,
    sent: Seq<Option<OptionIndex>>,
    reads: Seq<Option<OptionIndex>>,
) -> Seq<AnswerStatus> {
    Seq::new(game.len(), |i: int| status_spec(sent[i] is Some, reads[i], game[i].answer_idx))
}

/// The end of a round: the score is stored, sent, and the session waits.
pub open spec fn settle_trace(score: u32) -> Seq<ActionView> {
    seq![
        ActionView::RecordScore { score },
        ActionView::Send(MessageView::GameEnd { score }),
        ActionView::WaitForSignal,
    ]
}

/// The store write of the client's answer to question `q`, if it sent one.
pub open spec fn record_trace(q: Seq<char>, sent: Option<OptionIndex>) -> Seq<ActionView> {
    match sent {
        Some(o) => seq![ActionView::RecordAnswer { question: q, answer: o }],
        None => seq![],
    }
}

/// The actions of the questions from `i` on, then of the end of the round.
pub open spec fn question_trace(
    game: Seq<QuestionView>,
    sent: Seq<Option<OptionIndex>>,
    reads: Seq<Option<OptionIndex>>,
    i: nat,
) -> Seq<ActionView>
    decreases game.len() - i,
{
    if i < game.len() {
        let q = game[i as int];
        seq![
            ActionView::Send(MessageView::Question { question: q.question, options: q.options }),
            ActionView::Sleep(ANSWER_WINDOW_SECS),
        ] + window_trace(q, sent[i as int], reads[i as int]) + question_trace(game, sent, reads, i + 1)
    } else {
        settle_trace(score_spec(graded(game, sent, reads)))
    }
}

/// Every action of a whole round, in order.
pub open spec fn round_trace(
    game: Seq<QuestionView>,
    sent: Seq<Option<OptionIndex>>,
    reads: Seq<Option<OptionIndex>>,
) -> Seq<ActionView> {
    seq![
        ActionView::FetchGame,
        ActionView::Send(MessageView::GameStart),
        ActionView::Sleep(INTRO_DELAY_SECS),
    ] + question_trace(game, sent, reads, 0)
}

proof fn lemma_run_prefix(s: SessionView, head: Seq<Input>, tail: Seq<Input>)
    ensures
        run(s, head + tail) == ({
            let (s1, a1) = run(s, head);
            let (s2, a2) = run(s1, tail);
            (s2, a1 + a2)
        }),
    decreases head.len(),
{
    if head.len() == 0 {
        assert(head + tail =~= tail);
        assert(seq![] + run(s, tail).1 =~= run(s, tail).1);
    } else {
        let (s1, a1) = input_step(s, head[0]);
        assert((head + tail)[0] == head[0]);
        assert((head + tail).drop_first() =~= head.drop_first() + tail);
        lemma_run_prefix(s1, head.drop_first(), tail);
        let (s2, a2) = run(s1, head.drop_first());
        let (s3, a3) = run(s2, tail);
        assert(a1 + (a2 + a3) =~= (a1 + a2) + a3);
    }
}

proof fn lemma_run_one(s: SessionView, x: Input)
    ensures
        run(s, seq![x]) == input_step(s, x),
{
    assert(seq![x].drop_first() =~= Seq::<Input>::empty());
    let (s1, a1) = input_step(s, x);
    assert(run(s1, Seq::<Input>::empty()) == (s1, Seq::<ActionView>::empty()));
    assert(a1 + Seq::<ActionView>::empty() =~= a1);
}

proof fn lemma_run_three(s: SessionView, e0: Input, e1: Input, e2: Input)
    ensures
        run(s, seq![e0, e1, e2]) == ({
            let (s1, a1) = input_step(s, e0);
            let (s2, a2) = input_step(s1, e1);
            let (s3, a3) = input_step(s2, e2);
            (s3, a1 + a2 + a3)
        }),
{
    let es = seq![e0, e1, e2];
    assert(es.drop_first() =~= seq![e1, e2]);
    assert(seq![e1, e2].drop_first() =~= seq![e2]);
    let (s1, a1) = input_step(s, e0);
    let (s2, a2) = input_step(s1, e1);
    let (s3, a3) = input_step(s2, e2);
    lemma_run_one(s2, e2);
    assert(run(s1, seq![e1, e2]) == (s3, a2 + a3));
    assert(a1 + (a2 + a3) =~= a1 + a2 + a3);
}

/// The actions during and right after one answer window.
pub open spec fn window_trace(q: QuestionView, sent: Option<OptionIndex>, read: Option<OptionIndex>) -> Seq<ActionView> {
    let st = status_spec(sent is Some, read, q.answer_idx);
    record_trace(q.question, sent) + seq![
        ActionView::ReadAnswer { question: q.question },
        ActionView::RecordStatus { question: q.question, status: st },
        ActionView::Send(MessageView::Answer { status: st, answer_idx: q.answer_idx }),
        ActionView::Sleep(REVEAL_DELAY_SECS),
    ]
}

/// One answer window: the client's answer if any, the window's end, and
/// the store's reply.
proof fn lemma_window(s1: SessionView, sent: Option<OptionIndex>, read: Option<OptionIndex>)
    requires
        session_wf(s1),
        s1.phase == Phase::Answering,
        !s1.answered,
    ensures
        ({
            let q = s1.questions[s1.index as int];
            let ci = match sent {
                Some(o) => seq![Input::Client(ClientMessage::Answer { answer_idx: o })],
                None => Seq::<Input>::empty(),
            };
            let (u, acts) = run(
                s1,
                ci + seq![
                    Input::Event(EventView::TimerElapsed),
                    Input::Event(EventView::AnswerRead(read)),
                ],
            );
            &&& acts == window_trace(q, sent, read)
            &&& u == SessionView {
                phase: Phase::Revealing,
                active_question: None,
                answered: sent is Some,
                statuses: s1.statuses.push(status_spec(sent is Some, read, q.answer_idx)),
                ..s1
            }
        }),
{
    let ci = match sent {
        Some(o) => seq![Input::Client(ClientMessage::Answer { answer_idx: o })],
        None => Seq::<Input>::empty(),
    };
    let head = seq![Input::Event(EventView::TimerElapsed), Input::Event(EventView::AnswerRead(read))];
    lemma_run_prefix(s1, ci, head);
    let (u1, c1) = run(s1, ci);
    match sent {
        Some(o) => {
            lemma_run_one(s1, ci[0]);
            assert(ci =~= seq![ci[0]]);
        },
        None => {
            assert(run(s1, ci) == (s1, Seq::<ActionView>::empty()));
        },
    }
    assert(head.drop_first() =~= seq![head[1]]);
    lemma_run_one(input_step(u1, head[0]).0, head[1]);
    let (t1, b1) = input_step(u1, head[0]);
    let (t2, b2) = input_step(t1, head[1]);
    assert(run(u1, head) == (t2, b1 + b2));
    assert(c1 + (b1 + b2) =~= window_trace(s1.questions[s1.index as int], sent, read));
}

/// The questions from `i` on, starting where question `i` is about to be
/// asked (after the intro, or after the reveal of question `i - 1`).
proof fn lemma_questions(
    s: SessionView,
    game: Seq<QuestionView>,
    sent: Seq<Option<OptionIndex>>,
    reads: Seq<Option<OptionIndex>>,
    i: nat,
)
    requires
        session_wf(s),
        s.phase == Phase::Intro || s.phase == Phase::Revealing,
        s.phase == Phase::Intro ==> i == 0,
        s.phase == Phase::Revealing ==> i == s.index + 1,
        s.questions == game,
        sent.len() == game.len(),
        reads.len() == game.len(),
        i <= game.len(),
        s.statuses == graded(game, sent, reads).subrange(0, i as int),
    ensures
        ({
            let (s1, a1) = begin_question(s, i);
            let (s2, a2) = run(s1, question_inputs(sent, reads, i));
            &&& a1 + a2 == question_trace(game, sent, reads, i)
            &&& s2.phase == Phase::AwaitingStart
            &&& s2.active_question is None
            &&& s2.statuses == graded(game, sent, reads)
        }),
    decreases game.len() - i,
{
    let (s1, a1) = begin_question(s, i);
    if i < game.len() {
        let q = game[i as int];
        let ci = client_inputs(sent, i as int);
        let rest = question_inputs(sent, reads, i + 1);
        let win = ci + seq![
            Input::Event(EventView::TimerElapsed),
            Input::Event(EventView::AnswerRead(reads[i as int])),
        ];
        let tail = seq![Input::Event(EventView::TimerElapsed)] + rest;
        assert(question_inputs(sent, reads, i) =~= win + tail);
        lemma_run_prefix(s1, win, tail);
        lemma_window(s1, sent[i as int], reads[i as int]);
        let (u, w) = run(s1, win);
        assert(u.statuses =~= graded(game, sent, reads).subrange(0, i + 1 as int));
        lemma_run_prefix(u, seq![Input::Event(EventView::TimerElapsed)], rest);
        lemma_run_one(u, Input::Event(EventView::TimerElapsed));
        lemma_questions(u, game, sent, reads, i + 1);
        let (t3, b3) = begin_question(u, i + 1);
        let (t4, b4) = run(t3, rest);
        assert(a1 + (w + (b3 + b4)) =~= question_trace(game, sent, reads, i));
    } else {
        assert(s.statuses =~= graded(game, sent, reads));
        assert(question_inputs(sent, reads, i) =~= Seq::<Input>::empty());
        assert(a1 + seq![] =~= question_trace(game, sent, reads, i));
    }
}

/// A whole round from a waiting session: the actions are exactly those of
/// `round_trace`, and the session waits again with every question graded.
pub proof fn lemma_round(
    s: SessionView,
    game: Seq<QuestionView>,
    sent: Seq<Option<OptionIndex>>,
    reads: Seq<Option<OptionIndex>>,
)
    requires
        session_wf(s),
        s.phase == Phase::AwaitingStart,
        sent.len() == game.len(),
        reads.len() == game.len(),
    ensures
        run(s, round_inputs(game, sent, reads)).1 == round_trace(game, sent, reads),
        run(s, round_inputs(game, sent, reads)).0.phase == Phase::AwaitingStart,
        run(s, round_inputs(game, sent, reads)).0.active_question is None,
        run(s, round_inputs(game, sent, reads)).0.statuses == graded(game, sent, reads),
{
    let head = seq![
        Input::Event(EventView::Signal),
        Input::Event(EventView::GameFetched(Some(game))),
        Input::Event(EventView::TimerElapsed),
    ];
    let rest = question_inputs(sent, reads, 0);
    lemma_run_prefix(s, head, rest);
    lemma_run_three(s, head[0], head[1], head[2]);
    let (s1, a1) = step_spec(s, EventView::Signal);
    let (s2, a2) = step_spec(s1, EventView::GameFetched(Some(game)));
    assert(s2.statuses =~= graded(game, sent, reads).subrange(0, 0));
    lemma_questions(s2, game, sent, reads, 0);
    let (s3, a3) = begin_question(s2, 0);
    let (s4, a4) = run(s3, rest);
    assert(a1 + a2 + a3 + a4 =~= round_trace(game, sent, reads));
}

proof fn lemma_trace_ends(
    game: Seq<QuestionView>,
    sent: Seq<Option<OptionIndex>>,
    reads: Seq<Option<OptionIndex>>,
    i: nat,
)
    ensures
        ({
            let t = question_trace(game, sent, reads, i);
            &&& t.len() >= 3
            &&& t.subrange(t.len() - 3, t.len() as int) == settle_trace(
                score_spec(graded(game, sent, reads)),
            )
        }),
    decreases game.len() - i,
{
    if i < game.len() {
        lemma_trace_ends(game, sent, reads, i + 1);
        let t = question_trace(game, sent, reads, i);
        let t1 = question_trace(game, sent, reads, i + 1);
        assert(t.subrange(t.len() - 3, t.len() as int) =~= t1.subrange(
            t1.len() - 3,
            t1.len() as int,
        ));
    } else {
        let t = question_trace(game, sent, reads, i);
        assert(t.subrange(t.len() - 3, t.len() as int) =~= t);
    }
}

proof fn lemma_trace_answers(
    game: Seq<QuestionView>,
    sent: Seq<Option<OptionIndex>>,
    reads: Seq<Option<OptionIndex>>,
    i: nat,
    st: AnswerStatus,
)
    requires
        forall|j: int|
            i <= j < game.len() ==> status_spec(#[trigger] sent[j] is Some, reads[j], game[j].answer_idx)
                == st,
    ensures
        forall|k: int|
            0 <= k < question_trace(game, sent, reads, i).len() ==> (#[trigger] question_trace(
                game,
                sent,
                reads,
                i,
            )[k] matches ActionView::Send(MessageView::Answer { status, .. }) ==> status == st),
    decreases game.len() - i,
{
    if i < game.len() {
        lemma_trace_answers(game, sent, reads, i + 1, st);
        assert(status_spec(sent[i as int] is Some, reads[i as int], game[i as int].answer_idx) == st);
        let q = game[i as int];
        let t = question_trace(game, sent, reads, i);
        let t1 = question_trace(game, sent, reads, i + 1);
        let r = record_trace(q.question, sent[i as int]);
        let n = 6 + r.len();
        assert forall|k: int| 0 <= k < t.len() implies (#[trigger] t[k] matches ActionView::Send(
            MessageView::Answer { status, .. },
        ) ==> status == st) by {
            if k >= n {
                assert(t[k] == t1[k - n]);
            } else if k >= 2 && k < 2 + r.len() {
                assert(t[k] == r[k - 2]);
            }
        }
    }
}

proof fn lemma_count_all(s: Seq<AnswerStatus>, st: AnswerStatus)
    requires
        forall|j: int| 0 <= j < s.len() ==> s[j] == st,
    ensures
        count_correct(s) == if st == AnswerStatus::Correct {
            s.len()
        } else {
            0
        },
    decreases s.len(),
{
    if s.len() > 0 {
        lemma_count_all(s.drop_last(), st);
    }
}

/// A session whose client answers every question of an `n`-question game
/// correctly during its window, with the store giving those answers back,
/// ends the round with `GameEnd { score: n }` (a score is a `u32`, so `n` is
/// at most `u32::MAX`), and every answer it reveals is marked `Correct`.
pub proof fn lemma_all_correct_scores_every_question(s: SessionView, game: Seq<QuestionView>)
    requires
        session_wf(s),
        s.phase == Phase::AwaitingStart,
        game.len() <= u32::MAX,
    ensures
        ({
            let answers = Seq::new(game.len(), |i: int| Some(game[i].answer_idx));
            let t = run(s, round_inputs(game, answers, answers)).1;
            &&& t.len() >= 2
            &&& t[t.len() - 2] == ActionView::Send(MessageView::GameEnd { score: game.len() as u32 })
            &&& forall|k: int|
                0 <= k < t.len() ==> (#[trigger] t[k] matches ActionView::Send(
                    MessageView::Answer { status, .. },
                ) ==> status == AnswerStatus::Correct)
        }),
{
    let answers = Seq::new(game.len(), |i: int| Some(game[i].answer_idx));
    lemma_round(s, game, answers, answers);
    let g = graded(game, answers, answers);
    lemma_count_all(g, AnswerStatus::Correct);
    assert(score_spec(g) == game.len() as u32);
    lemma_trace_answers(game, answers, answers, 0, AnswerStatus::Correct);
    lemma_trace_ends(game, answers, answers, 0);
    let qt = question_trace(game, answers, answers, 0);
    let t = round_trace(game, answers, answers);
    assert(t[t.len() - 2] == qt.subrange(qt.len() - 3, qt.len() as int)[1]);
    assert forall|k: int| 0 <= k < t.len() implies (#[trigger] t[k] matches ActionView::Send(
        MessageView::Answer { status, .. },
    ) ==> status == AnswerStatus::Correct) by {
        if k >= 3 {
            assert(t[k] == qt[k - 3]);
        }
    }
}

/// A session whose client never answers is told `NoAnswer` for every
/// question and ends the round with `GameEnd { score: 0 }`, storing score 0,
/// whatever the store holds for it from earlier rounds or connections.
pub proof fn lemma_no_answers_score_zero(
    s: SessionView,
    game: Seq<QuestionView>,
    reads: Seq<Option<OptionIndex>>,
)
    requires
        session_wf(s),
        s.phase == Phase::AwaitingStart,
        reads.len() == game.len(),
    ensures
        ({
            let sent = Seq::new(game.len(), |i: int| None::<OptionIndex>);
            let t = run(s, round_inputs(game, sent, reads)).1;
            &&& t.len() >= 3
            &&& t[t.len() - 3] == ActionView::RecordScore { score: 0 }
            &&& t[t.len() - 2] == ActionView::Send(MessageView::GameEnd { score: 0 })
            &&& forall|k: int|
                0 <= k < t.len() ==> (#[trigger] t[k] matches ActionView::Send(
                    MessageView::Answer { status, .. },
                ) ==> status == AnswerStatus::NoAnswer)
            &&& run(s, round_inputs(game, sent, reads)).0.statuses == Seq::new(
                game.len(),
                |i: int| AnswerStatus::NoAnswer,
            )
        }),
{
    let sent = Seq::new(game.len(), |i: int| None::<OptionIndex>);
    lemma_round(s, game, sent, reads);
    let g = graded(game, sent, reads);
    lemma_count_all(g, AnswerStatus::NoAnswer);
    assert(score_spec(g) == 0);
    assert(g =~= Seq::new(game.len(), |i: int| AnswerStatus::NoAnswer));
    lemma_trace_answers(game, sent, reads, 0, AnswerStatus::NoAnswer);
    lemma_trace_ends(game, sent, reads, 0);
    let qt = question_trace(game, sent, reads, 0);
    let t = round_trace(game, sent, reads);
    assert(t[t.len() - 2] == qt.subrange(qt.len() - 3, qt.len() as int)[1]);
    assert(t[t.len() - 3] == qt.subrange(qt.len() - 3, qt.len() as int)[0]);
    assert forall|k: int| 0 <= k < t.len() implies (#[trigger] t[k] matches ActionView::Send(
        MessageView::Answer { status, .. },
    ) ==> status == AnswerStatus::NoAnswer) by {
        if k >= 3 {
            assert(t[k] == qt[k - 3]);
        }
    }
}

} // verus!
