use vstd::prelude::*;

use crate::models::{options_view, AnswerStatus, Game, OptionIndex, Question};

verus! {

/// A key that a `Table` can compare and copy.
pub trait TableKey: View + Sized {
    fn same_key(&self, other: &Self) -> (r: bool)
        ensures
            r == (self@ == other@),
    ;

    fn copy_key(&self) -> (r: Self)
        ensures
            r@ == self@,
    ;
}

impl TableKey for String {
    fn same_key(&self, other: &Self) -> (r: bool) {
        *self == *other
    }

    fn copy_key(&self) -> (r: Self) {
        self.clone()
    }
}

/// A user's entry for one question.
pub struct AnswerKey {
    pub user_id: String,
    pub question: String,
}

impl View for AnswerKey {
    type V = (Seq<char>, Seq<char>);

    open spec fn view(&self) -> (Seq<char>, Seq<char>) {
        (self.user_id@, self.question@)
    }
}

impl TableKey for AnswerKey {
    fn same_key(&self, other: &Self) -> (r: bool) {
        self.user_id == other.user_id && self.question == other.question
    }

    fn copy_key(&self) -> (r: Self) {
        AnswerKey { user_id: self.user_id.clone(), question: self.question.clone() }
    }
}

/// The map that a sequence of entries stands for, later entries winning.
pub open spec fn entries_map<K, V>(s: Seq<(K, V)>) -> Map<K, V>
    decreases s.len(),
{
    if s.len() == 0 {
        Map::empty()
    } else {
        entries_map(s.drop_last()).insert(s.last().0, s.last().1)
    }
}

pub open spec fn keys_unique<K, V>(s: Seq<(K, V)>) -> bool {
    forall|i: int, j: int| 0 <= i < j < s.len() ==> s[i].0 != s[j].0
}

proof fn lemma_entries_absent<K, V>(s: Seq<(K, V)>, k: K)
    requires
        forall|i: int| 0 <= i < s.len() ==> s[i].0 != k,
    ensures
        !entries_map(s).contains_key(k),
    decreases s.len(),
{
    if s.len() > 0 {
        lemma_entries_absent(s.drop_last(), k);
    }
}

proof fn lemma_entries_at<K, V>(s: Seq<(K, V)>, j: int)
    requires
        keys_unique(s),
        0 <= j < s.len(),
    ensures
        entries_map(s).contains_key(s[j].0),
        entries_map(s)[s[j].0] == s[j].1,
    decreases s.len(),
{
    if j < s.len() - 1 {
        lemma_entries_at(s.drop_last(), j);
    }
}

proof fn lemma_entries_update<K, V>(s: Seq<(K, V)>, j: int, v: V)
    requires
        keys_unique(s),
        0 <= j < s.len(),
    ensures
        entries_map(s.update(j, (s[j].0, v))) == entries_map(s).insert(s[j].0, v),
    decreases s.len(),
{
    let t = s.update(j, (s[j].0, v));
    if j == s.len() - 1 {
        assert(t.drop_last() =~= s.drop_last());
        assert(entries_map(t) =~= entries_map(s).insert(s[j].0, v));
    } else {
        assert(t.drop_last() =~= s.drop_last().update(j, (s[j].0, v)));
        lemma_entries_update(s.drop_last(), j, v);
        assert(s.last().0 != s[j].0);
        assert(entries_map(t) =~= entries_map(s).insert(s[j].0, v));
    }
}

proof fn lemma_entries_dom<K, V>(s: Seq<(K, V)>, k: K)
    requires
        keys_unique(s),
    ensures
        entries_map(s).contains_key(k) <==> exists|j: int| 0 <= j < s.len() && s[j].0 == k,
{
    if exists|j: int| 0 <= j < s.len() && s[j].0 == k {
        let j = choose|j: int| 0 <= j < s.len() && s[j].0 == k;
        lemma_entries_at(s, j);
    } else {
        lemma_entries_absent(s, k);
    }
}

/// A map from keys to values, held as entries with distinct keys. The
/// store keys its records by strings and pairs of strings; vstd specifies
/// `HashMap` only for keys whose hashing it models, which strings are not,
/// so a map on such keys would prove nothing about what a lookup returns.
pub struct Table<K, V> {
    entries: Vec<(K, V)>,
}

pub open spec fn entry_view<K: View, V>(e: (K, V)) -> (K::V, V) {
    (e.0@, e.1)
}

impl<K: TableKey, V: Copy> Table<K, V> {
    pub closed spec fn view_entries(&self) -> Seq<(K::V, V)> {
        self.entries@.map_values(|e: (K, V)| entry_view(e))
    }

    pub closed spec fn wf(&self) -> bool {
        keys_unique(self.view_entries())
    }

    pub closed spec fn view(&self) -> Map<K::V, V> {
        entries_map(self.view_entries())
    }

    pub fn new() -> (r: Self)
        ensures
            r.wf(),
            r.view() == Map::<K::V, V>::empty(),
    {
        let r = Table { entries: Vec::new() };
        assert(r.view_entries() =~= Seq::<(K::V, V)>::empty());
        r
    }

    fn find(&self, key: &K) -> (r: Option<usize>)
        ensures
            match r {
                Some(j) => j < self.entries@.len() && self.view_entries()[j as int].0 == key@,
                None => forall|i: int|
                    0 <= i < self.view_entries().len() ==> self.view_entries()[i].0 != key@,
            },
    {
        let mut i: usize = 0;
        while i < self.entries.len()
            invariant
                i <= self.entries@.len(),
                forall|k: int| 0 <= k < i ==> self.view_entries()[k].0 != key@,
            decreases self.entries@.len() - i,
        {
            if self.entries[i].0.same_key(key) {
                return Some(i);
            }
            i = i + 1;
        }
        None
    }

    /// The value stored under `key`.
    pub fn get(&self, key: &K) -> (r: Option<V>)
        requires
            self.wf(),
        ensures
            r == (if self.view().contains_key(key@) {
                Some(self.view()[key@])
            } else {
                None
            }),
    {
        match self.find(key) {
            Some(j) => {
                proof {
                    lemma_entries_at(self.view_entries(), j as int);
                }
                Some(self.entries[j].1)
            },
            None => {
                proof {
                    lemma_entries_absent(self.view_entries(), key@);
                }
                None
            },
        }
    }

    /// Stores `value` under `key`, replacing what was there.
    pub fn set(&mut self, key: K, value: V)
        requires
            old(self).wf(),
        ensures
            final(self).wf(),
            final(self).view() == old(self).view().insert(key@, value),
    {
        let ghost s0 = self.view_entries();
        match self.find(&key) {
            Some(j) => {
                let k = self.entries[j].0.copy_key();
                self.entries.set(j, (k, value));
                proof {
                    assert(self.view_entries() =~= s0.update(j as int, (s0[j as int].0, value)));
                    lemma_entries_update(s0, j as int, value);
                    assert forall|i: int| 0 <= i < s0.len() implies #[trigger] self.view_entries()[i].0
                        == s0[i].0 by {}
                }
            },
            None => {
                self.entries.push((key, value));
                proof {
                    assert(self.view_entries().drop_last() =~= s0);
                    assert forall|i: int| 0 <= i < s0.len() implies #[trigger] self.view_entries()[i]
                        == s0[i] by {}
                }
            },
        }
    }
}

pub ghost struct StoreView {
    pub answers: Map<(Seq<char>, Seq<char>), OptionIndex>,
    pub statuses: Map<(Seq<char>, Seq<char>), AnswerStatus>,
    pub scores: Map<Seq<char>, u32>,
}

/// The in-memory store of the game, the users' answers and statuses, and
/// their scores.
pub struct GameMemoryDatabase {
    answers: Table<AnswerKey, OptionIndex>,
    answer_statuses: Table<AnswerKey, AnswerStatus>,
    scores: Table<String, u32>,
}

/// The answer recorded for `user_id` to `question`, if any.
pub open spec fn answer_of(s: StoreView, user_id: Seq<char>, question: Seq<char>) -> Option<
    OptionIndex,
> {
    if s.answers.contains_key((user_id, question)) {
        Some(s.answers[(user_id, question)])
    } else {
        None
    }
}

/// The questions for which a status of `user_id` is stored.
pub open spec fn status_questions(s: StoreView, user_id: Seq<char>) -> Set<Seq<char>> {
    Set::new(|q: Seq<char>| s.statuses.contains_key((user_id, q)))
}

/// Whether `r` lists every status stored for `user_id`: one for each
/// question it has a status for, in some order.
pub open spec fn lists_statuses(s: StoreView, user_id: Seq<char>, r: Seq<AnswerStatus>) -> bool {
    exists|qs: Seq<Seq<char>>|
        #![trigger qs.to_set()]
        qs.no_duplicates() && qs.to_set() == status_questions(s, user_id) && r == qs.map_values(
            |q: Seq<char>| s.statuses[(user_id, q)],
        )
}

/// A write to the store other than an answer.
pub ghost enum OtherWrite {
    Status { user_id: Seq<char>, question: Seq<char>, status: AnswerStatus },
    Score { user_id: Seq<char>, score: u32 },
}

pub open spec fn apply_write(s: StoreView, w: OtherWrite) -> StoreView {
    match w {
        OtherWrite::Status { user_id, question, status } => StoreView {
            statuses: s.statuses.insert((user_id, question), status),
            ..s
        },
        OtherWrite::Score { user_id, score } => StoreView {
            scores: s.scores.insert(user_id, score),
            ..s
        },
    }
}

pub open spec fn apply_writes(s: StoreView, ws: Seq<OtherWrite>) -> StoreView
    decreases ws.len(),
{
    if ws.len() == 0 {
        s
    } else {
        apply_writes(apply_write(s, ws[0]), ws.drop_first())
    }
}

/// Reading an answer is idempotent: between two reads with no answer
/// written in between, whatever statuses and scores are written, both reads
/// give the same value.
pub proof fn lemma_answer_read_idempotent(
    s: StoreView,
    user_id: Seq<char>,
    question: Seq<char>,
    writes: Seq<OtherWrite>,
)
    ensures
        answer_of(apply_writes(s, writes), user_id, question) == answer_of(s, user_id, question),
    decreases writes.len(),
{
    if writes.len() > 0 {
        lemma_answer_read_idempotent(apply_write(s, writes[0]), user_id, question, writes.drop_first());
    }
}

/// The options of each stored question.
pub open spec fn default_options() -> Seq<Seq<char>> {
    seq!["Option 1"@, "Option 2"@, "Option 3"@, "Option 4"@]
}

fn options() -> (r: [String; 4])
    ensures
        options_view(r) == default_options(),
{
    let r = [text("Option 1"), text("Option 2"), text("Option 3"), text("Option 4")];
    assert(options_view(r) =~= default_options());
    r
}

fn text(s: &str) -> (r: String)
    ensures
        r@ == s@,
{
    s.to_string()
}

impl GameMemoryDatabase {
    pub closed spec fn view(&self) -> StoreView {
        StoreView {
            answers: self.answers.view(),
            statuses: self.answer_statuses.view(),
            scores: self.scores.view(),
        }
    }

    pub closed spec fn wf(&self) -> bool {
        self.answers.wf() && self.answer_statuses.wf() && self.scores.wf()
    }

    pub fn new() -> (r: Self)
        ensures
            r.wf(),
            r.view().answers.is_empty(),
            r.view().statuses.is_empty(),
            r.view().scores.is_empty(),
    {
        GameMemoryDatabase { answers: Table::new(), answer_statuses: Table::new(), scores: Table::new() }
    }

    /// The game this store serves: two questions, each with the options
    /// "Option 1" to "Option 4", the first being correct.
    pub fn get_game(&self) -> (r: Option<Game>)
        ensures
            r is Some,
            r->Some_0@.len() == 2,
            r->Some_0@[0].question == "What is question 1?"@,
            r->Some_0@[1].question == "What is question 2?"@,
            forall|i: int| 0 <= i < 2 ==> (#[trigger] r->Some_0@[i]).options == default_options(),
            forall|i: int| 0 <= i < 2 ==> (#[trigger] r->Some_0@[i]).answer_idx == OptionIndex::One,
    {
        let mut questions: Vec<Question> = Vec::new();
        questions.push(Question {
            question: text("What is question 1?"),
            options: options(),
            answer_idx: OptionIndex::One,
        });
        questions.push(Question {
            question: text("What is question 2?"),
            options: options(),
            answer_idx: OptionIndex::One,
        });
        let game = Game { questions };
        assert(game@[0] == game.questions@[0]@);
        assert(game@[1] == game.questions@[1]@);
        Some(game)
    }

    /// Records `answer` as `user_id`'s answer to `question`; a later answer
    /// replaces an earlier one.
    pub fn set_answer(&mut self, user_id: &str, question: &str, answer: OptionIndex)
        requires
            old(self).wf(),
        ensures
            final(self).wf(),
            final(self).view() == (StoreView {
                answers: old(self).view().answers.insert((user_id@, question@), answer),
                ..old(self).view()
            }),
    {
        let key = AnswerKey { user_id: text(user_id), question: text(question) };
        self.answers.set(key, answer);
    }

    /// The answer recorded for `user_id` to `question`, if any.
    pub fn get_answer(&self, user_id: &str, question: &str) -> (r: Option<OptionIndex>)
        requires
            self.wf(),
        ensures
            r == answer_of(self.view(), user_id@, question@),
    {
        let key = AnswerKey { user_id: text(user_id), question: text(question) };
        self.answers.get(&key)
    }

    /// Records the status `user_id` earned on `question`.
    pub fn set_answer_status(&mut self, user_id: &str, question: &str, status: AnswerStatus)
        requires
            old(self).wf(),
        ensures
            final(self).wf(),
            final(self).view() == apply_write(
                old(self).view(),
                OtherWrite::Status { user_id: user_id@, question: question@, status },
            ),
    {
        let key = AnswerKey { user_id: text(user_id), question: text(question) };
        self.answer_statuses.set(key, status);
    }

    /// The status recorded for `user_id` on `question`, if any.
    pub fn get_answer_status(&self, user_id: &str, question: &str) -> (r: Option<AnswerStatus>)
        requires
            self.wf(),
        ensures
            r == (if self.view().statuses.contains_key((user_id@, question@)) {
                Some(self.view().statuses[(user_id@, question@)])
            } else {
                None
            }),
    {
        let key = AnswerKey { user_id: text(user_id), question: text(question) };
        self.answer_statuses.get(&key)
    }

    /// Every status stored for `user_id`: one for each question it has a
    /// status for, in no particular order.
    pub fn get_answer_statuses(&self, user_id: &str) -> (r: Vec<AnswerStatus>)
        requires
            self.wf(),
        ensures
            lists_statuses(self.view(), user_id@, r@),
    {
        let user = text(user_id);
        let ghost es = self.answer_statuses.view_entries();
        let ghost m = self.view().statuses;
        let ghost mut qs: Seq<Seq<char>> = seq![];
        let mut out: Vec<AnswerStatus> = Vec::new();
        let mut i: usize = 0;
        let n = self.answer_statuses.entries.len();
        while i < n
            invariant
                n == self.answer_statuses.entries@.len(),
                es == self.answer_statuses.view_entries(),
                m == entries_map(es),
                keys_unique(es),
                i <= n,
                user@ == user_id@,
                qs.no_duplicates(),
                forall|q: Seq<char>|
                    qs.contains(q) <==> exists|j: int| 0 <= j < i && #[trigger] es[j].0 == (user_id@, q),
                forall|q: Seq<char>| #[trigger] qs.contains(q) ==> m.contains_key((user_id@, q)),
                out@ == qs.map_values(|q: Seq<char>| m[(user_id@, q)]),
            decreases n - i,
        {
            let ghost e = es[i as int];
            assert(e == entry_view(self.answer_statuses.entries@[i as int]));
            if self.answer_statuses.entries[i].0.user_id == user {
                let st = self.answer_statuses.entries[i].1;
                proof {
                    lemma_entries_at(es, i as int);
                    let q = e.0.1;
                    assert(e.0 == (user_id@, q));
                    assert(!qs.contains(q)) by {
                        if qs.contains(q) {
                            let j = choose|j: int| 0 <= j < i && #[trigger] es[j].0 == (user_id@, q);
                            assert(es[j].0 == es[i as int].0);
                        }
                    }
                    let qs2 = qs.push(q);
                    assert forall|x: Seq<char>| qs2.contains(x) <==> exists|j: int|
                        0 <= j < i + 1 && #[trigger] es[j].0 == (user_id@, x) by {
                        if qs2.contains(x) && x != q {
                            assert(qs.contains(x)) by {
                                let k = choose|k: int| 0 <= k < qs2.len() && qs2[k] == x;
                                assert(k < qs.len());
                                assert(qs[k] == x);
                            }
                        }
                        if x == q {
                            assert(qs2[qs.len() as int] == q);
                        }
                        if exists|j: int| 0 <= j < i && #[trigger] es[j].0 == (user_id@, x) {
                            assert(qs.contains(x));
                            let k = choose|k: int| 0 <= k < qs.len() && qs[k] == x;
                            assert(qs2[k] == x);
                        }
                    }
                    assert(out@.push(st) =~= qs2.map_values(|q: Seq<char>| m[(user_id@, q)]));
                    assert forall|x: Seq<char>| #[trigger] qs2.contains(x) implies m.contains_key((user_id@, x)) by {
                        if x != q {
                            let k = choose|k: int| 0 <= k < qs2.len() && qs2[k] == x;
                            assert(qs.contains(x)) by { assert(qs[k] == x); }
                        }
                    }
                    qs = qs2;
                }
                out.push(st);
            } else {
                proof {
                    assert forall|x: Seq<char>| qs.contains(x) <==> exists|j: int|
                        0 <= j < i + 1 && #[trigger] es[j].0 == (user_id@, x) by {
                        if exists|j: int| 0 <= j < i + 1 && #[trigger] es[j].0 == (user_id@, x) {
                            let j = choose|j: int| 0 <= j < i + 1 && #[trigger] es[j].0 == (user_id@, x);
                            assert(j < i);
                        }
                    }
                }
            }
            i = i + 1;
        }
        proof {
            assert(qs.to_set() =~= status_questions(self.view(), user_id@)) by {
                assert forall|q: Seq<char>| qs.to_set().contains(q) <==> status_questions(self.view(), user_id@).contains(q) by {
                    lemma_entries_dom(es, (user_id@, q));
                }
            }
        }
        out
    }

    /// Records `user_id`'s score, replacing the previous one.
    pub fn set_score(&mut self, user_id: &str, score: u32)
        requires
            old(self).wf(),
        ensures
            final(self).wf(),
            final(self).view() == apply_write(
                old(self).view(),
                OtherWrite::Score { user_id: user_id@, score },
            ),
    {
        self.scores.set(text(user_id), score);
    }

    /// The score recorded for `user_id`, if any.
    pub fn get_score(&self, user_id: &str) -> (r: Option<u32>)
        requires
            self.wf(),
        ensures
            r == (if self.view().scores.contains_key(user_id@) {
                Some(self.view().scores[user_id@])
            } else {
                None
            }),
    {
        let key = text(user_id);
        self.scores.get(&key)
    }
}

/// The store of the game, the users' answers and statuses, and their
/// scores, as rounds use it. A store that does not answer refuses every
/// request and changes nothing.
pub trait GameDatabase {
    type Error;

    spec fn store(&self) -> StoreView;

    /// The store's own invariant.
    spec fn valid(&self) -> bool;

    /// Whether the store answers requests.
    spec fn available(&self) -> bool;

    /// The current game; `Ok(None)` when none is stored.
    fn get_game(&self) -> (r: Result<Option<Game>, Self::Error>)
        ensures
            r is Ok <==> self.available(),
    ;

    fn set_answer(&mut self, user_id: &str, question: &str, answer: OptionIndex) -> (r: Result<(), Self::Error>)
        requires
            old(self).valid(),
        ensures
            final(self).valid(),
            final(self).available() == old(self).available(),
            r is Ok <==> old(self).available(),
            r is Ok ==> final(self).store() == (StoreView {
                answers: old(self).store().answers.insert((user_id@, question@), answer),
                ..old(self).store()
            }),
            r is Err ==> final(self).store() == old(self).store(),
    ;

    fn get_answer(&self, user_id: &str, question: &str) -> (r: Result<Option<OptionIndex>, Self::Error>)
        requires
            self.valid(),
        ensures
            r is Ok <==> self.available(),
            r is Ok ==> r->Ok_0 == answer_of(self.store(), user_id@, question@),
    ;

    fn set_answer_status(&mut self, user_id: &str, question: &str, status: AnswerStatus) -> (r: Result<(), Self::Error>)
        requires
            old(self).valid(),
        ensures
            final(self).valid(),
            final(self).available() == old(self).available(),
            r is Ok <==> old(self).available(),
            r is Ok ==> final(self).store() == apply_write(
                old(self).store(),
                OtherWrite::Status { user_id: user_id@, question: question@, status },
            ),
            r is Err ==> final(self).store() == old(self).store(),
    ;

    fn get_answers_statuses(&self, user_id: &str) -> (r: Result<Vec<AnswerStatus>, Self::Error>)
        requires
            self.valid(),
        ensures
            r is Ok <==> self.available(),
            r is Ok ==> lists_statuses(self.store(), user_id@, r->Ok_0@),
    ;

    fn set_score(&mut self, user_id: &str, score: u32) -> (r: Result<(), Self::Error>)
        requires
            old(self).valid(),
        ensures
            final(self).valid(),
            final(self).available() == old(self).available(),
            r is Ok <==> old(self).available(),
            r is Ok ==> final(self).store() == apply_write(
                old(self).store(),
                OtherWrite::Score { user_id: user_id@, score },
            ),
            r is Err ==> final(self).store() == old(self).store(),
    ;
}

impl GameDatabase for GameMemoryDatabase {
    type Error = ();

    closed spec fn store(&self) -> StoreView {
        self.view()
    }

    closed spec fn valid(&self) -> bool {
        self.wf()
    }

    /// The in-memory store always answers.
    open spec fn available(&self) -> bool {
        true
    }

    fn get_game(&self) -> (r: Result<Option<Game>, ()>) {
        Ok(GameMemoryDatabase::get_game(self))
    }

    fn set_answer(&mut self, user_id: &str, question: &str, answer: OptionIndex) -> (r: Result<(), ()>) {
        GameMemoryDatabase::set_answer(self, user_id, question, answer);
        Ok(())
    }

    fn get_answer(&self, user_id: &str, question: &str) -> (r: Result<Option<OptionIndex>, ()>) {
        Ok(GameMemoryDatabase::get_answer(self, user_id, question))
    }

    fn set_answer_status(&mut self, user_id: &str, question: &str, status: AnswerStatus) -> (r: Result<(), ()>) {
        GameMemoryDatabase::set_answer_status(self, user_id, question, status);
        Ok(())
    }

    fn get_answers_statuses(&self, user_id: &str) -> (r: Result<Vec<AnswerStatus>, ()>) {
        Ok(GameMemoryDatabase::get_answer_statuses(self, user_id))
    }

    fn set_score(&mut self, user_id: &str, score: u32) -> (r: Result<(), ()>) {
        GameMemoryDatabase::set_score(self, user_id, score);
        Ok(())
    }
}

} // verus!
