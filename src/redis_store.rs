use vstd::prelude::*;
use vstd::string::StringExecFns;

use crate::models::{AnswerStatus, OptionIndex};
use crate::ports::{UserModel, UserView};

verus! {

// Keys and values of the Redis-backed store: where each record lives and
// how it is written, and how replies are read back.

fn owned(s: &str) -> (r: String)
    ensures
        r@ == s@,
{
    s.to_string()
}

/// The key of the hash that holds an account.
pub fn user_key(id: &str) -> (r: String)
    ensures
        r@ == "user:"@ + id@,
{
    let mut k = owned("user:");
    k.append(id);
    k
}

/// The key under which a user's answer to a question is kept.
pub fn answer_key(id: &str, question: &str) -> (r: String)
    ensures
        r@ == "answer:"@ + id@ + ":"@ + question@,
{
    let mut k = owned("answer:");
    k.append(id);
    k.append(":");
    k.append(question);
    k
}

/// The key under which a user's status for a question is kept.
pub fn answer_status_key(id: &str, question: &str) -> (r: String)
    ensures
        r@ == "answer_status:"@ + id@ + ":"@ + question@,
{
    let mut k = owned("answer_status:");
    k.append(id);
    k.append(":");
    k.append(question);
    k
}

/// The pattern that matches every status key of a user.
pub fn answer_status_pattern(id: &str) -> (r: String)
    ensures
        r@ == "answer_status:"@ + id@ + ":*"@,
{
    let mut k = owned("answer_status:");
    k.append(id);
    k.append(":*");
    k
}

/// The key under which a user's score is kept.
pub fn score_key(id: &str) -> (r: String)
    ensures
        r@ == "score:"@ + id@,
{
    let mut k = owned("score:");
    k.append(id);
    k
}

/// The key of the current game's JSON document.
pub const GAME_KEY: &'static str = "game:latest";

/// The JSON text of an option: its name as a string.
pub open spec fn option_json(o: OptionIndex) -> Seq<char> {
    match o {
        OptionIndex::One => "\"One\""@,
        OptionIndex::Two => "\"Two\""@,
        OptionIndex::Three => "\"Three\""@,
        OptionIndex::Four => "\"Four\""@,
    }
}

/// The JSON text of a status: its name as a string.
pub open spec fn status_json(s: AnswerStatus) -> Seq<char> {
    match s {
        AnswerStatus::Correct => "\"Correct\""@,
        AnswerStatus::Incorrect => "\"Incorrect\""@,
        AnswerStatus::NoAnswer => "\"NoAnswer\""@,
    }
}

pub open spec fn parse_option_spec(s: Seq<char>) -> Option<OptionIndex> {
    if s == option_json(OptionIndex::One) {
        Some(OptionIndex::One)
    } else if s == option_json(OptionIndex::Two) {
        Some(OptionIndex::Two)
    } else if s == option_json(OptionIndex::Three) {
        Some(OptionIndex::Three)
    } else if s == option_json(OptionIndex::Four) {
        Some(OptionIndex::Four)
    } else {
        None
    }
}

pub open spec fn parse_status_spec(s: Seq<char>) -> Option<AnswerStatus> {
    if s == status_json(AnswerStatus::Correct) {
        Some(AnswerStatus::Correct)
    } else if s == status_json(AnswerStatus::Incorrect) {
        Some(AnswerStatus::Incorrect)
    } else if s == status_json(AnswerStatus::NoAnswer) {
        Some(AnswerStatus::NoAnswer)
    } else {
        None
    }
}

pub fn option_to_json(o: OptionIndex) -> (r: String)
    ensures
        r@ == option_json(o),
{
    match o {
        OptionIndex::One => owned("\"One\""),
        OptionIndex::Two => owned("\"Two\""),
        OptionIndex::Three => owned("\"Three\""),
        OptionIndex::Four => owned("\"Four\""),
    }
}

/// Reads an option back from the exact text that `option_to_json` writes;
/// any other text, spacing or escapes included, reads as `None`.
pub fn option_from_json(s: &String) -> (r: Option<OptionIndex>)
    ensures
        r == parse_option_spec(s@),
{
    if *s == owned("\"One\"") {
        Some(OptionIndex::One)
    } else if *s == owned("\"Two\"") {
        Some(OptionIndex::Two)
    } else if *s == owned("\"Three\"") {
        Some(OptionIndex::Three)
    } else if *s == owned("\"Four\"") {
        Some(OptionIndex::Four)
    } else {
        None
    }
}

pub fn status_to_json(s: AnswerStatus) -> (r: String)
    ensures
        r@ == status_json(s),
{
    match s {
        AnswerStatus::Correct => owned("\"Correct\""),
        AnswerStatus::Incorrect => owned("\"Incorrect\""),
        AnswerStatus::NoAnswer => owned("\"NoAnswer\""),
    }
}

/// Reads a status back from the exact text that `status_to_json` writes;
/// any other text, spacing or escapes included, reads as `None`.
pub fn status_from_json(s: &String) -> (r: Option<AnswerStatus>)
    ensures
        r == parse_status_spec(s@),
{
    if *s == owned("\"Correct\"") {
        Some(AnswerStatus::Correct)
    } else if *s == owned("\"Incorrect\"") {
        Some(AnswerStatus::Incorrect)
    } else if *s == owned("\"NoAnswer\"") {
        Some(AnswerStatus::NoAnswer)
    } else {
        None
    }
}

/// Reading back a written option gives that option.
pub proof fn lemma_option_json_round_trip(o: OptionIndex)
    ensures
        parse_option_spec(option_json(o)) == Some(o),
{
    reveal_strlit("\"One\"");
    reveal_strlit("\"Two\"");
    reveal_strlit("\"Three\"");
    reveal_strlit("\"Four\"");
    assert("\"One\""@[1] != "\"Two\""@[1]);
    assert("\"One\""@[1] != "\"Three\""@[1]);
    assert("\"Two\""@[2] != "\"Three\""@[2]);
    assert("\"One\""@.len() != "\"Four\""@.len());
    assert("\"Two\""@.len() != "\"Four\""@.len());
    assert("\"Three\""@.len() != "\"Four\""@.len());
}

/// Reading back a written status gives that status.
pub proof fn lemma_status_json_round_trip(s: AnswerStatus)
    ensures
        parse_status_spec(status_json(s)) == Some(s),
{
    reveal_strlit("\"Correct\"");
    reveal_strlit("\"Incorrect\"");
    reveal_strlit("\"NoAnswer\"");
    assert("\"Correct\""@.len() != "\"Incorrect\""@.len());
    assert("\"Correct\""@.len() != "\"NoAnswer\""@.len());
    assert("\"Incorrect\""@.len() != "\"NoAnswer\""@.len());
}

pub open spec fn opt_string_view(v: Option<String>) -> Option<Seq<char>> {
    match v {
        None => None,
        Some(s) => Some(s@),
    }
}

/// The account that an `HGETALL` reply of four fields describes:
/// `username`, its value, `password`, its value.
pub open spec fn user_from_hash_spec(id: Seq<char>, fields: Seq<Option<Seq<char>>>) -> Option<UserView> {
    if fields.len() == 4 && fields[1] is Some && fields[3] is Some {
        Some(UserView { id, username: fields[1]->Some_0, password: fields[3]->Some_0 })
    } else {
        None
    }
}

/// The account that a search reply of six items describes: its id, its
/// username and its password at the odd positions.
pub open spec fn user_from_search_spec(items: Seq<Option<Seq<char>>>) -> Option<UserView> {
    if items.len() == 6 && items[1] is Some && items[3] is Some && items[5] is Some {
        Some(UserView { id: items[1]->Some_0, username: items[3]->Some_0, password: items[5]->Some_0 })
    } else {
        None
    }
}

pub open spec fn user_view_opt(u: Option<UserModel>) -> Option<UserView> {
    match u {
        None => None,
        Some(u) => Some(u@),
    }
}

fn copy_field(v: &Option<String>) -> (r: Option<String>)
    ensures
        opt_string_view(r) == opt_string_view(*v),
{
    match v {
        None => None,
        Some(s) => Some(s.clone()),
    }
}

/// Reads an account from the fields of its hash, each `None` where the
/// reply held no text.
pub fn user_from_hash(id: &str, fields: &Vec<Option<String>>) -> (r: Option<UserModel>)
    ensures
        user_view_opt(r) == user_from_hash_spec(id@, fields@.map_values(|v: Option<String>| opt_string_view(v))),
{
    if fields.len() != 4 {
        return None;
    }
    let username = copy_field(&fields[1]);
    let password = copy_field(&fields[3]);
    match (username, password) {
        (Some(u), Some(p)) => Some(UserModel::new(owned(id), u, p)),
        _ => None,
    }
}

/// Reads an account from a search reply, each item `None` where the reply
/// held no text.
pub fn user_from_search(items: &Vec<Option<String>>) -> (r: Option<UserModel>)
    ensures
        user_view_opt(r) == user_from_search_spec(items@.map_values(|v: Option<String>| opt_string_view(v))),
{
    if items.len() != 6 {
        return None;
    }
    let id = copy_field(&items[1]);
    let username = copy_field(&items[3]);
    let password = copy_field(&items[5]);
    match (id, username, password) {
        (Some(i), Some(u), Some(p)) => Some(UserModel::new(i, u, p)),
        _ => None,
    }
}

/// The statuses that the stored values denote, skipping values that are
/// missing or denote none.
pub open spec fn statuses_spec(values: Seq<Option<Seq<char>>>) -> Seq<AnswerStatus>
    decreases values.len(),
{
    if values.len() == 0 {
        seq![]
    } else {
        let rest = statuses_spec(values.drop_last());
        match values.last() {
            Some(s) => match parse_status_spec(s) {
                Some(st) => rest.push(st),
                None => rest,
            },
            None => rest,
        }
    }
}

pub fn statuses_from_values(values: &Vec<Option<String>>) -> (r: Vec<AnswerStatus>)
    ensures
        r@ == statuses_spec(values@.map_values(|v: Option<String>| opt_string_view(v))),
{
    let ghost vs = values@.map_values(|v: Option<String>| opt_string_view(v));
    let mut out: Vec<AnswerStatus> = Vec::new();
    let mut i: usize = 0;
    while i < values.len()
        invariant
            i <= values@.len(),
            vs == values@.map_values(|v: Option<String>| opt_string_view(v)),
            out@ == statuses_spec(vs.subrange(0, i as int)),
        decreases values@.len() - i,
    {
        assert(vs.subrange(0, i as int + 1).drop_last() =~= vs.subrange(0, i as int));
        assert(vs.subrange(0, i as int + 1).last() == opt_string_view(values@[i as int]));
        match &values[i] {
            Some(s) => match status_from_json(s) {
                Some(st) => out.push(st),
                None => {},
            },
            None => {},
        }
        i = i + 1;
    }
    assert(vs.subrange(0, values@.len() as int) =~= vs);
    out
}

} // verus!
