use segon::models::{AnswerStatus, OptionIndex};
use segon::redis_store::{
    answer_key, answer_status_key, answer_status_pattern, option_from_json, option_to_json,
    score_key, status_from_json, status_to_json, statuses_from_values, user_from_hash,
    user_from_search, user_key,
};

#[test]
fn keys_follow_the_layout() {
    assert_eq!(user_key("42"), "user:42");
    assert_eq!(answer_key("42", "What?"), "answer:42:What?");
    assert_eq!(answer_status_key("42", "What?"), "answer_status:42:What?");
    assert_eq!(answer_status_pattern("42"), "answer_status:42:*");
    assert_eq!(score_key("42"), "score:42");
}

#[test]
fn values_are_json_names() {
    assert_eq!(option_to_json(OptionIndex::Three), "\"Three\"");
    assert_eq!(status_to_json(AnswerStatus::NoAnswer), "\"NoAnswer\"");
    for o in [OptionIndex::One, OptionIndex::Two, OptionIndex::Three, OptionIndex::Four] {
        assert_eq!(option_from_json(&option_to_json(o)), Some(o));
    }
    for s in [AnswerStatus::Correct, AnswerStatus::Incorrect, AnswerStatus::NoAnswer] {
        assert_eq!(status_from_json(&status_to_json(s)), Some(s));
    }
    assert_eq!(option_from_json(&"One".to_string()), None);
    assert_eq!(status_from_json(&"\"Right\"".to_string()), None);
}

#[test]
fn accounts_are_read_from_replies() {
    let fields = vec![
        Some("username".to_string()),
        Some("ann".to_string()),
        Some("password".to_string()),
        Some("hash".to_string()),
    ];
    let user = user_from_hash("7", &fields).unwrap();
    assert_eq!((user.id(), user.username(), user.password()), ("7", "ann", "hash"));
    assert!(user_from_hash("7", &fields[..3].to_vec()).is_none());
    let mut broken = fields.clone();
    broken[3] = None;
    assert!(user_from_hash("7", &broken).is_none());

    let items = vec![
        Some("1".to_string()),
        Some("9".to_string()),
        Some("username".to_string()),
        Some("bob".to_string()),
        Some("password".to_string()),
        Some("h".to_string()),
    ];
    let user = user_from_search(&items).unwrap();
    assert_eq!((user.id(), user.username(), user.password()), ("9", "bob", "h"));
    assert!(user_from_search(&vec![]).is_none());
}

#[test]
fn statuses_skip_missing_and_unknown_values() {
    let values = vec![
        Some("\"Correct\"".to_string()),
        None,
        Some("junk".to_string()),
        Some("\"Incorrect\"".to_string()),
    ];
    assert_eq!(
        statuses_from_values(&values),
        vec![AnswerStatus::Correct, AnswerStatus::Incorrect]
    );
}
