use gritea::repo::CommitStatusState;

#[test]
fn commit_status_state_serialize() {
    let objs = vec![
        CommitStatusState::Pending,
        CommitStatusState::Success,
        CommitStatusState::Error,
        CommitStatusState::Failure,
        CommitStatusState::Warning,
    ];
    let reprs = vec![
        "\"pending\"",
        "\"success\"",
        "\"error\"",
        "\"failure\"",
        "\"warning\"",
    ];

    for (obj, repr) in objs.iter().zip(reprs.iter()) {
        let res_repr = obj.to_json();
        assert_eq!(&res_repr, repr);
    }
}

#[test]
fn commit_status_state_decodes_what_it_encodes() {
    let all = [
        CommitStatusState::Pending,
        CommitStatusState::Success,
        CommitStatusState::Error,
        CommitStatusState::Failure,
        CommitStatusState::Warning,
    ];
    for state in all.iter() {
        assert_eq!(CommitStatusState::from_json(&state.to_json()), Some(*state));
    }
}

#[test]
fn commit_status_state_is_valid_json() {
    let text = CommitStatusState::Failure.to_json();
    let decoded: String = serde_json::from_str(&text).unwrap();
    assert_eq!(decoded, "failure");
    assert_eq!(CommitStatusState::Warning.as_str(), "warning");
}

#[test]
fn commit_status_state_rejects_other_text() {
    assert_eq!(CommitStatusState::from_json("pending"), None);
    assert_eq!(CommitStatusState::from_json("\"Pending\""), None);
    assert_eq!(CommitStatusState::from_json(" \"pending\""), None);
    assert_eq!(CommitStatusState::from_json(""), None);
}
