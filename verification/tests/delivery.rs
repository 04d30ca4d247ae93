use hi_back::delivery::{advance, Action, Stage};
use hi_back::error::ReactError;
use hi_back::message::{Greeting, RenameRequest, Reply};

fn greeting() -> Greeting {
    Greeting {
        rename: RenameRequest {
            user_id: 11,
            group_id: 22,
            new_name: String::from("Alex"),
            reason: String::from("Hi back I'm bot"),
        },
        reply: Reply { message_id: 33, text: String::from("Hi Alex, I'm bot!") },
    }
}

#[test]
fn delivery_begins_with_the_rename() {
    let g = greeting();
    for flag in [true, false] {
        let (stage, action) = advance(&g, Stage::Matched, flag);
        assert_eq!(stage, Stage::RenameIssued);
        match action {
            Action::Rename(req) => assert_eq!(req, &g.rename),
            other => panic!("{:?}", other),
        }
    }
}

#[test]
fn delivery_replies_after_the_rename() {
    let g = greeting();
    let (stage, action) = advance(&g, Stage::RenameIssued, true);
    assert_eq!(stage, Stage::ReplySent);
    match action {
        Action::Reply(reply) => assert_eq!(reply, &g.reply),
        other => panic!("{:?}", other),
    }
}

#[test]
fn delivery_ends_after_the_reply() {
    let g = greeting();
    let (stage, action) = advance(&g, Stage::ReplySent, true);
    assert_eq!(stage, Stage::Done);
    assert!(matches!(action, Action::Nothing));
    assert_eq!(stage.outcome(), Some(Ok(())));
}

#[test]
fn failed_rename_sends_no_reply() {
    let g = greeting();
    let (stage, action) = advance(&g, Stage::RenameIssued, false);
    assert_eq!(stage, Stage::Dropped(ReactError::RenameFailed));
    assert!(matches!(action, Action::Nothing));
    assert_eq!(stage.outcome(), Some(Err(ReactError::RenameFailed)));
}

#[test]
fn failed_reply_is_reported() {
    let g = greeting();
    let (stage, action) = advance(&g, Stage::ReplySent, false);
    assert_eq!(stage, Stage::Dropped(ReactError::ReplyFailed));
    assert!(matches!(action, Action::Nothing));
    assert_eq!(stage.outcome(), Some(Err(ReactError::ReplyFailed)));
}

#[test]
fn finished_delivery_stays_finished() {
    let g = greeting();
    for flag in [true, false] {
        let (stage, action) = advance(&g, Stage::Done, flag);
        assert_eq!(stage, Stage::Done);
        assert!(matches!(action, Action::Nothing));
        let dropped = Stage::Dropped(ReactError::RenameFailed);
        let (stage, action) = advance(&g, dropped, flag);
        assert_eq!(stage, dropped);
        assert!(matches!(action, Action::Nothing));
    }
}

#[test]
fn delivery_under_way_has_no_outcome() {
    assert_eq!(Stage::Matched.outcome(), None);
    assert_eq!(Stage::RenameIssued.outcome(), None);
    assert_eq!(Stage::ReplySent.outcome(), None);
}

#[test]
fn whole_delivery_renames_once_and_replies_once() {
    let g = greeting();
    let mut stage = Stage::Matched;
    let mut renames = 0;
    let mut replies = 0;
    let mut steps = 0;
    loop {
        let (next, action) = advance(&g, stage, true);
        stage = next;
        steps += 1;
        match action {
            Action::Rename(_) => {
                assert_eq!(replies, 0);
                renames += 1;
            }
            Action::Reply(_) => replies += 1,
            Action::Nothing => break,
        }
    }
    assert_eq!((renames, replies, steps), (1, 1, 3));
    assert_eq!(stage, Stage::Done);
}
