use slack_approval::authorization::collect_authorized_users;
use slack_approval::authorization::is_authorized_user;
use slack_approval::github_inputs::GitHubInputs;
use slack_approval::listener::classify_action;
use slack_approval::listener::exit_code;
use slack_approval::listener::ApprovalListener;
use slack_approval::listener::ApprovalRequest;
use slack_approval::listener::Decision;
use slack_approval::listener::InteractionEvent;
use slack_approval::listener::ListenerError;
use slack_approval::listener::Outcome;
use slack_approval::listener::Phase;
use slack_approval::listener::Step;
use slack_approval::message::build_content;
use slack_approval::message::build_header;
use slack_approval::message::Block;
use slack_approval::message::ButtonStyle;
use slack_approval::message::APPROVE_ACTION_ID;
use slack_approval::message::REJECT_ACTION_ID;
use slack_approval::run_info::GitHubInfo;

fn strings(v: &[&str]) -> Vec<String> {
    v.iter().map(|s| s.to_string()).collect()
}

fn info() -> GitHubInfo {
    GitHubInfo {
        github_server_url: "https://github.com".into(),
        github_repository: "octocat/Hello-World".into(),
        github_run_id: "42".into(),
        github_workflow: "Hello-World-Workflow".into(),
        runner_os: "Linux".into(),
        github_actor: "octocat".into(),
    }
}

fn inputs(users: &[&str], groups: &[&str], authorized_users: &[&str], authorized_groups: &[&str]) -> GitHubInputs {
    GitHubInputs {
        bot_token: "xoxb".into(),
        app_token: "xapp".into(),
        channel_id: "C1".into(),
        mention_to_users: strings(users),
        mention_to_groups: strings(groups),
        authorized_users: strings(authorized_users),
        authorized_groups: strings(authorized_groups),
    }
}

fn press(actor: &str, action_id: &str) -> InteractionEvent {
    InteractionEvent::BlockActions { actor: actor.into(), action_ids: strings(&[action_id]) }
}

fn listener(authorized_users: &[&str], group_members: Vec<Vec<String>>) -> ApprovalListener {
    let config = inputs(&["U1"], &[], authorized_users, &[]);
    let set = collect_authorized_users(&config.authorized_users, &group_members);
    ApprovalListener::new(
        ApprovalRequest {
            channel_id: "C1".into(),
            ts: "1700000000.000100".into(),
            blocks: build_content(&config, &info()),
        },
        set,
    )
}

fn sorted(mut v: Vec<String>) -> Vec<String> {
    v.sort();
    v
}

#[test]
fn should_read_github_info() {
    let actual = info();
    assert_eq!(actual.action_url(), "https://github.com/octocat/Hello-World/actions/runs/42");
    assert_eq!(actual.repository_url(), "https://github.com/octocat/Hello-World");
}

#[test]
fn resolve_unions_users_and_group_members_without_duplicates() {
    let set = collect_authorized_users(
        &strings(&["U1", "U2", "U1"]),
        &vec![strings(&["U2", "U3"]), strings(&["U4", "U3"])],
    );
    assert_eq!(set.len(), 4);
    assert_eq!(sorted(set.members()), strings(&["U1", "U2", "U3", "U4"]));
}

#[test]
fn resolve_of_empty_lists_admits_anyone() {
    let set = collect_authorized_users(&vec![], &vec![]);
    assert_eq!(set.len(), 0);
    assert!(is_authorized_user(&"U1".to_string(), &set));
    assert!(is_authorized_user(&"".to_string(), &set));
}

#[test]
fn test_is_authorized_user() {
    let none = collect_authorized_users(&vec![], &vec![]);
    assert!(is_authorized_user(&"U1".to_string(), &none));
    let others = collect_authorized_users(&strings(&["U2", "U3"]), &vec![]);
    assert!(!is_authorized_user(&"U1".to_string(), &others));
    let with = collect_authorized_users(&strings(&["U2", "U1"]), &vec![]);
    assert!(is_authorized_user(&"U1".to_string(), &with));
}

#[test]
fn header_mentions_users_then_groups() {
    assert_eq!(build_header(&strings(&["U1", "U2"]), &strings(&["G1"])), "<@U1> <@U2> <!subteam^G1>");
    assert_eq!(build_header(&vec![], &strings(&["G1", "G2"])), "<!subteam^G1> <!subteam^G2>");
    assert_eq!(build_header(&strings(&["U1"]), &vec![]), "<@U1>");
}

#[test]
fn content_with_empty_mentions_keeps_fields_and_buttons() {
    let blocks = build_content(&inputs(&[], &[], &[], &[]), &info());
    assert_eq!(blocks.len(), 3);
    assert_eq!(blocks[0], Block::Section(String::new()));
    match &blocks[1] {
        Block::Fields(f) => assert_eq!(
            f,
            &strings(&[
                "*Actor:*\noctocat",
                "*Repository:*\nhttps://github.com/octocat/Hello-World",
                "*Action:*\nhttps://github.com/octocat/Hello-World/actions/runs/42",
                "*Run ID:*\n42",
                "*Workflow:*\nHello-World-Workflow",
                "*Runner:*\nLinux",
            ])
        ),
        other => panic!("unexpected block {:?}", other),
    }
    match &blocks[2] {
        Block::Actions(b) => {
            assert_eq!(b.len(), 2);
            assert_eq!(b[0].action_id, APPROVE_ACTION_ID);
            assert_eq!(b[0].label, "Approve");
            assert_eq!(b[0].style, ButtonStyle::Primary);
            assert_eq!(b[0].value, "approve");
            assert_eq!(b[1].action_id, REJECT_ACTION_ID);
            assert_eq!(b[1].label, "Reject");
            assert_eq!(b[1].style, ButtonStyle::Danger);
            assert_eq!(b[1].value, "reject");
        }
        other => panic!("unexpected block {:?}", other),
    }
}

#[test]
fn classify_action_knows_the_two_buttons() {
    assert_eq!(classify_action(&"slack-approval-approve".to_string()), Some(Decision::Approve));
    assert_eq!(classify_action(&"slack-approval-reject".to_string()), Some(Decision::Reject));
    assert_eq!(classify_action(&"slack-approval-later".to_string()), None);
}

#[test]
fn authorized_approve_edits_once_and_exits_zero() {
    let mut l = listener(&["U10", "U11"], vec![]);
    let step = l.handle_event(&press("U10", APPROVE_ACTION_ID)).unwrap();
    match step {
        Step::Edit { channel_id, ts, blocks } => {
            assert_eq!(channel_id, "C1");
            assert_eq!(ts, "1700000000.000100");
            assert_eq!(blocks.len(), 3);
            assert_eq!(blocks[2], Block::Section("Approved by U10".into()));
            assert!(matches!(blocks[1], Block::Fields(_)));
        }
        other => panic!("unexpected step {:?}", other),
    }
    assert_eq!(l.phase(), &Phase::Resolving(Outcome::Approved("U10".into())));
    let outcome = l.confirm_edit().unwrap();
    assert_eq!(outcome, Outcome::Approved("U10".into()));
    assert_eq!(exit_code(&outcome), 0);
    assert_eq!(l.phase(), &Phase::Terminated(Outcome::Approved("U10".into())));
    assert_eq!(l.handle_event(&press("U11", REJECT_ACTION_ID)), Ok(Step::Ignored));
    assert_eq!(l.confirm_edit(), None);
}

#[test]
fn authorized_reject_exits_one() {
    let mut l = listener(&[], vec![]);
    match l.handle_event(&press("U5", REJECT_ACTION_ID)).unwrap() {
        Step::Edit { blocks, .. } => assert_eq!(blocks[2], Block::Section("Rejected by U5".into())),
        other => panic!("unexpected step {:?}", other),
    }
    let outcome = l.confirm_edit().unwrap();
    assert_eq!(outcome, Outcome::Rejected("U5".into()));
    assert_eq!(exit_code(&outcome), 1);
}

#[test]
fn unauthorized_reject_posts_notice_and_stays_posted() {
    let mut l = listener(&[], vec![strings(&["U20"])]);
    let before: Vec<Block> = l.blocks().iter().map(|b| b.duplicate()).collect();
    let step = l.handle_event(&press("U99", REJECT_ACTION_ID)).unwrap();
    assert_eq!(
        step,
        Step::Notify {
            channel_id: "C1".into(),
            text: "You are not authorized to reject this action: U99".into(),
        }
    );
    assert_eq!(l.phase(), &Phase::Posted);
    assert_eq!(l.blocks(), &before);
    assert_eq!(l.confirm_edit(), None);
}

#[test]
fn unauthorized_approve_notice_names_the_action() {
    let mut l = listener(&["U10"], vec![]);
    assert_eq!(
        l.handle_event(&press("U99", APPROVE_ACTION_ID)),
        Ok(Step::Notify {
            channel_id: "C1".into(),
            text: "You are not authorized to approve this action: U99".into(),
        })
    );
}

#[test]
fn unknown_actions_and_empty_presses_are_ignored() {
    let mut l = listener(&["U10"], vec![]);
    assert_eq!(l.handle_event(&press("U10", "slack-approval-later")), Ok(Step::Ignored));
    let empty = InteractionEvent::BlockActions { actor: "U10".into(), action_ids: vec![] };
    assert_eq!(l.handle_event(&empty), Ok(Step::Ignored));
    assert_eq!(l.phase(), &Phase::Posted);
}

#[test]
fn other_events_are_fatal() {
    let mut l = listener(&["U10"], vec![]);
    assert_eq!(l.handle_event(&InteractionEvent::Other), Err(ListenerError::UnrecognizedEvent));
    assert_eq!(l.phase(), &Phase::Posted);
}

#[test]
fn non_terminal_events_leave_no_trace() {
    let mut a = listener(&["U10"], vec![]);
    let mut b = listener(&["U10"], vec![]);
    assert!(matches!(a.handle_event(&press("U99", APPROVE_ACTION_ID)), Ok(Step::Notify { .. })));
    assert_eq!(a.handle_event(&press("U10", "unknown")), Ok(Step::Ignored));
    assert!(matches!(a.handle_event(&press("U98", REJECT_ACTION_ID)), Ok(Step::Notify { .. })));
    let last = press("U10", REJECT_ACTION_ID);
    assert_eq!(a.handle_event(&last), b.handle_event(&last));
    assert_eq!(a.confirm_edit(), b.confirm_edit());
    assert_eq!(a.blocks(), b.blocks());
    assert_eq!(a.phase(), b.phase());
}
