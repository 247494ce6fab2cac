use slack_approval::github_inputs::read_github_inputs;
use slack_approval::github_inputs::GitHubInputs;
use slack_approval::github_inputs::RawInputs;
use slack_approval::inputs::get_input;
use slack_approval::inputs::get_list_input;
use slack_approval::inputs::get_optional_input;
use slack_approval::inputs::get_required_input;
use slack_approval::inputs::input_key;
use slack_approval::inputs::split_on_commas;
use slack_approval::inputs::InputError;
use slack_approval::inputs::InputOptions;

fn some(s: &str) -> Option<String> {
    Some(s.to_string())
}

fn strings(v: &[&str]) -> Vec<String> {
    v.iter().map(|s| s.to_string()).collect()
}

fn message_of<T>(r: Result<T, InputError>) -> Result<T, String> {
    r.map_err(|e| e.message())
}

#[test]
fn should_read_github_inputs() {
    let raw = RawInputs {
        bot_token: some("xoxb-bot-token"),
        app_token: some("xapp-app-token"),
        channel_id: some("C1234567890"),
        mention_to_users: some("U000001, U000002"),
        mention_to_groups: some("G000001, G000002, G000003"),
        authorized_users: some("U000010, U000011"),
        authorized_groups: some("G000031, G000032"),
    };
    let actual = read_github_inputs(raw).unwrap();
    let expected = GitHubInputs {
        bot_token: "xoxb-bot-token".into(),
        app_token: "xapp-app-token".into(),
        channel_id: "C1234567890".into(),
        mention_to_users: strings(&["U000001", "U000002"]),
        mention_to_groups: strings(&["G000001", "G000002", "G000003"]),
        authorized_users: strings(&["U000010", "U000011"]),
        authorized_groups: strings(&["G000031", "G000032"]),
    };
    assert_eq!(actual, expected);
}

#[test]
fn read_github_inputs_reports_first_missing_required_input() {
    let raw = RawInputs {
        bot_token: some("xoxb"),
        app_token: None,
        channel_id: some("  "),
        mention_to_users: None,
        mention_to_groups: None,
        authorized_users: None,
        authorized_groups: None,
    };
    assert_eq!(
        message_of(read_github_inputs(raw)),
        Err("Input 'app-token' is required".to_string())
    );
    let raw = RawInputs {
        bot_token: some("xoxb"),
        app_token: some("xapp"),
        channel_id: some("  "),
        mention_to_users: None,
        mention_to_groups: None,
        authorized_users: None,
        authorized_groups: None,
    };
    assert_eq!(
        read_github_inputs(raw),
        Err(InputError::Empty("channel-id".to_string()))
    );
}

#[test]
fn read_github_inputs_with_lists_unset() {
    let raw = RawInputs {
        bot_token: some(" xoxb "),
        app_token: some("xapp"),
        channel_id: some("C1"),
        mention_to_users: None,
        mention_to_groups: some(""),
        authorized_users: None,
        authorized_groups: None,
    };
    let c = read_github_inputs(raw).unwrap();
    assert_eq!(c.bot_token, "xoxb");
    assert!(c.mention_to_users.is_empty());
    assert!(c.mention_to_groups.is_empty());
    assert!(c.authorized_users.is_empty());
    assert!(c.authorized_groups.is_empty());
}

#[test]
fn input_key_upper_cases_and_replaces_spaces() {
    assert_eq!(input_key("bot-token"), "INPUT_BOT-TOKEN");
    assert_eq!(input_key("required but not set"), "INPUT_REQUIRED_BUT_NOT_SET");
}

#[test]
fn get_input_required_but_not_set() {
    let options = InputOptions { required: true, trim_whitespace: true };
    assert_eq!(
        message_of(get_input("required but not set", None, &options)),
        Err("Input 'required but not set' is required".to_string())
    );
}

#[test]
fn get_input_required_but_empty() {
    let options = InputOptions { required: true, trim_whitespace: true };
    assert_eq!(
        message_of(get_input("required but empty", some(""), &options)),
        Err("Input 'required but empty' cannot be empty".to_string())
    );
}

#[test]
fn get_input_required_and_trimmed() {
    let options = InputOptions { required: true, trim_whitespace: true };
    assert_eq!(get_input("required and trimmed", some(" va lue  "), &options), Ok(some("va lue")));
}

#[test]
fn get_input_required_but_not_trimmed() {
    let options = InputOptions { required: true, trim_whitespace: false };
    assert_eq!(get_input("required but not trimmed", some(" va lue  "), &options), Ok(some(" va lue  ")));
}

#[test]
fn get_input_optional_cases() {
    let plain = InputOptions { required: false, trim_whitespace: false };
    let trim = InputOptions { required: false, trim_whitespace: true };
    assert_eq!(get_input("optional but not set", None, &plain), Ok(None));
    assert_eq!(get_input("optional but empty", some(""), &plain), Ok(some("")));
    assert_eq!(get_input("optional and trimmed", some(" va lue  "), &trim), Ok(some("va lue")));
    assert_eq!(get_input("optional but not trimmed", some(" va lue  "), &plain), Ok(some(" va lue  ")));
}

#[test]
fn get_list_input_cases() {
    assert_eq!(get_list_input("required but not set", None), Ok(vec![]));
    assert_eq!(get_list_input("required but empty", some("")), Ok(vec![]));
    assert_eq!(get_list_input("values", some("v1, v2, v3")), Ok(strings(&["v1", "v2", "v3"])));
    assert_eq!(get_list_input("values with empty", some("v1, , v3")), Ok(strings(&["v1", "v3"])));
    assert_eq!(get_list_input("edges", some(" ,a ,, b,")), Ok(strings(&["a", "b"])));
}

#[test]
fn split_on_commas_keeps_empty_pieces() {
    assert_eq!(split_on_commas(""), strings(&[""]));
    assert_eq!(split_on_commas("a,,b"), strings(&["a", "", "b"]));
    assert_eq!(split_on_commas(",é,"), strings(&["", "é", ""]));
}

#[test]
fn get_optional_input_cases() {
    assert_eq!(get_optional_input("none", None).unwrap(), None);
    assert_eq!(get_optional_input("empty", some("")).unwrap(), some(""));
    assert_eq!(get_optional_input("value", some("value")).unwrap(), some("value"));
}

#[test]
fn get_required_input_cases() {
    assert_eq!(message_of(get_required_input("none", None)), Err("Input 'none' is required".to_string()));
    assert_eq!(message_of(get_required_input("empty", some(""))), Err("Input 'empty' cannot be empty".to_string()));
    assert_eq!(get_required_input("value", some("value")), Ok("value".to_string()));
    assert_eq!(get_required_input("padded", some("\t value \n")), Ok("value".to_string()));
}
