//! The configuration of one approval request, read from the workflow's inputs.
use vstd::prelude::*;

use crate::inputs::get_list_input;
use crate::inputs::get_required_input;
use crate::inputs::list_spec;
use crate::inputs::opt_view;
use crate::inputs::required_spec;
use crate::inputs::InputError;
use crate::inputs::InputErrorView;

verus! {

/// The validated configuration of one approval request.
#[derive(Debug, PartialEq, Eq)]
pub struct GitHubInputs {
    pub bot_token: String,
    pub app_token: String,
    pub channel_id: String,
    pub mention_to_users: Vec<String>,
    pub mention_to_groups: Vec<String>,
    pub authorized_users: Vec<String>,
    pub authorized_groups: Vec<String>,
}

/// Names of the inputs, as the workflow declares them.
pub const BOT_TOKEN_INPUT: &'static str = "bot-token";
pub const APP_TOKEN_INPUT: &'static str = "app-token";
pub const CHANNEL_ID_INPUT: &'static str = "channel-id";
pub const MENTION_TO_USERS_INPUT: &'static str = "mention-to-users";
pub const MENTION_TO_GROUPS_INPUT: &'static str = "mention-to-groups";
pub const AUTHORIZED_USERS_INPUT: &'static str = "authorized-users";
pub const AUTHORIZED_GROUPS_INPUT: &'static str = "authorized-groups";

/// The raw value of each input, `None` where it is not set.
#[derive(Debug, PartialEq, Eq)]
pub struct RawInputs {
    pub bot_token: Option<String>,
    pub app_token: Option<String>,
    pub channel_id: Option<String>,
    pub mention_to_users: Option<String>,
    pub mention_to_groups: Option<String>,
    pub authorized_users: Option<String>,
    pub authorized_groups: Option<String>,
}

/// The three required inputs are all set and not blank.
pub open spec fn required_ok(raw: RawInputs) -> bool {
    required_spec(BOT_TOKEN_INPUT@, opt_view(raw.bot_token)) is Ok
        && required_spec(APP_TOKEN_INPUT@, opt_view(raw.app_token)) is Ok
        && required_spec(CHANNEL_ID_INPUT@, opt_view(raw.channel_id)) is Ok
}

/// The error for the first required input, in the order bot token, app
/// token, channel, that is missing or blank.
pub open spec fn first_error(raw: RawInputs) -> Result<Option<Seq<char>>, InputErrorView> {
    if required_spec(BOT_TOKEN_INPUT@, opt_view(raw.bot_token)) is Err {
        required_spec(BOT_TOKEN_INPUT@, opt_view(raw.bot_token))
    } else if required_spec(APP_TOKEN_INPUT@, opt_view(raw.app_token)) is Err {
        required_spec(APP_TOKEN_INPUT@, opt_view(raw.app_token))
    } else {
        required_spec(CHANNEL_ID_INPUT@, opt_view(raw.channel_id))
    }
}

/// Builds the configuration from the raw inputs: the bot token, app token
/// and channel are required, the four lists are optional.
pub fn read_github_inputs(raw: RawInputs) -> (r: Result<GitHubInputs, InputError>)
    ensures
        r is Ok <==> required_ok(raw),
        r matches Ok(c) ==> {
            &&& required_spec(BOT_TOKEN_INPUT@, opt_view(raw.bot_token)) == Ok::<Option<Seq<char>>, InputErrorView>(
                Some(c.bot_token@),
            )
            &&& required_spec(APP_TOKEN_INPUT@, opt_view(raw.app_token)) == Ok::<Option<Seq<char>>, InputErrorView>(
                Some(c.app_token@),
            )
            &&& required_spec(CHANNEL_ID_INPUT@, opt_view(raw.channel_id)) == Ok::<
                Option<Seq<char>>,
                InputErrorView,
            >(Some(c.channel_id@))
            &&& c.mention_to_users.deep_view() == list_spec(opt_view(raw.mention_to_users))
            &&& c.mention_to_groups.deep_view() == list_spec(opt_view(raw.mention_to_groups))
            &&& c.authorized_users.deep_view() == list_spec(opt_view(raw.authorized_users))
            &&& c.authorized_groups.deep_view() == list_spec(opt_view(raw.authorized_groups))
        },
        r matches Err(e) ==> first_error(raw) == Err::<Option<Seq<char>>, InputErrorView>(e@),
{
    let bot_token = match get_required_input(BOT_TOKEN_INPUT, raw.bot_token) {
        Ok(v) => v,
        Err(e) => {
            return Err(e);
        },
    };
    let app_token = match get_required_input(APP_TOKEN_INPUT, raw.app_token) {
        Ok(v) => v,
        Err(e) => {
            return Err(e);
        },
    };
    let channel_id = match get_required_input(CHANNEL_ID_INPUT, raw.channel_id) {
        Ok(v) => v,
        Err(e) => {
            return Err(e);
        },
    };
    let mention_to_users = match get_list_input(MENTION_TO_USERS_INPUT, raw.mention_to_users) {
        Ok(v) => v,
        Err(e) => {
            return Err(e);
        },
    };
    let mention_to_groups = match get_list_input(MENTION_TO_GROUPS_INPUT, raw.mention_to_groups) {
        Ok(v) => v,
        Err(e) => {
            return Err(e);
        },
    };
    let authorized_users = match get_list_input(AUTHORIZED_USERS_INPUT, raw.authorized_users) {
        Ok(v) => v,
        Err(e) => {
            return Err(e);
        },
    };
    let authorized_groups = match get_list_input(AUTHORIZED_GROUPS_INPUT, raw.authorized_groups) {
        Ok(v) => v,
        Err(e) => {
            return Err(e);
        },
    };
    Ok(
        GitHubInputs {
            bot_token,
            app_token,
            channel_id,
            mention_to_users,
            mention_to_groups,
            authorized_users,
            authorized_groups,
        },
    )
}

} // verus!
