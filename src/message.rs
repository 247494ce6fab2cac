//! The interactive message: header mentions, run metadata and the two
//! decision buttons, and how it reads once a decision is recorded.
use vstd::prelude::*;
use vstd::string::*;
use slack_morphism::SlackTextFormat;
use slack_morphism::SlackUserGroupId;
use slack_morphism::SlackUserId;

use crate::github_inputs::GitHubInputs;
use crate::run_info::action_url_of;
use crate::run_info::repository_url_of;
use crate::run_info::GitHubInfo;

verus! {

/// Action identifier of the Approve button.
pub const APPROVE_ACTION_ID: &'static str = "slack-approval-approve";

/// Action identifier of the Reject button.
pub const REJECT_ACTION_ID: &'static str = "slack-approval-reject";

/// How a button is drawn.
#[derive(Debug, Clone, Copy, PartialEq, Eq)]
pub enum ButtonStyle {
    Primary,
    Danger,
}

/// A button of an actions block.
#[derive(Debug, PartialEq, Eq)]
pub struct Button {
    pub action_id: String,
    pub label: String,
    pub style: ButtonStyle,
    pub value: String,
}

/// One block of the message.
#[derive(Debug, PartialEq, Eq)]
pub enum Block {
    /// A section holding one markdown text.
    Section(String),
    /// A section holding markdown fields, shown side by side.
    Fields(Vec<String>),
    /// A row of buttons.
    Actions(Vec<Button>),
}

/// A button as a mathematical value.
pub struct ButtonView {
    pub action_id: Seq<char>,
    pub label: Seq<char>,
    pub style: ButtonStyle,
    pub value: Seq<char>,
}

/// A block as a mathematical value.
pub enum BlockView {
    Section(Seq<char>),
    Fields(Seq<Seq<char>>),
    Actions(Seq<ButtonView>),
}

impl View for Button {
    type V = ButtonView;

    open spec fn view(&self) -> ButtonView {
        ButtonView {
            action_id: self.action_id@,
            label: self.label@,
            style: self.style,
            value: self.value@,
        }
    }
}

impl View for Block {
    type V = BlockView;

    open spec fn view(&self) -> BlockView {
        match self {
            Block::Section(t) => BlockView::Section(t@),
            Block::Fields(f) => BlockView::Fields(f.deep_view()),
            Block::Actions(b) => BlockView::Actions(b@.map_values(|x: Button| x@)),
        }
    }
}

/// The blocks as mathematical values.
pub open spec fn blocks_view(blocks: Seq<Block>) -> Seq<BlockView> {
    blocks.map_values(|b: Block| b@)
}

/// How a user is mentioned: `<@id>`.
pub open spec fn user_mention(id: Seq<char>) -> Seq<char> {
    "<@"@ + id + ">"@
}

/// How a user group is mentioned: `<!subteam^id>`.
pub open spec fn group_mention(id: Seq<char>) -> Seq<char> {
    "<!subteam^"@ + id + ">"@
}

/// The parts separated by single spaces.
pub open spec fn join_spaced(parts: Seq<Seq<char>>) -> Seq<char>
    decreases parts.len(),
{
    if parts.len() == 0 {
        Seq::empty()
    } else if parts.len() == 1 {
        parts[0]
    } else {
        join_spaced(parts.drop_last()) + seq![' '] + parts.last()
    }
}

/// The header line: the user mentions, then the group mentions.
pub open spec fn header_of(users: Seq<Seq<char>>, groups: Seq<Seq<char>>) -> Seq<char> {
    join_spaced(users.map_values(|u: Seq<char>| user_mention(u)) + groups.map_values(|g: Seq<char>| group_mention(g)))
}

/// The six metadata fields, in their fixed order.
pub open spec fn fields_of(info: &GitHubInfo) -> Seq<Seq<char>> {
    seq![
        "*Actor:*\n"@ + info.github_actor@,
        "*Repository:*\n"@ + repository_url_of(info.github_server_url@, info.github_repository@),
        "*Action:*\n"@ + action_url_of(info.github_server_url@, info.github_repository@, info.github_run_id@),
        "*Run ID:*\n"@ + info.github_run_id@,
        "*Workflow:*\n"@ + info.github_workflow@,
        "*Runner:*\n"@ + info.runner_os@,
    ]
}

/// The two decision buttons, Approve first.
pub open spec fn buttons_spec() -> Seq<ButtonView> {
    seq![
        ButtonView {
            action_id: APPROVE_ACTION_ID@,
            label: "Approve"@,
            style: ButtonStyle::Primary,
            value: "approve"@,
        },
        ButtonView {
            action_id: REJECT_ACTION_ID@,
            label: "Reject"@,
            style: ButtonStyle::Danger,
            value: "reject"@,
        },
    ]
}

/// The whole message: header section, metadata fields, buttons.
pub open spec fn content_of(inputs: &GitHubInputs, info: &GitHubInfo) -> Seq<BlockView> {
    seq![
        BlockView::Section(header_of(inputs.mention_to_users.deep_view(), inputs.mention_to_groups.deep_view())),
        BlockView::Fields(fields_of(info)),
        BlockView::Actions(buttons_spec()),
    ]
}

/// Relies on slack_morphism's `SlackTextFormat` impl for `SlackUserId`,
/// which renders `<@id>`.
#[verifier::external_body]
fn user_mention_text(id: &String) -> (r: String)
    ensures
        r@ == user_mention(id@),
{
    SlackUserId::new(id.clone()).to_slack_format()
}

/// Relies on slack_morphism's `SlackTextFormat` impl for `SlackUserGroupId`,
/// which renders `<!subteam^id>`.
#[verifier::external_body]
fn group_mention_text(id: &String) -> (r: String)
    ensures
        r@ == group_mention(id@),
{
    SlackUserGroupId::new(id.clone()).to_slack_format()
}

proof fn lemma_join_push(parts: Seq<Seq<char>>, p: Seq<char>)
    ensures
        join_spaced(parts.push(p)) == if parts.len() == 0 {
            p
        } else {
            join_spaced(parts) + seq![' '] + p
        },
{
    assert(parts.push(p).drop_last() =~= parts);
}

/// The header line: user mentions followed by group mentions, separated by
/// single spaces; empty when both lists are.
pub fn build_header(users: &Vec<String>, groups: &Vec<String>) -> (r: String)
    ensures
        r@ == header_of(users.deep_view(), groups.deep_view()),
        users.len() == 0 && groups.len() == 0 ==> r@.len() == 0,
{
    let ghost um = users.deep_view().map_values(|u: Seq<char>| user_mention(u));
    let ghost gm = groups.deep_view().map_values(|g: Seq<char>| group_mention(g));
    let ghost parts = um + gm;
    let mut header = String::new();
    let mut i: usize = 0;
    while i < users.len()
        invariant
            i <= users.len(),
            um == users.deep_view().map_values(|u: Seq<char>| user_mention(u)),
            header@ == join_spaced(um.take(i as int)),
        decreases users.len() - i,
    {
        let m = user_mention_text(&users[i]);
        proof {
            assert(um[i as int] == m@);
            assert(um.take(i as int + 1) =~= um.take(i as int).push(m@));
            lemma_join_push(um.take(i as int), m@);
            reveal_strlit(" ");
        }
        if i > 0 {
            header.append(" ");
        }
        header.append(m.as_str());
        i = i + 1;
    }
    proof {
        assert(um.take(users.len() as int) =~= parts.take(users.len() as int));
    }
    let mut j: usize = 0;
    while j < groups.len()
        invariant
            j <= groups.len(),
            um.len() == users.len(),
            gm == groups.deep_view().map_values(|g: Seq<char>| group_mention(g)),
            parts == um + gm,
            header@ == join_spaced(parts.take(users.len() + j)),
        decreases groups.len() - j,
    {
        let m = group_mention_text(&groups[j]);
        proof {
            let k = users.len() + j;
            assert(parts[k] == gm[j as int]);
            assert(parts.take(k + 1) =~= parts.take(k).push(m@));
            lemma_join_push(parts.take(k), m@);
            reveal_strlit(" ");
        }
        if users.len() > 0 || j > 0 {
            header.append(" ");
        }
        header.append(m.as_str());
        j = j + 1;
    }
    proof {
        assert(parts.take(parts.len() as int) =~= parts);
    }
    header
}

/// `label` followed by `value`.
fn labelled(label: &str, value: &String) -> (r: String)
    ensures
        r@ == label@ + value@,
{
    let mut r = String::from_str(label);
    r.append(value.as_str());
    r
}

/// A button with the given fields.
fn button(action_id: &str, label: &str, style: ButtonStyle, value: &str) -> (r: Button)
    ensures
        r@ == (ButtonView { action_id: action_id@, label: label@, style: style, value: value@ }),
{
    Button {
        action_id: String::from_str(action_id),
        label: String::from_str(label),
        style,
        value: String::from_str(value),
    }
}

/// Composes the message that asks for a decision: the header mentions, the
/// six metadata fields of the run, and the Approve and Reject buttons.
pub fn build_content(inputs: &GitHubInputs, info: &GitHubInfo) -> (r: Vec<Block>)
    ensures
        blocks_view(r@) == content_of(inputs, info),
        r.len() == 3,
        inputs.mention_to_users.len() == 0 && inputs.mention_to_groups.len() == 0
            ==> blocks_view(r@)[0] == BlockView::Section(Seq::empty()),
{
    let header = build_header(&inputs.mention_to_users, &inputs.mention_to_groups);
    let mut fields: Vec<String> = Vec::new();
    fields.push(labelled("*Actor:*\n", &info.github_actor));
    fields.push(labelled("*Repository:*\n", &info.repository_url()));
    fields.push(labelled("*Action:*\n", &info.action_url()));
    fields.push(labelled("*Run ID:*\n", &info.github_run_id));
    fields.push(labelled("*Workflow:*\n", &info.github_workflow));
    fields.push(labelled("*Runner:*\n", &info.runner_os));
    let mut buttons: Vec<Button> = Vec::new();
    buttons.push(button(APPROVE_ACTION_ID, "Approve", ButtonStyle::Primary, "approve"));
    buttons.push(button(REJECT_ACTION_ID, "Reject", ButtonStyle::Danger, "reject"));
    let mut blocks: Vec<Block> = Vec::new();
    blocks.push(Block::Section(header));
    blocks.push(Block::Fields(fields));
    blocks.push(Block::Actions(buttons));
    proof {
        assert(fields.deep_view() =~= fields_of(info));
        assert(buttons@.map_values(|x: Button| x@) =~= buttons_spec());
        assert(blocks_view(blocks@) =~= content_of(inputs, info));
    }
    blocks
}

impl Button {
    /// A copy of this button.
    pub fn duplicate(&self) -> (r: Button)
        ensures
            r@ == self@,
    {
        Button {
            action_id: self.action_id.clone(),
            label: self.label.clone(),
            style: self.style,
            value: self.value.clone(),
        }
    }
}

impl Block {
    /// A copy of this block.
    pub fn duplicate(&self) -> (r: Block)
        ensures
            r@ == self@,
    {
        match self {
            Block::Section(t) => Block::Section(t.clone()),
            Block::Fields(f) => Block::Fields(f.clone()),
            Block::Actions(b) => {
                let mut out: Vec<Button> = Vec::new();
                let mut i: usize = 0;
                while i < b.len()
                    invariant
                        i <= b.len(),
                        out.len() == i,
                        forall|j: int| 0 <= j < i ==> out@[j]@ == b@[j]@,
                    decreases b.len() - i,
                {
                    out.push(b[i].duplicate());
                    i = i + 1;
                }
                proof {
                    assert(out@.map_values(|x: Button| x@) =~= b@.map_values(|x: Button| x@));
                }
                Block::Actions(out)
            },
        }
    }
}

/// A copy of the first `n` blocks.
pub fn copy_blocks(blocks: &Vec<Block>, n: usize) -> (r: Vec<Block>)
    requires
        n <= blocks.len(),
    ensures
        blocks_view(r@) == blocks_view(blocks@).take(n as int),
{
    let mut out: Vec<Block> = Vec::new();
    let mut i: usize = 0;
    while i < n
        invariant
            i <= n <= blocks.len(),
            out.len() == i,
            forall|j: int| 0 <= j < i ==> out@[j]@ == blocks@[j]@,
        decreases n - i,
    {
        out.push(blocks[i].duplicate());
        i = i + 1;
    }
    proof {
        assert(blocks_view(out@) =~= blocks_view(blocks@).take(n as int));
    }
    out
}

} // verus!
