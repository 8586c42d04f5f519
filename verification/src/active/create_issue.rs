//! The issue wizard: a page that collects title, author, labels and target
//! repository for a chat message and then has an issue created from it.

use vstd::prelude::*;
use vstd::string::*;

use crate::active::page::{
    ComponentError, ComponentErrorView, ComponentResult, ComponentResultView, IActiveMessage,
    IssueRequest, IssueRequestView, ModalError, ModalErrorView, PageAction, PageActionView,
    PageError, PageEvent, PageEventView,
};
use crate::util::builder::{
    ActionRow, ActionRowView, Button, ButtonStyle, ButtonView, Component, ComponentView,
    EmbedBuilder, EmbedBuilderView, EmbedField, EmbedFieldView, ModalBuilder, ModalBuilderView,
    SelectMenu, SelectMenuOption, SelectMenuOptionView, SelectMenuView, TextInputBuilder,
    TextInputBuilderView,
};
use crate::util::config::Project;
use crate::util::interaction::{
    InteractionComponent, InteractionComponentView, InteractionModal, InteractionModalView,
    Message, MessageView,
};
use crate::util::text::{
    clone_strings, decimal, is_text, join, joined, lines, push_char, push_decimal, push_wrapped,
    replace_char, replaced, split_lines, wrapped,
};

verus! {

/// Where the message that the issue is about can be read.
#[derive(Clone, Copy, Debug, PartialEq, Eq, Structural)]
pub struct SourceMessageUrl {
    pub guild: u64,
    pub channel: u64,
    pub msg: u64,
}

impl SourceMessageUrl {
    /// The permalink of the message.
    pub open spec fn spec_url(self) -> Seq<char> {
        "https://discord.com/channels/"@ + decimal(self.guild as nat) + seq!['/'] + decimal(
            self.channel as nat,
        ) + seq!['/'] + decimal(self.msg as nat)
    }

    /// Appends the permalink to `out`.
    pub fn push_to(&self, out: &mut String)
        ensures
            final(out)@ == old(out)@ + self.spec_url(),
    {
        out.append("https://discord.com/channels/");
        push_decimal(out, self.guild as u128);
        push_char(out, '/');
        push_decimal(out, self.channel as u128);
        push_char(out, '/');
        push_decimal(out, self.msg as u128);
    }

    /// The permalink of the message.
    pub fn to_string(&self) -> (url: String)
        ensures
            url@ == self.spec_url(),
    {
        let mut url = String::new();
        self.push_to(&mut url);
        url
    }
}

/// The name of a label as the issue tracker knows it.
#[derive(Clone, Debug, PartialEq, Eq)]
pub struct Label(String);

impl DeepView for Label {
    type V = Seq<char>;

    closed spec fn deep_view(&self) -> Seq<char> {
        self.0@
    }
}

impl Label {
    /// The label that a select menu value stands for: a menu value has an
    /// underscore wherever the label's name has a space.
    pub fn new(label: String) -> (made: Self)
        ensures
            made.deep_view() == replaced(label@, '_', ' '),
    {
        Label(replace_char(label.as_str(), '_', ' '))
    }

    /// The names of `labels`, separated by a comma and a space.
    pub fn list_to_str(labels: &[Self]) -> (res: String)
        ensures
            res@ == joined(Seq::new(labels@.len(), |i: int| labels@[i].deep_view()), ", "@),
    {
        let ghost names = Seq::new(labels@.len(), |i: int| labels@[i].deep_view());
        let mut res = String::new();
        let mut i: usize = 0;
        while i < labels.len()
            invariant
                i <= labels@.len(),
                names == Seq::new(labels@.len(), |i: int| labels@[i].deep_view()),
                res@ == joined(names.take(i as int), ", "@),
            decreases labels@.len() - i,
        {
            let ghost done = names.take(i as int);
            let ghost next = names.take(i + 1);
            assert(next.drop_last() =~= done);
            if i > 0 {
                res.append(", ");
            }
            res.append(labels[i].0.as_str());
            i += 1;
        }
        assert(names.take(labels@.len() as int) =~= names);
        res
    }

    /// The label's name.
    pub fn to_string(&self) -> (name: String)
        ensures
            name@ == self.deep_view(),
    {
        self.0.clone()
    }
}

/// How far the wizard has come.
#[derive(Clone, Debug, PartialEq, Eq)]
pub enum CreateIssueStatus {
    /// The user is still filling in the issue.
    Creating,
    /// The user pressed submit; the next render has the issue created.
    Ready,
    /// The issue exists.
    Done { url: String },
}

/// The mathematical value of a [`CreateIssueStatus`].
pub enum CreateIssueStatusView {
    Creating,
    Ready,
    Done { url: Seq<char> },
}

impl DeepView for CreateIssueStatus {
    type V = CreateIssueStatusView;

    open spec fn deep_view(&self) -> CreateIssueStatusView {
        match self {
            CreateIssueStatus::Creating => CreateIssueStatusView::Creating,
            CreateIssueStatus::Ready => CreateIssueStatusView::Ready,
            CreateIssueStatus::Done { url } => CreateIssueStatusView::Done { url: url@ },
        }
    }
}

impl CreateIssueStatusView {
    /// The position of the status in the order in which a wizard passes
    /// through them.
    pub open spec fn rank(self) -> nat {
        match self {
            CreateIssueStatusView::Creating => 0,
            CreateIssueStatusView::Ready => 1,
            CreateIssueStatusView::Done { .. } => 2,
        }
    }
}

/// The issue wizard.
#[derive(Clone, Debug, PartialEq, Eq)]
pub struct CreateIssue {
    author: Option<String>,
    origin_content: String,
    source: SourceMessageUrl,
    attachments: Vec<String>,
    title: Option<String>,
    repositories: Vec<(String, String)>,
    issue_types: Vec<String>,
    active_repository: String,
    labels: Vec<Label>,
    status: CreateIssueStatus,
}

/// The state of an issue wizard.
pub struct CreateIssueView {
    /// Who wrote the message, as the issue will credit them.
    pub author: Option<Seq<char>>,
    /// The text of the message.
    pub origin_content: Seq<char>,
    pub source: SourceMessageUrl,
    /// Address of each attachment of the message.
    pub attachments: Seq<Seq<char>>,
    /// The issue's title, once entered.
    pub title: Option<Seq<char>>,
    /// Display name and repository name of each repository on offer.
    pub repositories: Seq<(Seq<char>, Seq<char>)>,
    /// The labels on offer.
    pub issue_types: Seq<Seq<char>>,
    /// The repository that the issue goes to.
    pub active_repository: Seq<char>,
    /// The labels chosen.
    pub labels: Seq<Seq<char>>,
    pub status: CreateIssueStatusView,
}

impl DeepView for CreateIssue {
    type V = CreateIssueView;

    closed spec fn deep_view(&self) -> CreateIssueView {
        CreateIssueView {
            author: self.author.deep_view(),
            origin_content: self.origin_content@,
            source: self.source,
            attachments: self.attachments.deep_view(),
            title: self.title.deep_view(),
            repositories: self.repositories.deep_view(),
            issue_types: self.issue_types.deep_view(),
            active_repository: self.active_repository@,
            labels: self.labels.deep_view(),
            status: self.status.deep_view(),
        }
    }
}

/// The state of a wizard that was just opened for `msg` in `guild`, with
/// the given repositories and labels on offer.
pub open spec fn initial_state(
    msg: MessageView,
    guild: u64,
    repositories: Seq<(Seq<char>, Seq<char>)>,
    issue_types: Seq<Seq<char>>,
) -> CreateIssueView {
    CreateIssueView {
        author: Some(msg.author),
        origin_content: msg.content,
        source: SourceMessageUrl { guild, channel: msg.channel_id, msg: msg.id },
        attachments: msg.attachments,
        title: None,
        repositories,
        issue_types,
        active_repository: Seq::empty(),
        labels: Seq::empty(),
        status: CreateIssueStatusView::Creating,
    }
}

/// The text of the issue: the message quoted line by line, the list of its
/// attachments, and a line that credits the message with its permalink.
pub open spec fn issue_body(w: CreateIssueView) -> Seq<char> {
    let quote = if w.origin_content.len() == 0 {
        Seq::empty()
    } else {
        wrapped(lines(w.origin_content), "> "@, "\n"@) + "\n"@
    };
    let files = if w.attachments.len() == 0 {
        Seq::empty()
    } else {
        "Attachments:\n"@ + wrapped(w.attachments, "![attachment]("@, ")\n"@)
    };
    let credit = match w.author {
        Some(author) => "[Original message by @"@ + author + "]("@ + w.source.spec_url() + ")"@,
        None => "[Original message]("@ + w.source.spec_url() + ")"@,
    };
    quote + files + credit
}

/// What the issue tracker is asked to create for a wizard whose title is
/// `title`.
pub open spec fn issue_request(w: CreateIssueView, title: Seq<char>) -> IssueRequestView {
    IssueRequestView {
        repository: w.active_repository,
        title,
        body: issue_body(w),
        labels: w.labels,
    }
}

/// The fields of the page, in the order in which they are shown. A wizard
/// without an author shows no repository.
pub open spec fn page_fields(w: CreateIssueView) -> Seq<EmbedFieldView> {
    let message = EmbedFieldView {
        inline: true,
        name: "Message"@,
        value: "[Jump]("@ + w.source.spec_url() + ")"@,
    };
    let title = EmbedFieldView {
        inline: false,
        name: "Issue title"@,
        value: match w.title {
            Some(title) => title,
            None => "-"@,
        },
    };
    let labels = EmbedFieldView {
        inline: false,
        name: "Labels"@,
        value: if w.labels.len() == 0 {
            "-"@
        } else {
            joined(w.labels, ", "@)
        },
    };
    let repository = EmbedFieldView {
        inline: false,
        name: "Repository"@,
        value: w.active_repository,
    };
    let shown = match w.author {
        Some(author) => seq![
            message,
            EmbedFieldView { inline: true, name: "Author"@, value: "`@"@ + author + "`"@ },
            title,
            labels,
            repository,
        ],
        None => seq![message, title, labels],
    };
    match w.status {
        CreateIssueStatusView::Done { url } => shown.push(
            EmbedFieldView {
                inline: false,
                name: "Issue created"@,
                value: "[**Link**]("@ + url + ")"@,
            },
        ),
        _ => shown,
    }
}

/// The page of a wizard.
pub open spec fn page_embed(w: CreateIssueView) -> EmbedBuilderView {
    EmbedBuilderView { title: Some("Github issue builder"@), fields: page_fields(w) }
}

/// The render step of the wizard.
///
/// While the user is filling in the issue, and once the issue exists, a
/// render shows the page and changes nothing, whatever the event. After
/// submit, a render that starts asks for the issue to be created, or fails
/// where no title is set; told that the issue exists, the wizard records
/// where, and shows the page with the link; told that the creation failed,
/// the render fails and the wizard stays as it is, so that a later render
/// tries again.
pub open spec fn wizard_build_page(w: CreateIssueView, event: PageEventView) -> (
    CreateIssueView,
    PageActionView,
) {
    match w.status {
        CreateIssueStatusView::Ready => match event {
            PageEventView::Render => match w.title {
                Some(title) => (w, PageActionView::CreateIssue(issue_request(w, title))),
                None => (w, PageActionView::Failed(PageError::MissingTitle)),
            },
            PageEventView::IssueCreated { url } => {
                let done = CreateIssueView { status: CreateIssueStatusView::Done { url }, ..w };
                (done, PageActionView::Rendered(page_embed(done)))
            },
            PageEventView::IssueFailed => (w, PageActionView::Failed(PageError::CreateFailed)),
        },
        _ => (w, PageActionView::Rendered(page_embed(w))),
    }
}

/// A button that is identified by `id` and reads `label`.
pub open spec fn button_view(id: Seq<char>, label: Seq<char>, style: ButtonStyle, disabled: bool)
    -> ComponentView {
    ComponentView::Button(
        ButtonView { custom_id: Some(id), disabled, label: Some(label), style, url: None },
    )
}

/// One menu option for each repository on offer: it shows the display name
/// and stands for the repository name.
pub open spec fn repository_options(repositories: Seq<(Seq<char>, Seq<char>)>) -> Seq<
    SelectMenuOptionView,
> {
    Seq::new(
        repositories.len(),
        |i: int|
            SelectMenuOptionView {
                default: false,
                description: None,
                label: repositories[i].0,
                value: repositories[i].1,
            },
    )
}

/// One menu option for each label on offer: it shows the label and stands
/// for the label with an underscore in place of each space.
pub open spec fn label_options(issue_types: Seq<Seq<char>>) -> Seq<SelectMenuOptionView> {
    Seq::new(
        issue_types.len(),
        |i: int|
            SelectMenuOptionView {
                default: false,
                description: None,
                label: issue_types[i],
                value: replaced(issue_types[i], ' ', '_'),
            },
    )
}

/// The controls of the wizard: none once the user has pressed submit.
/// Before that, a row of three buttons (title, author, submit), the menu of
/// labels and the menu of repositories. Submit is disabled while the title
/// or the labels are missing. The menu of labels admits as many choices as
/// it has options, counted modulo 256.
pub open spec fn wizard_controls(w: CreateIssueView) -> Seq<ActionRowView> {
    if w.status is Creating {
        seq![
            ActionRowView {
                components: seq![
                    button_view("issue_title"@, "Issue title"@, ButtonStyle::Primary, false),
                    button_view("issue_author"@, "Author"@, ButtonStyle::Secondary, false),
                    button_view(
                        "issue_create"@,
                        "Create"@,
                        ButtonStyle::Success,
                        w.title is None || w.labels.len() == 0,
                    ),
                ],
            },
            ActionRowView {
                components: seq![
                    ComponentView::SelectMenu(
                        SelectMenuView {
                            custom_id: "issue_labels"@,
                            disabled: false,
                            max_values: Some((w.issue_types.len() % 256) as u8),
                            min_values: Some(1u8),
                            options: label_options(w.issue_types),
                            placeholder: Some("Select at least one label"@),
                        },
                    ),
                ],
            },
            ActionRowView {
                components: seq![
                    ComponentView::SelectMenu(
                        SelectMenuView {
                            custom_id: "issue_repository"@,
                            disabled: false,
                            max_values: Some(1u8),
                            min_values: Some(1u8),
                            options: repository_options(w.repositories),
                            placeholder: Some("Select one repository"@),
                        },
                    ),
                ],
            },
        ]
    } else {
        Seq::empty()
    }
}

/// The form that asks for the issue's title.
pub open spec fn title_modal() -> ModalBuilderView {
    ModalBuilderView {
        custom_id: "issue_title"@,
        title: "Specify a title for the issue"@,
        inputs: seq![
            TextInputBuilderView {
                custom_id: "title"@,
                label: "Title"@,
                required: Some(true),
                max_len: Some(64u16),
            },
        ],
    }
}

/// The form that asks for the author to credit.
pub open spec fn author_modal() -> ModalBuilderView {
    ModalBuilderView {
        custom_id: "issue_author"@,
        title: "Specify an author for the issue"@,
        inputs: seq![
            TextInputBuilderView {
                custom_id: "author"@,
                label: "Author"@,
                required: Some(false),
                max_len: Some(32u16),
            },
        ],
    }
}

/// The labels that the values of a select menu stand for.
pub open spec fn labels_of_values(values: Seq<Seq<char>>) -> Seq<Seq<char>> {
    Seq::new(values.len(), |i: int| replaced(values[i], '_', ' '))
}

/// The wizard's answer to a click.
///
/// The two form buttons ask for their form. The menu of repositories sets
/// the target repository to the first chosen value, and is turned down
/// where there is none. The menu of labels replaces the chosen labels by
/// those that the values stand for, and takes the values out of the click.
/// Submit moves the wizard on, and is turned down once the issue exists,
/// or while the title or the labels are missing. Any other identifier is
/// turned down with the identifier. A click that is turned down changes
/// nothing.
pub open spec fn wizard_handle_component(w: CreateIssueView, c: InteractionComponentView) -> (
    CreateIssueView,
    ComponentResultView,
    InteractionComponentView,
) {
    if c.custom_id == "issue_title"@ {
        (w, ComponentResultView::CreateModal(title_modal()), c)
    } else if c.custom_id == "issue_author"@ {
        (w, ComponentResultView::CreateModal(author_modal()), c)
    } else if c.custom_id == "issue_repository"@ {
        if c.values.len() == 0 {
            (
                w,
                ComponentResultView::Failed(ComponentErrorView::MissingValue(c.custom_id)),
                c,
            )
        } else {
            (
                CreateIssueView { active_repository: c.values[0], ..w },
                ComponentResultView::BuildPage,
                c,
            )
        }
    } else if c.custom_id == "issue_create"@ {
        if w.status is Done {
            (w, ComponentResultView::Failed(ComponentErrorView::AlreadyCreated), c)
        } else if w.title is None || w.labels.len() == 0 {
            (w, ComponentResultView::Failed(ComponentErrorView::Incomplete), c)
        } else {
            (
                CreateIssueView { status: CreateIssueStatusView::Ready, ..w },
                ComponentResultView::BuildPage,
                c,
            )
        }
    } else if c.custom_id == "issue_labels"@ {
        (
            CreateIssueView { labels: labels_of_values(c.values), ..w },
            ComponentResultView::BuildPage,
            InteractionComponentView { values: Seq::empty(), ..c },
        )
    } else {
        (w, ComponentResultView::Failed(ComponentErrorView::UnknownComponent(c.custom_id)), c)
    }
}

/// What an entered author is taken as: nothing where nothing was entered.
pub open spec fn entered_author(value: Option<Seq<char>>) -> Option<Seq<char>> {
    match value {
        Some(name) => if name.len() == 0 {
            None
        } else {
            Some(name)
        },
        None => None,
    }
}

/// The wizard's answer to a submitted form.
///
/// The title form sets the title to what its first input holds, and is
/// turned down where it has no such input. The author form sets the author
/// likewise, to nobody where nothing was entered or the input is missing.
/// Either takes the value out of the form. A form with any other
/// identifier is turned down with the identifier. A form that is turned
/// down changes nothing.
pub open spec fn wizard_handle_modal(w: CreateIssueView, m: InteractionModalView) -> (
    CreateIssueView,
    Result<(), ModalErrorView>,
    InteractionModalView,
) {
    if m.custom_id == "issue_title"@ {
        if m.has_first_input() {
            (CreateIssueView { title: m.first_value(), ..w }, Ok(()), m.without_first_value())
        } else {
            (w, Err(ModalErrorView::MissingInput), m)
        }
    } else if m.custom_id == "issue_author"@ {
        if m.has_first_input() {
            (
                CreateIssueView { author: entered_author(m.first_value()), ..w },
                Ok(()),
                m.without_first_value(),
            )
        } else {
            (CreateIssueView { author: None, ..w }, Ok(()), m)
        }
    } else {
        (w, Err(ModalErrorView::UnknownModal(m.custom_id)), m)
    }
}

/// A copy of `pairs`.
fn clone_pairs(pairs: &Vec<(String, String)>) -> (out: Vec<(String, String)>)
    ensures
        out.deep_view() == pairs.deep_view(),
{
    let mut out: Vec<(String, String)> = Vec::new();
    let mut i: usize = 0;
    while i < pairs.len()
        invariant
            i <= pairs@.len(),
            out@.len() == i,
            forall|k: int| 0 <= k < i ==> out@[k].deep_view() == pairs@[k].deep_view(),
        decreases pairs@.len() - i,
    {
        let pair = (pairs[i].0.clone(), pairs[i].1.clone());
        out.push(pair);
        i += 1;
    }
    out
}

/// A button that is identified by `id` and reads `label`.
fn button(id: &str, label: &str, style: ButtonStyle, disabled: bool) -> (made: Component)
    ensures
        made.deep_view() == button_view(id@, label@, style, disabled),
{
    Component::Button(
        Button {
            custom_id: Some(String::from_str(id)),
            disabled,
            label: Some(String::from_str(label)),
            style,
            url: None,
        },
    )
}

/// The options of the menu of repositories.
fn repository_menu_options(repositories: &Vec<(String, String)>) -> (options: Vec<
    SelectMenuOption,
>)
    ensures
        options.deep_view() == repository_options(repositories.deep_view()),
{
    let mut options: Vec<SelectMenuOption> = Vec::new();
    let mut i: usize = 0;
    while i < repositories.len()
        invariant
            i <= repositories@.len(),
            options@.len() == i,
            forall|k: int|
                0 <= k < i ==> options@[k].deep_view() == repository_options(
                    repositories.deep_view(),
                )[k],
        decreases repositories@.len() - i,
    {
        options.push(
            SelectMenuOption {
                default: false,
                description: None,
                label: repositories[i].0.clone(),
                value: repositories[i].1.clone(),
            },
        );
        i += 1;
    }
    options
}

/// The options of the menu of labels.
fn label_menu_options(issue_types: &Vec<String>) -> (options: Vec<SelectMenuOption>)
    ensures
        options.deep_view() == label_options(issue_types.deep_view()),
{
    let mut options: Vec<SelectMenuOption> = Vec::new();
    let mut i: usize = 0;
    while i < issue_types.len()
        invariant
            i <= issue_types@.len(),
            options@.len() == i,
            forall|k: int|
                0 <= k < i ==> options@[k].deep_view() == label_options(
                    issue_types.deep_view(),
                )[k],
        decreases issue_types@.len() - i,
    {
        options.push(
            SelectMenuOption {
                default: false,
                description: None,
                label: issue_types[i].clone(),
                value: replace_char(issue_types[i].as_str(), ' ', '_'),
            },
        );
        i += 1;
    }
    options
}

/// The labels that the values of a select menu stand for.
fn labels_from_values(values: &Vec<String>) -> (labels: Vec<Label>)
    ensures
        labels.deep_view() == labels_of_values(values.deep_view()),
{
    let mut labels: Vec<Label> = Vec::new();
    let mut i: usize = 0;
    while i < values.len()
        invariant
            i <= values@.len(),
            labels@.len() == i,
            forall|k: int|
                0 <= k < i ==> labels@[k].deep_view() == labels_of_values(values.deep_view())[k],
        decreases values@.len() - i,
    {
        labels.push(Label::new(values[i].clone()));
        i += 1;
    }
    labels
}

/// The names of `labels`.
fn label_names(labels: &Vec<Label>) -> (names: Vec<String>)
    ensures
        names.deep_view() == labels.deep_view(),
{
    let mut names: Vec<String> = Vec::new();
    let mut i: usize = 0;
    while i < labels.len()
        invariant
            i <= labels@.len(),
            names@.len() == i,
            forall|k: int| 0 <= k < i ==> names@[k]@ == labels@[k].deep_view(),
        decreases labels@.len() - i,
    {
        names.push(labels[i].to_string());
        i += 1;
    }
    names
}

impl CreateIssue {
    /// Opens a wizard for `msg`, which was written in `guild`. The
    /// repositories and labels on offer are those of `config`.
    pub fn new(msg: Message, guild: u64, config: &Project) -> (page: Self)
        ensures
            page.deep_view() == initial_state(
                msg.deep_view(),
                guild,
                config.github_config.repositories.deep_view(),
                config.issue_labels.issue_types.deep_view(),
            ),
    {
        let page = CreateIssue {
            author: Some(msg.author),
            origin_content: msg.content,
            source: SourceMessageUrl { guild, channel: msg.channel_id, msg: msg.id },
            attachments: msg.attachments,
            title: None,
            repositories: clone_pairs(&config.github_config.repositories),
            issue_types: clone_strings(&config.issue_labels.issue_types),
            active_repository: String::new(),
            labels: Vec::new(),
            status: CreateIssueStatus::Creating,
        };
        assert(page.labels.deep_view() =~= Seq::empty());
        page
    }
    /// How far the wizard has come.
    pub fn status(&self) -> (status: &CreateIssueStatus)
        ensures
            status.deep_view() == self.deep_view().status,
    {
        &self.status
    }

    /// The issue's title, once entered.
    pub fn title(&self) -> (title: &Option<String>)
        ensures
            title.deep_view() == self.deep_view().title,
    {
        &self.title
    }

    /// Who the issue credits for the message, if anybody.
    pub fn author(&self) -> (author: &Option<String>)
        ensures
            author.deep_view() == self.deep_view().author,
    {
        &self.author
    }

    /// The repository that the issue goes to.
    pub fn active_repository(&self) -> (repository: &String)
        ensures
            repository@ == self.deep_view().active_repository,
    {
        &self.active_repository
    }

    /// The labels chosen.
    pub fn labels(&self) -> (labels: &Vec<Label>)
        ensures
            labels.deep_view() == self.deep_view().labels,
    {
        &self.labels
    }

    /// Where the message that the issue is about can be read.
    pub fn source(&self) -> (source: SourceMessageUrl)
        ensures
            source == self.deep_view().source,
    {
        self.source
    }

    /// The text of the issue.
    fn body(&self) -> (body: String)
        ensures
            body@ == issue_body(self.deep_view()),
    {
        let mut body = String::new();
        if !self.origin_content.as_str().is_empty() {
            let quoted = split_lines(self.origin_content.as_str());
            push_wrapped(&mut body, &quoted, "> ", "\n");
            body.append("\n");
        }
        if self.attachments.len() > 0 {
            body.append("Attachments:\n");
            push_wrapped(&mut body, &self.attachments, "![attachment](", ")\n");
        }
        match &self.author {
            Some(author) => {
                body.append("[Original message by @");
                body.append(author.as_str());
                body.append("](");
            },
            None => {
                body.append("[Original message](");
            },
        }
        self.source.push_to(&mut body);
        body.append(")");
        body
    }

    /// The page as it is shown.
    fn render(&self) -> (embed: EmbedBuilder)
        ensures
            embed.deep_view() == page_embed(self.deep_view()),
    {
        let mut jump = String::from_str("[Jump](");
        self.source.push_to(&mut jump);
        jump.append(")");
        let message = EmbedField { inline: true, name: String::from_str("Message"), value: jump };
        let title = EmbedField {
            inline: false,
            name: String::from_str("Issue title"),
            value: match &self.title {
                Some(title) => title.clone(),
                None => String::from_str("-"),
            },
        };
        let labels = EmbedField {
            inline: false,
            name: String::from_str("Labels"),
            value: if self.labels.len() == 0 {
                String::from_str("-")
            } else {
                let names = label_names(&self.labels);
                join(&names, ", ")
            },
        };
        let mut fields: Vec<EmbedField> = Vec::new();
        fields.push(message);
        match &self.author {
            Some(author) => {
                let mut credit = String::from_str("`@");
                credit.append(author.as_str());
                credit.append("`");
                fields.push(
                    EmbedField { inline: true, name: String::from_str("Author"), value: credit },
                );
                fields.push(title);
                fields.push(labels);
                fields.push(
                    EmbedField {
                        inline: false,
                        name: String::from_str("Repository"),
                        value: self.active_repository.clone(),
                    },
                );
            },
            None => {
                fields.push(title);
                fields.push(labels);
            },
        }
        match &self.status {
            CreateIssueStatus::Done { url } => {
                let mut link = String::from_str("[**Link**](");
                link.append(url.as_str());
                link.append(")");
                fields.push(
                    EmbedField {
                        inline: false,
                        name: String::from_str("Issue created"),
                        value: link,
                    },
                );
            },
            _ => {},
        }
        assert(fields.deep_view() =~= page_fields(self.deep_view()));
        EmbedBuilder::new().title("Github issue builder").fields(fields)
    }
}

impl IActiveMessage for CreateIssue {
    open spec fn spec_terminal(state: CreateIssueView) -> bool {
        !(state.status is Creating)
    }

    open spec fn spec_completed(state: CreateIssueView) -> bool {
        state.status is Done
    }

    open spec fn spec_stage(state: CreateIssueView) -> nat {
        state.status.rank()
    }

    open spec fn spec_build_page(state: CreateIssueView, event: PageEventView) -> (
        CreateIssueView,
        PageActionView,
    ) {
        wizard_build_page(state, event)
    }

    open spec fn spec_build_components(state: CreateIssueView) -> Seq<ActionRowView> {
        wizard_controls(state)
    }

    open spec fn spec_handle_component(
        state: CreateIssueView,
        component: InteractionComponentView,
    ) -> (CreateIssueView, ComponentResultView, InteractionComponentView) {
        wizard_handle_component(state, component)
    }

    open spec fn spec_handle_modal(state: CreateIssueView, modal: InteractionModalView) -> (
        CreateIssueView,
        Result<(), ModalErrorView>,
        InteractionModalView,
    ) {
        wizard_handle_modal(state, modal)
    }

    fn build_page(&mut self, event: PageEvent) -> (action: PageAction) {
        let ready = match &self.status {
            CreateIssueStatus::Ready => true,
            _ => false,
        };
        if !ready {
            return PageAction::Rendered(self.render());
        }
        match event {
            PageEvent::Render => match &self.title {
                Some(title) => PageAction::CreateIssue(
                    IssueRequest {
                        repository: self.active_repository.clone(),
                        title: title.clone(),
                        body: self.body(),
                        labels: label_names(&self.labels),
                    },
                ),
                None => PageAction::Failed(PageError::MissingTitle),
            },
            PageEvent::IssueCreated { url } => {
                self.status = CreateIssueStatus::Done { url };
                PageAction::Rendered(self.render())
            },
            PageEvent::IssueFailed => PageAction::Failed(PageError::CreateFailed),
        }
    }

    fn build_components(&self) -> (rows: Vec<ActionRow>) {
        let creating = match &self.status {
            CreateIssueStatus::Creating => true,
            _ => false,
        };
        let mut rows: Vec<ActionRow> = Vec::new();
        if !creating {
            return rows;
        }
        let mut buttons: Vec<Component> = Vec::new();
        buttons.push(button("issue_title", "Issue title", ButtonStyle::Primary, false));
        buttons.push(button("issue_author", "Author", ButtonStyle::Secondary, false));
        buttons.push(
            button(
                "issue_create",
                "Create",
                ButtonStyle::Success,
                self.title.is_none() || self.labels.len() == 0,
            ),
        );
        let label_choices = label_menu_options(&self.issue_types);
        assert(label_choices.deep_view().len() == label_choices@.len());
        let label_count: usize = label_choices.len() % 256;
        let labels = SelectMenu {
            custom_id: String::from_str("issue_labels"),
            disabled: false,
            max_values: Some(label_count as u8),
            min_values: Some(1),
            options: label_choices,
            placeholder: Some(String::from_str("Select at least one label")),
        };
        let repositories = SelectMenu {
            custom_id: String::from_str("issue_repository"),
            disabled: false,
            max_values: Some(1),
            min_values: Some(1),
            options: repository_menu_options(&self.repositories),
            placeholder: Some(String::from_str("Select one repository")),
        };
        let mut label_row: Vec<Component> = Vec::new();
        label_row.push(Component::SelectMenu(labels));
        let mut repository_row: Vec<Component> = Vec::new();
        repository_row.push(Component::SelectMenu(repositories));
        let button_row = ActionRow { components: buttons };
        let label_row = ActionRow { components: label_row };
        let repository_row = ActionRow { components: repository_row };
        proof {
            let expected = wizard_controls(self.deep_view());
            assert(button_row.deep_view().components =~= expected[0].components);
            assert(label_row.deep_view().components =~= expected[1].components);
            assert(repository_row.deep_view().components =~= expected[2].components);
        }
        rows.push(button_row);
        rows.push(label_row);
        rows.push(repository_row);
        rows
    }

    fn handle_component(&mut self, component: &mut InteractionComponent) -> (result:
        ComponentResult) {
        if is_text(&component.custom_id, "issue_title") {
            let input = TextInputBuilder::new("title", "Title").required(true).max_len(64);
            let modal = ModalBuilder::new("issue_title", "Specify a title for the issue").input(
                input,
            );
            ComponentResult::CreateModal(modal)
        } else if is_text(&component.custom_id, "issue_author") {
            let input = TextInputBuilder::new("author", "Author").required(false).max_len(32);
            let modal = ModalBuilder::new("issue_author", "Specify an author for the issue").input(
                input,
            );
            ComponentResult::CreateModal(modal)
        } else if is_text(&component.custom_id, "issue_repository") {
            if component.values.len() == 0 {
                ComponentResult::Failed(
                    ComponentError::MissingValue(component.custom_id.clone()),
                )
            } else {
                self.active_repository = component.values[0].clone();
                ComponentResult::BuildPage
            }
        } else if is_text(&component.custom_id, "issue_create") {
            let done = match &self.status {
                CreateIssueStatus::Done { .. } => true,
                _ => false,
            };
            if done {
                ComponentResult::Failed(ComponentError::AlreadyCreated)
            } else if self.title.is_none() || self.labels.len() == 0 {
                ComponentResult::Failed(ComponentError::Incomplete)
            } else {
                self.status = CreateIssueStatus::Ready;
                ComponentResult::BuildPage
            }
        } else if is_text(&component.custom_id, "issue_labels") {
            self.labels = labels_from_values(&component.values);
            component.values.clear();
            assert(component.values.deep_view() =~= Seq::empty());
            ComponentResult::BuildPage
        } else {
            ComponentResult::Failed(ComponentError::UnknownComponent(component.custom_id.clone()))
        }
    }

    fn handle_modal(&mut self, modal: &mut InteractionModal) -> (result: Result<(), ModalError>) {
        if is_text(&modal.custom_id, "issue_title") {
            match modal.take_first_value() {
                Some(value) => {
                    self.title = value;
                    Ok(())
                },
                None => Err(ModalError::MissingInput),
            }
        } else if is_text(&modal.custom_id, "issue_author") {
            match modal.take_first_value() {
                Some(value) => {
                    self.author = match value {
                        Some(name) => if name.as_str().is_empty() {
                            None
                        } else {
                            Some(name)
                        },
                        None => None,
                    };
                    Ok(())
                },
                None => {
                    self.author = None;
                    Ok(())
                },
            }
        } else {
            Err(ModalError::UnknownModal(modal.custom_id.clone()))
        }
    }

    proof fn law_terminal_shows_no_controls(state: CreateIssueView) {
    }

    proof fn law_completed_render_is_stable(state: CreateIssueView, event: PageEventView) {
    }

    proof fn law_forward_only(
        state: CreateIssueView,
        event: PageEventView,
        component: InteractionComponentView,
        modal: InteractionModalView,
    ) {
    }

    proof fn law_failure_keeps_state(
        state: CreateIssueView,
        event: PageEventView,
        component: InteractionComponentView,
        modal: InteractionModalView,
    ) {
    }
}

/// Whether `id` identifies one of the wizard's controls.
pub open spec fn is_wizard_control(id: Seq<char>) -> bool {
    ||| id == "issue_title"@
    ||| id == "issue_author"@
    ||| id == "issue_repository"@
    ||| id == "issue_create"@
    ||| id == "issue_labels"@
}

/// A click on anything but the wizard's own controls is turned down with
/// the identifier it came with, and changes neither the wizard nor the
/// click, whatever state the wizard is in.
pub proof fn law_unknown_control_is_turned_down(w: CreateIssueView, c: InteractionComponentView)
    requires
        !is_wizard_control(c.custom_id),
    ensures
        wizard_handle_component(w, c) == (
            w,
            ComponentResultView::Failed(ComponentErrorView::UnknownComponent(c.custom_id)),
            c,
        ),
{
}

/// Once the user has pressed submit, and all the more once the issue
/// exists, the wizard shows no controls.
pub proof fn law_submitted_wizard_shows_no_controls(w: CreateIssueView)
    requires
        w.status is Ready || w.status is Done,
    ensures
        wizard_controls(w) == Seq::<ActionRowView>::empty(),
{
}

/// Rendering a wizard whose issue exists, twice and with nothing in
/// between, shows the same page both times, asks for no issue, and leaves
/// the wizard as it was, whatever the renders are told.
pub proof fn law_completed_render_is_idempotent(
    w: CreateIssueView,
    first: PageEventView,
    second: PageEventView,
)
    requires
        w.status is Done,
    ensures
        wizard_build_page(w, first).0 == w,
        wizard_build_page(wizard_build_page(w, first).0, second).0 == w,
        wizard_build_page(w, first).1 == PageActionView::Rendered(page_embed(w)),
        wizard_build_page(wizard_build_page(w, first).0, second).1 == wizard_build_page(
            w,
            first,
        ).1,
{
}

/// The wizard only moves forward: whatever it is told, its status never
/// falls back, and it leaves the first status only through submit with a
/// title and at least one label, and the second only by being told that
/// the issue exists.
pub proof fn law_wizard_moves_forward(
    w: CreateIssueView,
    event: PageEventView,
    c: InteractionComponentView,
    m: InteractionModalView,
)
    ensures
        wizard_build_page(w, event).0.status.rank() >= w.status.rank(),
        wizard_handle_component(w, c).0.status.rank() >= w.status.rank(),
        wizard_handle_modal(w, m).0.status == w.status,
        wizard_handle_component(w, c).0.status != w.status ==> w.status is Creating
            && wizard_handle_component(w, c).0.status is Ready && c.custom_id == "issue_create"@
            && w.title is Some && w.labels.len() > 0,
        wizard_build_page(w, event).0.status != w.status ==> w.status is Ready
            && event is IssueCreated && wizard_build_page(w, event).0.status == (
            CreateIssueStatusView::Done { url: event->url }
        ),
{
}

/// An issue is asked for only by a render that starts on a wizard whose
/// user has pressed submit; the request then names the wizard's
/// repository, title and labels, and the composed text. Once the wizard
/// is told that the issue exists, no render asks again.
pub proof fn law_issue_is_asked_for_once(w: CreateIssueView, event: PageEventView, url: Seq<char>)
    ensures
        wizard_build_page(w, event).1 is CreateIssue <==> w.status is Ready && event is Render
            && w.title is Some,
        wizard_build_page(w, event).1 is CreateIssue ==> wizard_build_page(w, event).1 == (
            PageActionView::CreateIssue(issue_request(w, w.title->0))
        ),
        w.status is Ready ==> !(wizard_build_page(
            wizard_build_page(w, PageEventView::IssueCreated { url }).0,
            event,
        ).1 is CreateIssue),
{
}

/// A click on the control `id` that comes with `values`.
pub open spec fn click_on(id: Seq<char>, values: Seq<Seq<char>>, message_id: u64)
    -> InteractionComponentView {
    InteractionComponentView { message_id, custom_id: id, values }
}

/// From filling in to the finished issue: on a wizard that is still being
/// filled in, entering a title, choosing labels and a repository, and then
/// pressing submit lead to a render that asks for exactly one issue, with
/// that repository, that title, the labels that the chosen values stand
/// for, and the text composed from the message. Told where the issue is,
/// the wizard shows the page with the link as its last field, and from
/// then on renders without asking again.
pub proof fn law_round_trip(
    w: CreateIssueView,
    title_form: InteractionModalView,
    title: Seq<char>,
    labels: Seq<Seq<char>>,
    repository: Seq<char>,
    url: Seq<char>,
    message_id: u64,
)
    requires
        w.status is Creating,
        title_form.custom_id == "issue_title"@,
        title_form.has_first_input(),
        title_form.first_value() == Some(title),
        labels.len() > 0,
    ensures
        ({
            let titled = wizard_handle_modal(w, title_form).0;
            let labelled = wizard_handle_component(
                titled,
                click_on("issue_labels"@, labels, message_id),
            ).0;
            let targeted = wizard_handle_component(
                labelled,
                click_on("issue_repository"@, seq![repository], message_id),
            ).0;
            let (submitted, directive, _) = wizard_handle_component(
                targeted,
                click_on("issue_create"@, Seq::empty(), message_id),
            );
            let (asked, request) = wizard_build_page(submitted, PageEventView::Render);
            let (done, shown) = wizard_build_page(asked, PageEventView::IssueCreated { url });
            &&& directive == ComponentResultView::BuildPage
            &&& submitted.status is Ready
            &&& asked == submitted
            &&& request == PageActionView::CreateIssue(
                IssueRequestView {
                    repository,
                    title,
                    body: issue_body(w),
                    labels: labels_of_values(labels),
                },
            )
            &&& done.status == (CreateIssueStatusView::Done { url })
            &&& shown == PageActionView::Rendered(page_embed(done))
            &&& page_fields(done).last().value == "[**Link**]("@ + url + ")"@
            &&& wizard_build_page(done, PageEventView::Render) == (done, shown)
        }),
{
    reveal_strlit("issue_title");
    reveal_strlit("issue_author");
    reveal_strlit("issue_repository");
    reveal_strlit("issue_create");
    reveal_strlit("issue_labels");
    assert("issue_repository"@[6] == 'r');
    assert("issue_create"@[6] == 'c');
    assert("issue_title"@[6] == 't');
    assert("issue_author"@[6] == 'a');
}

} // verus!
