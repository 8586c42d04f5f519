use issue_bot::active::create_issue::{CreateIssue, CreateIssueStatus, Label, SourceMessageUrl};
use issue_bot::active::page::{
    ComponentError, ComponentResult, IActiveMessage, IssueRequest, ModalError, PageAction,
    PageError, PageEvent,
};
use issue_bot::util::builder::{
    ActionRow, Button, ButtonStyle, Component, EmbedBuilder, EmbedField, ModalBuilder, SelectMenu,
    SelectMenuOption, TextInputBuilder,
};
use issue_bot::util::config::{DiscordConfig, GithubConfig, IssueLabels, Project};
use issue_bot::util::interaction::{
    InteractionComponent, InteractionModal, Message, ModalInput, ModalRow,
};

const PERMALINK: &str = "https://discord.com/channels/9/2002/1001";

fn config_with_labels(labels: Vec<String>) -> Project {
    Project {
        title: "Demo".to_string(),
        discord_config: DiscordConfig {
            token: "chat-token".to_string(),
            guild_id: 9,
            operator_id: vec![5, 6],
        },
        github_config: GithubConfig {
            token: "tracker-token".to_string(),
            owner: "acme".to_string(),
            repositories: vec![
                ("Repo A".to_string(), "repo-a".to_string()),
                ("Repo B".to_string(), "repo-b".to_string()),
            ],
        },
        issue_labels: IssueLabels { issue_types: labels, issue_priority: Vec::new() },
    }
}

fn config() -> Project {
    config_with_labels(vec!["bug".to_string(), "good first issue".to_string()])
}

fn message() -> Message {
    Message {
        id: 1001,
        channel_id: 2002,
        author: "alice".to_string(),
        content: "It crashes\r\non start".to_string(),
        attachments: vec!["https://cdn/a.png".to_string()],
    }
}

fn wizard() -> CreateIssue {
    CreateIssue::new(message(), 9, &config())
}

fn click(id: &str, values: &[&str]) -> InteractionComponent {
    InteractionComponent {
        message_id: 77,
        custom_id: id.to_string(),
        values: values.iter().map(|v| v.to_string()).collect(),
    }
}

fn form(id: &str, value: Option<&str>) -> InteractionModal {
    InteractionModal {
        message_id: Some(77),
        custom_id: id.to_string(),
        components: vec![ModalRow {
            components: vec![ModalInput {
                custom_id: "input".to_string(),
                value: value.map(|v| v.to_string()),
            }],
        }],
    }
}

fn filled_in() -> CreateIssue {
    let mut page = wizard();
    assert_eq!(page.handle_modal(&mut form("issue_title", Some("Bug X"))), Ok(()));
    assert_eq!(page.handle_component(&mut click("issue_labels", &["bug"])), ComponentResult::BuildPage);
    assert_eq!(
        page.handle_component(&mut click("issue_repository", &["repo-a"])),
        ComponentResult::BuildPage
    );
    page
}

fn submitted() -> CreateIssue {
    let mut page = filled_in();
    assert_eq!(page.handle_component(&mut click("issue_create", &[])), ComponentResult::BuildPage);
    page
}

fn completed() -> CreateIssue {
    let mut page = submitted();
    let shown = page.build_page(PageEvent::IssueCreated { url: "https://tracker/1".to_string() });
    assert!(matches!(shown, PageAction::Rendered(_)));
    page
}

fn field(inline: bool, name: &str, value: &str) -> EmbedField {
    EmbedField { inline, name: name.to_string(), value: value.to_string() }
}

fn button(id: &str, label: &str, style: ButtonStyle, disabled: bool) -> Component {
    Component::Button(Button {
        custom_id: Some(id.to_string()),
        disabled,
        label: Some(label.to_string()),
        style,
        url: None,
    })
}

fn option(label: &str, value: &str) -> SelectMenuOption {
    SelectMenuOption {
        default: false,
        description: None,
        label: label.to_string(),
        value: value.to_string(),
    }
}

fn expected_controls(submit_disabled: bool) -> Vec<ActionRow> {
    vec![
        ActionRow {
            components: vec![
                button("issue_title", "Issue title", ButtonStyle::Primary, false),
                button("issue_author", "Author", ButtonStyle::Secondary, false),
                button("issue_create", "Create", ButtonStyle::Success, submit_disabled),
            ],
        },
        ActionRow {
            components: vec![Component::SelectMenu(SelectMenu {
                custom_id: "issue_labels".to_string(),
                disabled: false,
                max_values: Some(2),
                min_values: Some(1),
                options: vec![option("bug", "bug"), option("good first issue", "good_first_issue")],
                placeholder: Some("Select at least one label".to_string()),
            })],
        },
        ActionRow {
            components: vec![Component::SelectMenu(SelectMenu {
                custom_id: "issue_repository".to_string(),
                disabled: false,
                max_values: Some(1),
                min_values: Some(1),
                options: vec![option("Repo A", "repo-a"), option("Repo B", "repo-b")],
                placeholder: Some("Select one repository".to_string()),
            })],
        },
    ]
}

#[test]
fn new_wizard_starts_collecting() {
    let page = wizard();
    assert_eq!(page.status(), &CreateIssueStatus::Creating);
    assert_eq!(page.title(), &None);
    assert_eq!(page.author(), &Some("alice".to_string()));
    assert_eq!(page.active_repository(), "");
    assert!(page.labels().is_empty());
    assert_eq!(page.source(), SourceMessageUrl { guild: 9, channel: 2002, msg: 1001 });
}

#[test]
fn permalink_names_guild_channel_and_message() {
    let source = SourceMessageUrl { guild: 9, channel: 2002, msg: 1001 };
    assert_eq!(source.to_string(), PERMALINK);
    let mut out = String::from("<");
    source.push_to(&mut out);
    assert_eq!(out, format!("<{}", PERMALINK));
    let zero = SourceMessageUrl { guild: 0, channel: 0, msg: u64::MAX };
    assert_eq!(zero.to_string(), "https://discord.com/channels/0/0/18446744073709551615");
}

#[test]
fn label_reads_underscores_as_spaces() {
    assert_eq!(Label::new("good_first_issue".to_string()).to_string(), "good first issue");
    assert_eq!(Label::new("bug".to_string()).to_string(), "bug");
}

#[test]
fn label_list_is_comma_separated() {
    let labels = vec![
        Label::new("bug".to_string()),
        Label::new("good_first_issue".to_string()),
        Label::new("ui".to_string()),
    ];
    assert_eq!(Label::list_to_str(&labels), "bug, good first issue, ui");
    assert_eq!(Label::list_to_str(&labels[..1]), "bug");
    assert_eq!(Label::list_to_str(&[]), "");
}

#[test]
fn collecting_wizard_shows_all_controls_with_submit_disabled() {
    assert_eq!(wizard().build_components(), expected_controls(true));
}

#[test]
fn submit_is_enabled_once_title_and_labels_are_set() {
    let mut page = wizard();
    assert_eq!(page.handle_modal(&mut form("issue_title", Some("Bug X"))), Ok(()));
    assert_eq!(page.build_components(), expected_controls(true));
    page.handle_component(&mut click("issue_labels", &["bug"]));
    assert_eq!(page.build_components(), expected_controls(false));
    page.handle_component(&mut click("issue_labels", &[]));
    assert_eq!(page.build_components(), expected_controls(true));
}

#[test]
fn label_menu_admits_as_many_choices_as_options_modulo_256() {
    let max_of = |count: usize| -> Option<u8> {
        let labels = (0..count).map(|i| format!("l{}", i)).collect();
        let page = CreateIssue::new(message(), 9, &config_with_labels(labels));
        match &page.build_components()[1].components[0] {
            Component::SelectMenu(menu) => {
                assert_eq!(menu.options.len(), count);
                menu.max_values
            }
            _ => panic!("the second row holds the label menu"),
        }
    };
    assert_eq!(max_of(0), Some(0));
    assert_eq!(max_of(25), Some(25));
    assert_eq!(max_of(255), Some(255));
    assert_eq!(max_of(256), Some(0));
    assert_eq!(max_of(300), Some(44));
}

#[test]
fn render_controls_is_empty_once_terminal() {
    assert_eq!(submitted().build_components(), Vec::<ActionRow>::new());
    assert_eq!(completed().build_components(), Vec::<ActionRow>::new());
}

#[test]
fn title_button_asks_for_the_title_form() {
    let mut page = wizard();
    let before = page.clone();
    let expected = ModalBuilder {
        custom_id: "issue_title".to_string(),
        title: "Specify a title for the issue".to_string(),
        inputs: vec![TextInputBuilder {
            custom_id: "title".to_string(),
            label: "Title".to_string(),
            required: Some(true),
            max_len: Some(64),
        }],
    };
    assert_eq!(
        page.handle_component(&mut click("issue_title", &[])),
        ComponentResult::CreateModal(expected)
    );
    assert_eq!(page, before);
}

#[test]
fn author_button_asks_for_the_author_form() {
    let mut page = wizard();
    let before = page.clone();
    let expected = ModalBuilder {
        custom_id: "issue_author".to_string(),
        title: "Specify an author for the issue".to_string(),
        inputs: vec![TextInputBuilder {
            custom_id: "author".to_string(),
            label: "Author".to_string(),
            required: Some(false),
            max_len: Some(32),
        }],
    };
    assert_eq!(
        page.handle_component(&mut click("issue_author", &[])),
        ComponentResult::CreateModal(expected)
    );
    assert_eq!(page, before);
}

#[test]
fn repository_menu_sets_the_target_to_the_first_value() {
    let mut page = wizard();
    let mut choice = click("issue_repository", &["repo-b", "repo-a"]);
    assert_eq!(page.handle_component(&mut choice), ComponentResult::BuildPage);
    assert_eq!(page.active_repository(), "repo-b");
    assert_eq!(choice, click("issue_repository", &["repo-b", "repo-a"]));
}

#[test]
fn repository_menu_without_value_is_turned_down() {
    let mut page = filled_in();
    let before = page.clone();
    assert_eq!(
        page.handle_component(&mut click("issue_repository", &[])),
        ComponentResult::Failed(ComponentError::MissingValue("issue_repository".to_string()))
    );
    assert_eq!(page, before);
}

#[test]
fn label_menu_replaces_the_labels_and_drains_the_values() {
    let mut page = wizard();
    let mut choice = click("issue_labels", &["bug", "good_first_issue"]);
    assert_eq!(page.handle_component(&mut choice), ComponentResult::BuildPage);
    assert_eq!(Label::list_to_str(page.labels()), "bug, good first issue");
    assert_eq!(choice, click("issue_labels", &[]));
    page.handle_component(&mut click("issue_labels", &["ui"]));
    assert_eq!(Label::list_to_str(page.labels()), "ui");
}

#[test]
fn unknown_control_yields_failed_directive_and_keeps_state() {
    for mut page in [wizard(), filled_in(), submitted(), completed()] {
        let before = page.clone();
        let mut bogus = click("bogus", &["x"]);
        assert_eq!(
            page.handle_component(&mut bogus),
            ComponentResult::Failed(ComponentError::UnknownComponent("bogus".to_string()))
        );
        assert_eq!(page, before);
        assert_eq!(bogus, click("bogus", &["x"]));
    }
}

#[test]
fn control_identifiers_are_matched_exactly() {
    let mut page = wizard();
    for id in ["", "issue_title ", "Issue_title", "issue", "issue_labels2"] {
        assert_eq!(
            page.handle_component(&mut click(id, &[])),
            ComponentResult::Failed(ComponentError::UnknownComponent(id.to_string()))
        );
    }
}

#[test]
fn submit_without_title_or_labels_is_turned_down() {
    let mut page = wizard();
    let before = page.clone();
    assert_eq!(
        page.handle_component(&mut click("issue_create", &[])),
        ComponentResult::Failed(ComponentError::Incomplete)
    );
    assert_eq!(page, before);

    page.handle_modal(&mut form("issue_title", Some("Bug X")));
    assert_eq!(
        page.handle_component(&mut click("issue_create", &[])),
        ComponentResult::Failed(ComponentError::Incomplete)
    );
    assert_eq!(page.status(), &CreateIssueStatus::Creating);

    let mut labelled = wizard();
    labelled.handle_component(&mut click("issue_labels", &["bug"]));
    assert_eq!(
        labelled.handle_component(&mut click("issue_create", &[])),
        ComponentResult::Failed(ComponentError::Incomplete)
    );
    assert_eq!(labelled.status(), &CreateIssueStatus::Creating);
}

#[test]
fn submit_moves_the_wizard_on() {
    let page = submitted();
    assert_eq!(page.status(), &CreateIssueStatus::Ready);
}

#[test]
fn submit_on_a_submitted_wizard_keeps_it_submitted() {
    let mut page = submitted();
    assert_eq!(page.handle_component(&mut click("issue_create", &[])), ComponentResult::BuildPage);
    assert_eq!(page.status(), &CreateIssueStatus::Ready);
}

#[test]
fn submit_on_a_completed_wizard_is_turned_down() {
    let mut page = completed();
    let before = page.clone();
    assert_eq!(
        page.handle_component(&mut click("issue_create", &[])),
        ComponentResult::Failed(ComponentError::AlreadyCreated)
    );
    assert_eq!(page, before);
}

#[test]
fn title_form_sets_the_title_and_takes_the_value() {
    let mut page = wizard();
    let mut submission = form("issue_title", Some("Bug X"));
    assert_eq!(page.handle_modal(&mut submission), Ok(()));
    assert_eq!(page.title(), &Some("Bug X".to_string()));
    assert_eq!(submission, form("issue_title", None));

    assert_eq!(page.handle_modal(&mut form("issue_title", Some(""))), Ok(()));
    assert_eq!(page.title(), &Some(String::new()));
    assert_eq!(page.handle_modal(&mut form("issue_title", None)), Ok(()));
    assert_eq!(page.title(), &None);
}

#[test]
fn title_form_without_input_is_turned_down() {
    let mut page = filled_in();
    let before = page.clone();
    let mut no_rows =
        InteractionModal { message_id: Some(77), custom_id: "issue_title".to_string(), components: Vec::new() };
    assert_eq!(page.handle_modal(&mut no_rows), Err(ModalError::MissingInput));
    let mut empty_row = InteractionModal {
        message_id: Some(77),
        custom_id: "issue_title".to_string(),
        components: vec![ModalRow { components: Vec::new() }],
    };
    assert_eq!(page.handle_modal(&mut empty_row), Err(ModalError::MissingInput));
    assert_eq!(page, before);
    assert_eq!(empty_row.components.len(), 1);
}

#[test]
fn author_form_sets_or_clears_the_author() {
    let mut page = wizard();
    let mut submission = form("issue_author", Some("bob"));
    assert_eq!(page.handle_modal(&mut submission), Ok(()));
    assert_eq!(page.author(), &Some("bob".to_string()));
    assert_eq!(submission, form("issue_author", None));

    assert_eq!(page.handle_modal(&mut form("issue_author", Some(""))), Ok(()));
    assert_eq!(page.author(), &None);

    page.handle_modal(&mut form("issue_author", Some("carol")));
    assert_eq!(page.handle_modal(&mut form("issue_author", None)), Ok(()));
    assert_eq!(page.author(), &None);

    page.handle_modal(&mut form("issue_author", Some("dave")));
    let mut no_rows =
        InteractionModal { message_id: None, custom_id: "issue_author".to_string(), components: Vec::new() };
    assert_eq!(page.handle_modal(&mut no_rows), Ok(()));
    assert_eq!(page.author(), &None);
}

#[test]
fn unknown_form_is_turned_down() {
    let mut page = wizard();
    let before = page.clone();
    let mut submission = form("bogus", Some("x"));
    assert_eq!(
        page.handle_modal(&mut submission),
        Err(ModalError::UnknownModal("bogus".to_string()))
    );
    assert_eq!(page, before);
    assert_eq!(submission, form("bogus", Some("x")));
}

#[test]
fn first_value_is_taken_from_the_first_input_only() {
    let mut submission = InteractionModal {
        message_id: Some(1),
        custom_id: "f".to_string(),
        components: vec![
            ModalRow {
                components: vec![
                    ModalInput { custom_id: "a".to_string(), value: Some("one".to_string()) },
                    ModalInput { custom_id: "b".to_string(), value: Some("two".to_string()) },
                ],
            },
            ModalRow {
                components: vec![ModalInput {
                    custom_id: "c".to_string(),
                    value: Some("three".to_string()),
                }],
            },
        ],
    };
    assert_eq!(submission.take_first_value(), Some(Some("one".to_string())));
    assert_eq!(submission.components[0].components[0].value, None);
    assert_eq!(submission.components[0].components[0].custom_id, "a");
    assert_eq!(submission.components[0].components[1].value, Some("two".to_string()));
    assert_eq!(submission.components[1].components[0].value, Some("three".to_string()));
    assert_eq!(submission.take_first_value(), Some(None));
}

#[test]
fn collecting_page_lists_message_author_title_labels_repository() {
    let mut page = wizard();
    let expected = EmbedBuilder {
        title: Some("Github issue builder".to_string()),
        fields: vec![
            field(true, "Message", &format!("[Jump]({})", PERMALINK)),
            field(true, "Author", "`@alice`"),
            field(false, "Issue title", "-"),
            field(false, "Labels", "-"),
            field(false, "Repository", ""),
        ],
    };
    assert_eq!(page.build_page(PageEvent::Render), PageAction::Rendered(expected));
    assert_eq!(page, wizard());
}

#[test]
fn filled_in_page_shows_what_was_entered() {
    let mut page = filled_in();
    page.handle_component(&mut click("issue_labels", &["bug", "good_first_issue"]));
    let expected = EmbedBuilder {
        title: Some("Github issue builder".to_string()),
        fields: vec![
            field(true, "Message", &format!("[Jump]({})", PERMALINK)),
            field(true, "Author", "`@alice`"),
            field(false, "Issue title", "Bug X"),
            field(false, "Labels", "bug, good first issue"),
            field(false, "Repository", "repo-a"),
        ],
    };
    assert_eq!(page.build_page(PageEvent::Render), PageAction::Rendered(expected));
}

#[test]
fn page_without_author_shows_no_repository() {
    let mut page = filled_in();
    page.handle_modal(&mut form("issue_author", Some("")));
    let expected = EmbedBuilder {
        title: Some("Github issue builder".to_string()),
        fields: vec![
            field(true, "Message", &format!("[Jump]({})", PERMALINK)),
            field(false, "Issue title", "Bug X"),
            field(false, "Labels", "bug"),
        ],
    };
    assert_eq!(page.build_page(PageEvent::Render), PageAction::Rendered(expected));
}

#[test]
fn render_ignores_reports_while_collecting() {
    let mut page = filled_in();
    let shown = page.build_page(PageEvent::Render);
    assert_eq!(page.build_page(PageEvent::IssueFailed), shown);
    assert_eq!(page.build_page(PageEvent::IssueCreated { url: "u".to_string() }), shown);
    assert_eq!(page, filled_in());
}

#[test]
fn wizard_round_trip_creates_the_issue_once() {
    let mut page = submitted();
    let request = match page.build_page(PageEvent::Render) {
        PageAction::CreateIssue(request) => request,
        other => panic!("expected a request, got {:?}", other),
    };
    assert_eq!(
        request,
        IssueRequest {
            repository: "repo-a".to_string(),
            title: "Bug X".to_string(),
            body: format!(
                "> It crashes\n> on start\n\nAttachments:\n![attachment](https://cdn/a.png)\n[Original message by @alice]({})",
                PERMALINK
            ),
            labels: vec!["bug".to_string()],
        }
    );
    assert_eq!(page.status(), &CreateIssueStatus::Ready);

    let shown = page.build_page(PageEvent::IssueCreated { url: "https://tracker/1".to_string() });
    assert_eq!(page.status(), &CreateIssueStatus::Done { url: "https://tracker/1".to_string() });
    let expected = EmbedBuilder {
        title: Some("Github issue builder".to_string()),
        fields: vec![
            field(true, "Message", &format!("[Jump]({})", PERMALINK)),
            field(true, "Author", "`@alice`"),
            field(false, "Issue title", "Bug X"),
            field(false, "Labels", "bug"),
            field(false, "Repository", "repo-a"),
            field(false, "Issue created", "[**Link**](https://tracker/1)"),
        ],
    };
    assert_eq!(shown, PageAction::Rendered(expected));

    assert!(matches!(page.build_page(PageEvent::Render), PageAction::Rendered(_)));
}

#[test]
fn render_twice_on_completed_is_identical() {
    let mut page = completed();
    let before = page.clone();
    let first = page.build_page(PageEvent::Render);
    let second = page.build_page(PageEvent::Render);
    assert!(matches!(first, PageAction::Rendered(_)));
    assert_eq!(first, second);
    assert_eq!(page, before);
    assert_eq!(page.build_page(PageEvent::IssueCreated { url: "other".to_string() }), first);
    assert_eq!(page.build_page(PageEvent::IssueFailed), first);
    assert_eq!(page, before);
}

#[test]
fn failed_creation_keeps_the_wizard_submitted_for_a_retry() {
    let mut page = submitted();
    let before = page.clone();
    let first = page.build_page(PageEvent::Render);
    assert!(matches!(first, PageAction::CreateIssue(_)));
    assert_eq!(page.build_page(PageEvent::IssueFailed), PageAction::Failed(PageError::CreateFailed));
    assert_eq!(page, before);
    assert_eq!(page.build_page(PageEvent::Render), first);
}

#[test]
fn render_after_submit_without_title_fails() {
    let mut page = submitted();
    assert_eq!(page.handle_modal(&mut form("issue_title", None)), Ok(()));
    let before = page.clone();
    assert_eq!(page.build_page(PageEvent::Render), PageAction::Failed(PageError::MissingTitle));
    assert_eq!(page, before);
    assert_eq!(page.status(), &CreateIssueStatus::Ready);
}

#[test]
fn issue_body_without_content_attachments_and_author() {
    let plain = Message {
        id: 3,
        channel_id: 2,
        author: "x".to_string(),
        content: String::new(),
        attachments: Vec::new(),
    };
    let mut page = CreateIssue::new(plain, 1, &config());
    page.handle_modal(&mut form("issue_author", None));
    page.handle_modal(&mut form("issue_title", Some("T")));
    page.handle_component(&mut click("issue_labels", &["a_b"]));
    page.handle_component(&mut click("issue_create", &[]));
    match page.build_page(PageEvent::Render) {
        PageAction::CreateIssue(request) => {
            assert_eq!(request.body, "[Original message](https://discord.com/channels/1/2/3)");
            assert_eq!(request.labels, vec!["a b".to_string()]);
            assert_eq!(request.repository, "");
            assert_eq!(request.title, "T");
        }
        other => panic!("expected a request, got {:?}", other),
    }
}

#[test]
fn issue_body_lists_every_attachment_and_quotes_every_line() {
    let long = Message {
        id: 3,
        channel_id: 2,
        author: "x".to_string(),
        content: "one\n\nthree\n".to_string(),
        attachments: vec!["u1".to_string(), "u2".to_string()],
    };
    let mut page = CreateIssue::new(long, 1, &config());
    page.handle_modal(&mut form("issue_title", Some("T")));
    page.handle_component(&mut click("issue_labels", &["bug"]));
    page.handle_component(&mut click("issue_create", &[]));
    match page.build_page(PageEvent::Render) {
        PageAction::CreateIssue(request) => assert_eq!(
            request.body,
            "> one\n> \n> three\n\nAttachments:\n![attachment](u1)\n![attachment](u2)\n[Original message by @x](https://discord.com/channels/1/2/3)"
        ),
        other => panic!("expected a request, got {:?}", other),
    }
}

#[test]
fn status_never_falls_back() {
    fn rank(status: &CreateIssueStatus) -> u8 {
        match status {
            CreateIssueStatus::Creating => 0,
            CreateIssueStatus::Ready => 1,
            CreateIssueStatus::Done { .. } => 2,
        }
    }
    for start in [wizard(), filled_in(), submitted(), completed()] {
        for id in ["issue_title", "issue_author", "issue_repository", "issue_create", "issue_labels", "bogus"] {
            let mut page = start.clone();
            page.handle_component(&mut click(id, &["v"]));
            assert!(rank(page.status()) >= rank(start.status()));
        }
        for id in ["issue_title", "issue_author", "bogus"] {
            let mut page = start.clone();
            let _ = page.handle_modal(&mut form(id, Some("v")));
            assert_eq!(page.status(), start.status());
        }
        for event in [
            PageEvent::Render,
            PageEvent::IssueFailed,
            PageEvent::IssueCreated { url: "u".to_string() },
        ] {
            let mut page = start.clone();
            page.build_page(event);
            assert!(rank(page.status()) >= rank(start.status()));
        }
    }
}
