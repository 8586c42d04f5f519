use issue_bot::active::create_issue::{CreateIssue, CreateIssueStatus};
use issue_bot::active::page::{
    ComponentError, IActiveMessage, ModalError, PageAction, PageError, PageEvent,
};
use issue_bot::active::route::{
    ActiveMessagesBuilder, BeginAction, Route, RouteAction, RouteError, RouteEvent, RouteStage,
};
use issue_bot::active::timeout::{Supervisor, TimeoutAction, TimeoutState};
use issue_bot::active::{ActiveMessage, ActiveMessages};
use issue_bot::util::builder::{MessageBuilder, ModalBuilder};
use issue_bot::util::config::{DiscordConfig, GithubConfig, IssueLabels, Project};
use issue_bot::util::interaction::{
    InteractionComponent, InteractionModal, Message, ModalInput, ModalRow,
};

const MSG: u64 = 77;

fn wizard() -> CreateIssue {
    let config = Project {
        title: "Demo".to_string(),
        discord_config: DiscordConfig { token: String::new(), guild_id: 9, operator_id: vec![5] },
        github_config: GithubConfig {
            token: String::new(),
            owner: "acme".to_string(),
            repositories: vec![("Repo A".to_string(), "repo-a".to_string())],
        },
        issue_labels: IssueLabels { issue_types: vec!["bug".to_string()], issue_priority: Vec::new() },
    };
    let msg = Message {
        id: 1001,
        channel_id: 2002,
        author: "alice".to_string(),
        content: "It crashes".to_string(),
        attachments: Vec::new(),
    };
    CreateIssue::new(msg, 9, &config)
}

fn click(id: &str, values: &[&str]) -> InteractionComponent {
    InteractionComponent {
        message_id: MSG,
        custom_id: id.to_string(),
        values: values.iter().map(|v| v.to_string()).collect(),
    }
}

fn form(id: &str, value: Option<&str>) -> InteractionModal {
    InteractionModal {
        message_id: Some(MSG),
        custom_id: id.to_string(),
        components: vec![ModalRow {
            components: vec![ModalInput {
                custom_id: "input".to_string(),
                value: value.map(|v| v.to_string()),
            }],
        }],
    }
}

fn registry_with(page: CreateIssue) -> ActiveMessages<u8> {
    let mut registry = ActiveMessages::new();
    assert_eq!(registry.insert(MSG, ActiveMessage::from(page), 1), Some(0));
    registry
}

fn page_in(registry: &ActiveMessages<u8>) -> CreateIssue {
    match &registry.get(MSG).expect("the page is registered").active_msg {
        ActiveMessage::CreateIssue(page) => page.clone(),
    }
}

fn shown(page: &CreateIssue) -> MessageBuilder {
    let mut page = page.clone();
    let controls = page.build_components();
    match page.build_page(PageEvent::Render) {
        PageAction::Rendered(embed) => {
            MessageBuilder { content: None, embed: Some(embed), components: Some(controls) }
        }
        other => panic!("expected a page, got {:?}", other),
    }
}

fn waiting(stage: RouteStage) -> Route {
    Route { msg: MSG, stage, errors: Vec::new() }
}

fn over() -> Route {
    waiting(RouteStage::Finished)
}

fn finish(keepalive: bool, errors: Vec<RouteError>) -> RouteAction {
    RouteAction::Finish { keepalive, errors }
}

fn submitted_registry() -> ActiveMessages<u8> {
    let mut registry = registry_with(wizard());
    registry.handle_modal(&mut form("issue_title", Some("Bug X")));
    registry.handle_component(&mut click("issue_labels", &["bug"]));
    registry.handle_component(&mut click("issue_repository", &["repo-a"]));
    registry
}

#[test]
fn click_for_unknown_message_is_dropped() {
    let mut registry: ActiveMessages<u8> = ActiveMessages::new();
    let mut event = click("issue_title", &[]);
    let (route, action) = registry.handle_component(&mut event);
    assert_eq!(route, over());
    assert_eq!(
        action,
        finish(false, vec![RouteError::UnknownComponent { name: "issue_title".to_string() }])
    );
    assert_eq!(registry.len(), 0);
    assert_eq!(event, click("issue_title", &[]));
}

#[test]
fn click_that_opens_a_form_presents_it_and_pings_on_delivery() {
    let mut registry = registry_with(wizard());
    let (mut route, action) = registry.handle_component(&mut click("issue_title", &[]));
    assert_eq!(route, waiting(RouteStage::PresentingModal));
    match action {
        RouteAction::PresentModal(ModalBuilder { custom_id, .. }) => assert_eq!(custom_id, "issue_title"),
        other => panic!("expected a form, got {:?}", other),
    }
    assert_eq!(registry.resume(&mut route, RouteEvent::Delivered), finish(true, Vec::new()));
    assert_eq!(route, over());
    assert_eq!(page_in(&registry), wizard());
}

#[test]
fn refused_form_ends_without_keepalive() {
    let mut registry = registry_with(wizard());
    let (mut route, _) = registry.handle_component(&mut click("issue_author", &[]));
    assert_eq!(
        registry.resume(&mut route, RouteEvent::Refused),
        finish(false, vec![RouteError::CreateModal])
    );
    assert_eq!(route, over());
}

#[test]
fn click_that_changes_the_page_rerenders_and_pings_on_delivery() {
    let mut registry = registry_with(wizard());
    let (mut route, action) = registry.handle_component(&mut click("issue_repository", &["repo-a"]));
    let mut expected = wizard();
    expected.handle_component(&mut click("issue_repository", &["repo-a"]));
    assert_eq!(page_in(&registry), expected);
    assert_eq!(route, waiting(RouteStage::Responding));
    assert_eq!(action, RouteAction::Respond(shown(&expected)));
    assert_eq!(registry.resume(&mut route, RouteEvent::Delivered), finish(true, Vec::new()));
    assert_eq!(route, over());
}

#[test]
fn refused_page_ends_without_keepalive() {
    let mut registry = registry_with(wizard());
    let (mut route, _) = registry.handle_component(&mut click("issue_labels", &["bug"]));
    assert_eq!(
        registry.resume(&mut route, RouteEvent::Refused),
        finish(false, vec![RouteError::Callback])
    );
}

#[test]
fn click_that_is_turned_down_ends_without_keepalive() {
    let mut registry = registry_with(wizard());
    let (route, action) = registry.handle_component(&mut click("bogus", &[]));
    assert_eq!(route, over());
    assert_eq!(
        action,
        finish(
            false,
            vec![RouteError::Component(ComponentError::UnknownComponent("bogus".to_string()))]
        )
    );
    assert_eq!(page_in(&registry), wizard());

    let (_, action) = registry.handle_component(&mut click("issue_create", &[]));
    assert_eq!(action, finish(false, vec![RouteError::Component(ComponentError::Incomplete)]));
    assert_eq!(page_in(&registry), wizard());
}

#[test]
fn submit_has_the_issue_created_then_shows_the_completed_page() {
    let mut registry = submitted_registry();
    let (mut route, action) = registry.handle_component(&mut click("issue_create", &[]));
    assert_eq!(route, waiting(RouteStage::CreatingIssue));
    match action {
        RouteAction::CreateIssue(request) => {
            assert_eq!(request.repository, "repo-a");
            assert_eq!(request.title, "Bug X");
            assert_eq!(request.labels, vec!["bug".to_string()]);
            assert!(request.body.contains("> It crashes\n"));
        }
        other => panic!("expected a request, got {:?}", other),
    }
    assert_eq!(page_in(&registry).status(), &CreateIssueStatus::Ready);

    let action =
        registry.resume(&mut route, RouteEvent::IssueCreated { url: "https://tracker/1".to_string() });
    let page = page_in(&registry);
    assert_eq!(page.status(), &CreateIssueStatus::Done { url: "https://tracker/1".to_string() });
    assert_eq!(route, waiting(RouteStage::Responding));
    assert_eq!(action, RouteAction::Respond(shown(&page)));
    match &action {
        RouteAction::Respond(message) => {
            assert_eq!(message.components, Some(Vec::new()));
            let embed = message.embed.as_ref().unwrap();
            assert_eq!(embed.fields.last().unwrap().value, "[**Link**](https://tracker/1)");
        }
        _ => unreachable!(),
    }
    assert_eq!(registry.resume(&mut route, RouteEvent::Delivered), finish(true, Vec::new()));
}

#[test]
fn failed_creation_ends_without_keepalive_and_keeps_the_page_submitted() {
    let mut registry = submitted_registry();
    let (mut route, _) = registry.handle_component(&mut click("issue_create", &[]));
    assert_eq!(
        registry.resume(&mut route, RouteEvent::IssueFailed),
        finish(false, vec![RouteError::BuildPage(PageError::CreateFailed)])
    );
    assert_eq!(route, over());
    assert_eq!(page_in(&registry).status(), &CreateIssueStatus::Ready);

    let (route, action) = registry.handle_component(&mut click("issue_create", &[]));
    assert_eq!(route, waiting(RouteStage::CreatingIssue));
    assert!(matches!(action, RouteAction::CreateIssue(_)));
}

#[test]
fn report_out_of_turn_ends_the_exchange() {
    let mut registry = registry_with(wizard());
    let (mut route, _) = registry.handle_component(&mut click("issue_title", &[]));
    assert_eq!(
        registry.resume(&mut route, RouteEvent::IssueFailed),
        finish(false, vec![RouteError::OutOfTurn])
    );
    assert_eq!(route, over());
    assert_eq!(
        registry.resume(&mut route, RouteEvent::Delivered),
        finish(false, vec![RouteError::OutOfTurn])
    );
    let mut creating = waiting(RouteStage::CreatingIssue);
    assert_eq!(
        registry.resume(&mut creating, RouteEvent::Delivered),
        finish(false, vec![RouteError::OutOfTurn])
    );
    assert_eq!(page_in(&registry), wizard());
}

#[test]
fn page_gone_during_creation_ends_the_exchange() {
    let mut registry = submitted_registry();
    let (mut route, _) = registry.handle_component(&mut click("issue_create", &[]));
    registry.remove(MSG);
    assert_eq!(
        registry.resume(&mut route, RouteEvent::IssueCreated { url: "u".to_string() }),
        finish(false, vec![RouteError::Vanished])
    );
    assert_eq!(registry.len(), 0);
}

#[test]
fn form_without_message_is_dropped() {
    let mut registry = registry_with(wizard());
    let mut event = form("issue_title", Some("T"));
    event.message_id = None;
    let (route, action) = registry.handle_modal(&mut event);
    assert_eq!(route, Route { msg: 0, stage: RouteStage::Finished, errors: Vec::new() });
    assert_eq!(action, finish(false, vec![RouteError::ModalWithoutMessage]));
    assert_eq!(page_in(&registry), wizard());
}

#[test]
fn form_for_unknown_message_is_dropped_and_creates_nothing() {
    let mut registry: ActiveMessages<u8> = ActiveMessages::new();
    let (route, action) = registry.handle_modal(&mut form("issue_title", Some("T")));
    assert_eq!(route, over());
    assert_eq!(action, finish(false, vec![RouteError::UnknownModal { name: "issue_title".to_string() }]));
    assert_eq!(registry.len(), 0);
}

#[test]
fn form_is_taken_in_and_the_page_rerendered() {
    let mut registry = registry_with(wizard());
    let (mut route, action) = registry.handle_modal(&mut form("issue_title", Some("Bug X")));
    let mut expected = wizard();
    assert_eq!(expected.handle_modal(&mut form("issue_title", Some("Bug X"))), Ok(()));
    assert_eq!(page_in(&registry), expected);
    assert_eq!(route, waiting(RouteStage::Responding));
    assert_eq!(action, RouteAction::Respond(shown(&expected)));
    assert_eq!(registry.resume(&mut route, RouteEvent::Delivered), finish(true, Vec::new()));
}

#[test]
fn form_that_is_turned_down_still_rerenders_and_pings() {
    let mut registry = registry_with(wizard());
    let (mut route, action) = registry.handle_modal(&mut form("bogus", Some("x")));
    let turned_down = RouteError::Modal(ModalError::UnknownModal("bogus".to_string()));
    assert_eq!(
        route,
        Route { msg: MSG, stage: RouteStage::Responding, errors: vec![turned_down.clone()] }
    );
    assert_eq!(action, RouteAction::Respond(shown(&wizard())));
    assert_eq!(page_in(&registry), wizard());
    assert_eq!(
        registry.resume(&mut route, RouteEvent::Delivered),
        finish(true, vec![turned_down.clone()])
    );

    let (mut route, _) = registry.handle_modal(&mut form("bogus", Some("x")));
    assert_eq!(
        registry.resume(&mut route, RouteEvent::Refused),
        finish(false, vec![turned_down, RouteError::Callback])
    );
}

#[test]
fn routes_leave_other_messages_and_the_entry_data_alone() {
    let mut registry = registry_with(wizard());
    registry.insert(MSG + 1, ActiveMessage::from(wizard()), 2);
    let other = registry.get(MSG + 1).cloned();
    registry.handle_component(&mut click("issue_labels", &["bug"]));
    registry.handle_modal(&mut form("issue_title", Some("T")));
    assert_eq!(registry.get(MSG + 1).cloned(), other);
    let entry = registry.get(MSG).unwrap();
    assert_eq!((entry.tx, entry.instance), (1, 0));
    assert_eq!(registry.len(), 2);
    assert_eq!(registry.insert(5, ActiveMessage::from(wizard()), 3), Some(2));
}

#[test]
fn builder_sends_as_reply_unless_told_to_update() {
    let mut builder = ActiveMessagesBuilder::new(wizard());
    assert_eq!(
        builder.begin(PageEvent::Render),
        BeginAction::Send { message: shown(&wizard()), by_update: false }
    );
    let mut builder = ActiveMessages::<u8>::builder(wizard()).start_by_update(true);
    assert_eq!(
        builder.begin(PageEvent::Render),
        BeginAction::Send { message: shown(&wizard()), by_update: true }
    );
    let mut builder = ActiveMessagesBuilder::new(ActiveMessage::from(wizard())).start_by_update(false);
    assert_eq!(
        builder.begin(PageEvent::Render),
        BeginAction::Send { message: shown(&wizard()), by_update: false }
    );
}

#[test]
fn builder_passes_on_what_the_render_asks_for() {
    let mut page = wizard();
    page.handle_modal(&mut form("issue_title", Some("T")));
    page.handle_component(&mut click("issue_labels", &["bug"]));
    page.handle_component(&mut click("issue_create", &[]));
    let mut builder = ActiveMessagesBuilder::new(page.clone());
    assert!(matches!(builder.begin(PageEvent::Render), BeginAction::CreateIssue(_)));
    assert_eq!(builder.begin(PageEvent::IssueFailed), BeginAction::Failed(PageError::CreateFailed));
    match builder.begin(PageEvent::IssueCreated { url: "u".to_string() }) {
        BeginAction::Send { message, by_update } => {
            assert!(!by_update);
            assert_eq!(message.components, Some(Vec::new()));
        }
        other => panic!("expected a page, got {:?}", other),
    }

    page.handle_modal(&mut form("issue_title", None));
    let mut untitled = ActiveMessagesBuilder::new(page);
    assert_eq!(untitled.begin(PageEvent::Render), BeginAction::Failed(PageError::MissingTitle));
}

#[test]
fn register_enters_the_page_and_hands_back_its_supervisor() {
    let mut registry: ActiveMessages<u8> = ActiveMessages::new();
    registry.insert(1, ActiveMessage::from(wizard()), 0);
    let builder = ActiveMessagesBuilder::new(wizard());
    let (supervisor, action) = builder.register(&mut registry, MSG, 2002, 9).unwrap();
    assert_eq!(
        supervisor,
        Supervisor { msg: MSG, channel: 2002, instance: 1, state: TimeoutState::Active }
    );
    assert_eq!(action, TimeoutAction::Wait { seconds: 60 });
    assert_eq!(page_in(&registry), wizard());
    assert_eq!(registry.keepalive(MSG), Some(&9));
    assert_eq!(registry.len(), 2);
    assert!(registry.expire(MSG, supervisor.instance).is_some());
}
