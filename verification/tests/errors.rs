use issue_bot::active::page::{name_after, ComponentError, ModalError, PageError};
use issue_bot::active::route::RouteError;

#[test]
fn page_errors_read_as_in_the_log() {
    assert_eq!(PageError::MissingTitle.to_string(), "Missing issue title");
    assert_eq!(PageError::CreateFailed.to_string(), "Failed to create issue");
}

#[test]
fn component_errors_name_the_control() {
    assert_eq!(
        ComponentError::UnknownComponent("bogus".to_string()).to_string(),
        "Unknown component `bogus`"
    );
    assert_eq!(
        ComponentError::MissingValue("issue_repository".to_string()).to_string(),
        "Missing value of component `issue_repository`"
    );
    assert_eq!(ComponentError::Incomplete.to_string(), "Missing issue title or labels");
    assert_eq!(ComponentError::AlreadyCreated.to_string(), "Issue exists already");
}

#[test]
fn modal_errors_name_the_form() {
    assert_eq!(ModalError::UnknownModal("bogus".to_string()).to_string(), "Unknown modal `bogus`");
    assert_eq!(ModalError::UnknownModal(String::new()).to_string(), "Unknown modal ``");
    assert_eq!(ModalError::MissingInput.to_string(), "Missing modal input");
}

#[test]
fn route_errors_say_where_things_went_wrong() {
    let texts = [
        (
            RouteError::UnknownComponent { name: "issue_title".to_string() },
            "Unknown message component `issue_title`",
        ),
        (RouteError::ModalWithoutMessage, "Received modal without message"),
        (RouteError::UnknownModal { name: "m".to_string() }, "Unknown modal `m`"),
        (
            RouteError::Component(ComponentError::Incomplete),
            "Failed to process component: Missing issue title or labels",
        ),
        (
            RouteError::Modal(ModalError::MissingInput),
            "Failed to process modal: Missing modal input",
        ),
        (
            RouteError::BuildPage(PageError::CreateFailed),
            "Failed to build page: Failed to create issue",
        ),
        (RouteError::CreateModal, "Failed to create modal"),
        (RouteError::Callback, "Failed to callback"),
        (RouteError::OutOfTurn, "Received a report out of turn"),
        (RouteError::Vanished, "Page is gone"),
    ];
    for (error, text) in texts {
        assert_eq!(error.to_string(), text);
    }
}

#[test]
fn name_after_puts_the_name_between_backticks() {
    assert_eq!(name_after("x ", "y"), "x `y`");
    assert_eq!(name_after("", ""), "``");
}
