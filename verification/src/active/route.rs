//! Routing of platform events to pages, and the opening of a page.
//!
//! Handling one event is a short exchange between the registry and its
//! driver. The registry answers the event with an action: present a form,
//! have an issue created, send the rendered page, or finish. The driver
//! performs the action and reports how it went, and so on until the
//! registry says finish. The driver holds the message's key for the whole
//! exchange, so no other event for the same message comes in between.

use vstd::prelude::*;
use vstd::std_specs::convert::IntoSpec;
use vstd::string::*;

use crate::active::page::{
    component_error_text, modal_error_text, name_after, naming, page_error_text, ComponentError,
    ComponentErrorView, ComponentResult, ComponentResultView, IActiveMessage, IssueRequest,
    IssueRequestView, ModalError, ModalErrorView, PageAction, PageActionView, PageError,
    PageEvent, PageEventView,
};
use crate::active::timeout::{Supervisor, TimeoutAction, TimeoutActionView, TimeoutState, IDLE_SECONDS};
use crate::active::{ActiveMessage, ActiveMessageView, ActiveMessages, FullActiveMessage};
use crate::util::builder::{
    MessageBuilder, MessageBuilderView, ModalBuilder, ModalBuilderView,
};
use crate::util::interaction::{
    InteractionComponent, InteractionComponentView, InteractionModal, InteractionModalView,
};

verus! {

/// What went wrong while an event was handled. None of these is fatal; they
/// are meant for the log.
#[derive(Clone, Debug, PartialEq, Eq)]
pub enum RouteError {
    /// A click came in for a message without a page; `name` identifies the
    /// control.
    UnknownComponent { name: String },
    /// A form came in that names no message.
    ModalWithoutMessage,
    /// A form came in for a message without a page; `name` identifies the
    /// form.
    UnknownModal { name: String },
    /// The page turned the click down.
    Component(ComponentError),
    /// The page turned the form down.
    Modal(ModalError),
    /// The render failed.
    BuildPage(PageError),
    /// The platform did not present the form.
    CreateModal,
    /// The platform did not take the rendered page.
    Callback,
    /// The driver reported something that was not asked for.
    OutOfTurn,
    /// The page was gone when the exchange went on.
    Vanished,
}

/// The mathematical value of a [`RouteError`].
pub enum RouteErrorView {
    UnknownComponent { name: Seq<char> },
    ModalWithoutMessage,
    UnknownModal { name: Seq<char> },
    Component(ComponentErrorView),
    Modal(ModalErrorView),
    BuildPage(PageError),
    CreateModal,
    Callback,
    OutOfTurn,
    Vanished,
}

impl DeepView for RouteError {
    type V = RouteErrorView;

    open spec fn deep_view(&self) -> RouteErrorView {
        match self {
            RouteError::UnknownComponent { name } => RouteErrorView::UnknownComponent {
                name: name@,
            },
            RouteError::ModalWithoutMessage => RouteErrorView::ModalWithoutMessage,
            RouteError::UnknownModal { name } => RouteErrorView::UnknownModal { name: name@ },
            RouteError::Component(error) => RouteErrorView::Component(error.deep_view()),
            RouteError::Modal(error) => RouteErrorView::Modal(error.deep_view()),
            RouteError::BuildPage(error) => RouteErrorView::BuildPage(*error),
            RouteError::CreateModal => RouteErrorView::CreateModal,
            RouteError::Callback => RouteErrorView::Callback,
            RouteError::OutOfTurn => RouteErrorView::OutOfTurn,
            RouteError::Vanished => RouteErrorView::Vanished,
        }
    }
}

/// What the log says of something that went wrong while an event was
/// handled.
pub open spec fn route_error_text(error: RouteErrorView) -> Seq<char> {
    match error {
        RouteErrorView::UnknownComponent { name } => naming("Unknown message component "@, name),
        RouteErrorView::ModalWithoutMessage => "Received modal without message"@,
        RouteErrorView::UnknownModal { name } => naming("Unknown modal "@, name),
        RouteErrorView::Component(error) => "Failed to process component: "@
            + component_error_text(error),
        RouteErrorView::Modal(error) => "Failed to process modal: "@ + modal_error_text(error),
        RouteErrorView::BuildPage(error) => "Failed to build page: "@ + page_error_text(error),
        RouteErrorView::CreateModal => "Failed to create modal"@,
        RouteErrorView::Callback => "Failed to callback"@,
        RouteErrorView::OutOfTurn => "Received a report out of turn"@,
        RouteErrorView::Vanished => "Page is gone"@,
    }
}

impl RouteError {
    /// What the log says of the error.
    pub fn to_string(&self) -> (text: String)
        ensures
            text@ == route_error_text(self.deep_view()),
    {
        match self {
            RouteError::UnknownComponent { name } => name_after(
                "Unknown message component ",
                name.as_str(),
            ),
            RouteError::ModalWithoutMessage => String::from_str("Received modal without message"),
            RouteError::UnknownModal { name } => name_after("Unknown modal ", name.as_str()),
            RouteError::Component(error) => {
                let mut text = String::from_str("Failed to process component: ");
                text.append(error.to_string().as_str());
                text
            },
            RouteError::Modal(error) => {
                let mut text = String::from_str("Failed to process modal: ");
                text.append(error.to_string().as_str());
                text
            },
            RouteError::BuildPage(error) => {
                let mut text = String::from_str("Failed to build page: ");
                text.append(error.to_string().as_str());
                text
            },
            RouteError::CreateModal => String::from_str("Failed to create modal"),
            RouteError::Callback => String::from_str("Failed to callback"),
            RouteError::OutOfTurn => String::from_str("Received a report out of turn"),
            RouteError::Vanished => String::from_str("Page is gone"),
        }
    }
}

/// What an exchange is waiting on.
#[derive(Clone, Copy, Debug, PartialEq, Eq, Structural)]
pub enum RouteStage {
    /// The form is being presented.
    PresentingModal,
    /// The issue is being created.
    CreatingIssue,
    /// The rendered page is being sent.
    Responding,
    /// The exchange is over.
    Finished,
}

/// The state of one exchange, which the driver keeps between its steps.
#[derive(Clone, Debug, PartialEq, Eq)]
pub struct Route {
    /// The message whose page handles the event.
    pub msg: u64,
    pub stage: RouteStage,
    /// What went wrong so far without ending the exchange.
    pub errors: Vec<RouteError>,
}

/// The mathematical value of a [`Route`].
pub struct RouteView {
    pub msg: u64,
    pub stage: RouteStage,
    pub errors: Seq<RouteErrorView>,
}

impl DeepView for Route {
    type V = RouteView;

    open spec fn deep_view(&self) -> RouteView {
        RouteView { msg: self.msg, stage: self.stage, errors: self.errors.deep_view() }
    }
}

/// What the driver reports.
#[derive(Clone, Debug, PartialEq, Eq)]
pub enum RouteEvent {
    /// The platform took what was sent: the form or the rendered page.
    Delivered,
    /// The platform did not take what was sent.
    Refused,
    /// The issue tracker created the issue; `url` is where it can be seen.
    IssueCreated { url: String },
    /// The issue tracker did not create the issue.
    IssueFailed,
}

/// The mathematical value of a [`RouteEvent`].
pub enum RouteEventView {
    Delivered,
    Refused,
    IssueCreated { url: Seq<char> },
    IssueFailed,
}

impl DeepView for RouteEvent {
    type V = RouteEventView;

    open spec fn deep_view(&self) -> RouteEventView {
        match self {
            RouteEvent::Delivered => RouteEventView::Delivered,
            RouteEvent::Refused => RouteEventView::Refused,
            RouteEvent::IssueCreated { url } => RouteEventView::IssueCreated { url: url@ },
            RouteEvent::IssueFailed => RouteEventView::IssueFailed,
        }
    }
}

/// What the driver is to do next.
#[derive(Clone, Debug, PartialEq, Eq)]
pub enum RouteAction {
    /// Present this form in answer to the event, and report whether the
    /// platform took it.
    PresentModal(ModalBuilder),
    /// Have this issue created, and report how that went.
    CreateIssue(IssueRequest),
    /// Send this in answer to the event, and report whether the platform
    /// took it.
    Respond(MessageBuilder),
    /// The exchange is over. Send a keepalive to the entry's supervisor if
    /// `keepalive` says so, and log `errors`.
    Finish { keepalive: bool, errors: Vec<RouteError> },
}

/// The mathematical value of a [`RouteAction`].
pub enum RouteActionView {
    PresentModal(ModalBuilderView),
    CreateIssue(IssueRequestView),
    Respond(MessageBuilderView),
    Finish { keepalive: bool, errors: Seq<RouteErrorView> },
}

impl DeepView for RouteAction {
    type V = RouteActionView;

    open spec fn deep_view(&self) -> RouteActionView {
        match self {
            RouteAction::PresentModal(modal) => RouteActionView::PresentModal(modal.deep_view()),
            RouteAction::CreateIssue(request) => RouteActionView::CreateIssue(request.deep_view()),
            RouteAction::Respond(message) => RouteActionView::Respond(message.deep_view()),
            RouteAction::Finish { keepalive, errors } => RouteActionView::Finish {
                keepalive: *keepalive,
                errors: errors.deep_view(),
            },
        }
    }
}

/// The page of `msg` among the entries `m`, if it has one.
pub open spec fn page_of<K>(m: Map<u64, FullActiveMessage<K>>, msg: u64) -> Option<
    ActiveMessageView,
> {
    if m.contains_key(msg) {
        Some(m[msg].active_msg.deep_view())
    } else {
        None
    }
}

/// Whether `after` differs from `before` at most in the page of `msg`:
/// the same messages have an entry, every other entry is the same, and the
/// entry of `msg` has kept its sender of keepalives and its number.
pub open spec fn same_but_page<K>(
    before: Map<u64, FullActiveMessage<K>>,
    after: Map<u64, FullActiveMessage<K>>,
    msg: u64,
) -> bool {
    &&& after.dom() == before.dom()
    &&& forall|other: u64| other != msg && before.contains_key(other) ==> after[other] == before[other]
    &&& before.contains_key(msg) ==> after[msg].tx == before[msg].tx && after[msg].instance
        == before[msg].instance
}

/// An exchange that is over.
pub open spec fn finished(msg: u64) -> RouteView {
    RouteView { msg, stage: RouteStage::Finished, errors: Seq::empty() }
}

/// The message that shows a page: its rendered body and its controls.
pub open spec fn page_message(
    embed: crate::util::builder::EmbedBuilderView,
    page: ActiveMessageView,
) -> MessageBuilderView {
    MessageBuilderView {
        content: None,
        embed: Some(embed),
        components: Some(ActiveMessage::spec_build_components(page)),
    }
}

/// One render step within an exchange about `msg` in which `errors` went
/// wrong so far: the page afterwards, the exchange afterwards, and the
/// action.
///
/// A rendered page is sent together with the page's controls. A render
/// that asks for an issue has it created. A render that fails ends the
/// exchange without a keepalive.
pub open spec fn render_step(
    page: ActiveMessageView,
    event: PageEventView,
    msg: u64,
    errors: Seq<RouteErrorView>,
) -> (ActiveMessageView, RouteView, RouteActionView) {
    let (next, action) = ActiveMessage::spec_build_page(page, event);
    match action {
        PageActionView::Rendered(embed) => (
            next,
            RouteView { msg, stage: RouteStage::Responding, errors },
            RouteActionView::Respond(page_message(embed, next)),
        ),
        PageActionView::CreateIssue(request) => (
            next,
            RouteView { msg, stage: RouteStage::CreatingIssue, errors },
            RouteActionView::CreateIssue(request),
        ),
        PageActionView::Failed(error) => (
            next,
            finished(msg),
            RouteActionView::Finish {
                keepalive: false,
                errors: errors.push(RouteErrorView::BuildPage(error)),
            },
        ),
    }
}

/// The first step of the exchange about a click `c`, where `page` is the
/// page of the click's message, if it has one: the page afterwards, the
/// exchange, the action, and the click as the page leaves it.
///
/// Without a page the click is dropped. Else the page handles it: a form
/// is presented, a changed page is rendered anew, and a click that the
/// page turns down ends the exchange without a keepalive.
pub open spec fn component_step(page: Option<ActiveMessageView>, c: InteractionComponentView) -> (
    Option<ActiveMessageView>,
    RouteView,
    RouteActionView,
    InteractionComponentView,
) {
    match page {
        None => (
            None,
            finished(c.message_id),
            RouteActionView::Finish {
                keepalive: false,
                errors: seq![RouteErrorView::UnknownComponent { name: c.custom_id }],
            },
            c,
        ),
        Some(page) => {
            let (next, directive, left) = ActiveMessage::spec_handle_component(page, c);
            match directive {
                ComponentResultView::CreateModal(modal) => (
                    Some(next),
                    RouteView {
                        msg: c.message_id,
                        stage: RouteStage::PresentingModal,
                        errors: Seq::empty(),
                    },
                    RouteActionView::PresentModal(modal),
                    left,
                ),
                ComponentResultView::BuildPage => {
                    let (shown, route, action) = render_step(
                        next,
                        PageEventView::Render,
                        c.message_id,
                        Seq::empty(),
                    );
                    (Some(shown), route, action, left)
                },
                ComponentResultView::Failed(error) => (
                    Some(next),
                    finished(c.message_id),
                    RouteActionView::Finish {
                        keepalive: false,
                        errors: seq![RouteErrorView::Component(error)],
                    },
                    left,
                ),
            }
        },
    }
}

/// The first step of the exchange about a form `m` that names the message
/// `msg`, where `page` is the page of that message, if it has one: the
/// page afterwards, the exchange, the action, and the form as the page
/// leaves it.
///
/// Without a page the form is dropped. Else the page takes the form in and
/// is rendered anew, whether or not it turned the form down; what it
/// turned down is kept for the log.
pub open spec fn modal_step(page: Option<ActiveMessageView>, m: InteractionModalView, msg: u64)
    -> (Option<ActiveMessageView>, RouteView, RouteActionView, InteractionModalView) {
    match page {
        None => (
            None,
            finished(msg),
            RouteActionView::Finish {
                keepalive: false,
                errors: seq![RouteErrorView::UnknownModal { name: m.custom_id }],
            },
            m,
        ),
        Some(page) => {
            let (next, outcome, left) = ActiveMessage::spec_handle_modal(page, m);
            let errors = match outcome {
                Ok(_) => Seq::empty(),
                Err(error) => seq![RouteErrorView::Modal(error)],
            };
            let (shown, route, action) = render_step(next, PageEventView::Render, msg, errors);
            (Some(shown), route, action, left)
        },
    }
}

/// The end of an exchange in which `errors` went wrong.
pub open spec fn finish(keepalive: bool, errors: Seq<RouteErrorView>) -> RouteActionView {
    RouteActionView::Finish { keepalive, errors }
}

/// A later step of an exchange: the page afterwards, the exchange
/// afterwards, and the action.
///
/// Once the platform has taken the form or the rendered page, the exchange
/// ends with a keepalive; if the platform did not take it, without one.
/// Once the issue is created, or is not, the page is told and the render
/// goes on. A report that the exchange did not wait for ends it without a
/// keepalive, and so does a page that is gone.
pub open spec fn resume_step(page: Option<ActiveMessageView>, route: RouteView, event: RouteEventView)
    -> (Option<ActiveMessageView>, RouteView, RouteActionView) {
    match (route.stage, event) {
        (RouteStage::PresentingModal, RouteEventView::Delivered) => (
            page,
            finished(route.msg),
            finish(true, route.errors),
        ),
        (RouteStage::PresentingModal, RouteEventView::Refused) => (
            page,
            finished(route.msg),
            finish(false, route.errors.push(RouteErrorView::CreateModal)),
        ),
        (RouteStage::Responding, RouteEventView::Delivered) => (
            page,
            finished(route.msg),
            finish(true, route.errors),
        ),
        (RouteStage::Responding, RouteEventView::Refused) => (
            page,
            finished(route.msg),
            finish(false, route.errors.push(RouteErrorView::Callback)),
        ),
        (RouteStage::CreatingIssue, RouteEventView::IssueCreated { url }) => match page {
            Some(page) => {
                let (shown, next, action) = render_step(
                    page,
                    PageEventView::IssueCreated { url },
                    route.msg,
                    route.errors,
                );
                (Some(shown), next, action)
            },
            None => (
                None,
                finished(route.msg),
                finish(false, route.errors.push(RouteErrorView::Vanished)),
            ),
        },
        (RouteStage::CreatingIssue, RouteEventView::IssueFailed) => match page {
            Some(page) => {
                let (shown, next, action) = render_step(
                    page,
                    PageEventView::IssueFailed,
                    route.msg,
                    route.errors,
                );
                (Some(shown), next, action)
            },
            None => (
                None,
                finished(route.msg),
                finish(false, route.errors.push(RouteErrorView::Vanished)),
            ),
        },
        _ => (page, finished(route.msg), finish(false, route.errors.push(RouteErrorView::OutOfTurn))),
    }
}

/// An exchange that is over.
fn finished_route(msg: u64) -> (route: Route)
    ensures
        route.deep_view() == finished(msg),
{
    let route = Route { msg, stage: RouteStage::Finished, errors: Vec::new() };
    assert(route.errors.deep_view() =~= Seq::empty());
    route
}

/// `errors` with `error` added at the end.
fn with_error(errors: Vec<RouteError>, error: RouteError) -> (all: Vec<RouteError>)
    ensures
        all.deep_view() == errors.deep_view().push(error.deep_view()),
{
    let mut all = errors;
    all.push(error);
    all
}

/// One render step within an exchange.
fn render(page: &mut ActiveMessage, event: PageEvent, msg: u64, errors: Vec<RouteError>) -> (next:
    (Route, RouteAction))
    ensures
        (final(page).deep_view(), next.0.deep_view(), next.1.deep_view()) == render_step(
            old(page).deep_view(),
            event.deep_view(),
            msg,
            errors.deep_view(),
        ),
{
    match page.build_page(event) {
        PageAction::Rendered(embed) => {
            let message = MessageBuilder::new().embed(embed).components(page.build_components());
            (Route { msg, stage: RouteStage::Responding, errors }, RouteAction::Respond(message))
        },
        PageAction::CreateIssue(request) => (
            Route { msg, stage: RouteStage::CreatingIssue, errors },
            RouteAction::CreateIssue(request),
        ),
        PageAction::Failed(error) => (
            finished_route(msg),
            RouteAction::Finish {
                keepalive: false,
                errors: with_error(errors, RouteError::BuildPage(error)),
            },
        ),
    }
}

impl<K> ActiveMessages<K> {
    /// The first step of handling a click: looks up the page of the
    /// click's message, which must exist, and lets it handle the click.
    pub fn handle_component(&mut self, component: &mut InteractionComponent) -> (started: (
        Route,
        RouteAction,
    ))
        requires
            old(self).well_formed(),
        ensures
            final(self).well_formed(),
            final(self).spec_next_instance() == old(self).spec_next_instance(),
            same_but_page(old(self)@, final(self)@, old(component).message_id),
            (
                page_of(final(self)@, old(component).message_id),
                started.0.deep_view(),
                started.1.deep_view(),
                final(component).deep_view(),
            ) == component_step(
                page_of(old(self)@, old(component).message_id),
                old(component).deep_view(),
            ),
    {
        let msg = component.message_id;
        match self.remove(msg) {
            None => {
                let error = RouteError::UnknownComponent { name: component.custom_id.clone() };
                let errors = with_error(Vec::new(), error);
                assert(errors.deep_view() =~= seq![error.deep_view()]);
                (finished_route(msg), RouteAction::Finish { keepalive: false, errors })
            },
            Some(entry) => {
                let mut entry = entry;
                let started = match entry.active_msg.handle_component(component) {
                    ComponentResult::CreateModal(modal) => {
                        let route = Route {
                            msg,
                            stage: RouteStage::PresentingModal,
                            errors: Vec::new(),
                        };
                        assert(route.errors.deep_view() =~= Seq::empty());
                        (route, RouteAction::PresentModal(modal))
                    },
                    ComponentResult::BuildPage => {
                        let none: Vec<RouteError> = Vec::new();
                        assert(none.deep_view() =~= Seq::empty());
                        render(&mut entry.active_msg, PageEvent::Render, msg, none)
                    },
                    ComponentResult::Failed(error) => {
                        let error = RouteError::Component(error);
                        let errors = with_error(Vec::new(), error);
                        assert(errors.deep_view() =~= seq![error.deep_view()]);
                        (finished_route(msg), RouteAction::Finish { keepalive: false, errors })
                    },
                };
                self.restore(msg, entry);
                started
            },
        }
    }

    /// The first step of handling a submitted form: looks up the page of
    /// the message that the form names, lets it take the form in, and
    /// renders it anew. A form that names no message is dropped; the
    /// exchange that is handed back for it is over and stands under
    /// message zero.
    pub fn handle_modal(&mut self, modal: &mut InteractionModal) -> (started: (Route, RouteAction))
        requires
            old(self).well_formed(),
        ensures
            final(self).well_formed(),
            final(self).spec_next_instance() == old(self).spec_next_instance(),
            match old(modal).message_id {
                None => {
                    &&& final(self)@ == old(self)@
                    &&& final(modal).deep_view() == old(modal).deep_view()
                    &&& started.0.deep_view() == finished(0)
                    &&& started.1.deep_view() == finish(
                        false,
                        seq![RouteErrorView::ModalWithoutMessage],
                    )
                },
                Some(msg) => {
                    &&& same_but_page(old(self)@, final(self)@, msg)
                    &&& (
                        page_of(final(self)@, msg),
                        started.0.deep_view(),
                        started.1.deep_view(),
                        final(modal).deep_view(),
                    ) == modal_step(page_of(old(self)@, msg), old(modal).deep_view(), msg)
                },
            },
    {
        let msg = match modal.message_id {
            Some(msg) => msg,
            None => {
                let errors = with_error(Vec::new(), RouteError::ModalWithoutMessage);
                assert(errors.deep_view() =~= seq![RouteErrorView::ModalWithoutMessage]);
                return (finished_route(0), RouteAction::Finish { keepalive: false, errors });
            },
        };
        match self.remove(msg) {
            None => {
                let error = RouteError::UnknownModal { name: modal.custom_id.clone() };
                let errors = with_error(Vec::new(), error);
                assert(errors.deep_view() =~= seq![error.deep_view()]);
                (finished_route(msg), RouteAction::Finish { keepalive: false, errors })
            },
            Some(entry) => {
                let mut entry = entry;
                let errors = match entry.active_msg.handle_modal(modal) {
                    Ok(_) => {
                        let none: Vec<RouteError> = Vec::new();
                        assert(none.deep_view() =~= Seq::empty());
                        none
                    },
                    Err(error) => {
                        let error = RouteError::Modal(error);
                        let errors = with_error(Vec::new(), error);
                        assert(errors.deep_view() =~= seq![error.deep_view()]);
                        errors
                    },
                };
                let started = render(&mut entry.active_msg, PageEvent::Render, msg, errors);
                self.restore(msg, entry);
                started
            },
        }
    }

    /// A later step of an exchange: takes in what the driver reports and
    /// says what to do next.
    pub fn resume(&mut self, route: &mut Route, event: RouteEvent) -> (action: RouteAction)
        requires
            old(self).well_formed(),
        ensures
            final(self).well_formed(),
            final(self).spec_next_instance() == old(self).spec_next_instance(),
            same_but_page(old(self)@, final(self)@, old(route).msg),
            (page_of(final(self)@, old(route).msg), final(route).deep_view(), action.deep_view())
                == resume_step(
                page_of(old(self)@, old(route).msg),
                old(route).deep_view(),
                event.deep_view(),
            ),
    {
        let msg = route.msg;
        let mut errors: Vec<RouteError> = Vec::new();
        assert(errors.deep_view() =~= Seq::empty());
        std::mem::swap(&mut route.errors, &mut errors);
        let stage = route.stage;
        route.stage = RouteStage::Finished;
        let page_event = match (stage, event) {
            (RouteStage::PresentingModal, RouteEvent::Delivered) => {
                return RouteAction::Finish { keepalive: true, errors };
            },
            (RouteStage::PresentingModal, RouteEvent::Refused) => {
                return RouteAction::Finish {
                    keepalive: false,
                    errors: with_error(errors, RouteError::CreateModal),
                };
            },
            (RouteStage::Responding, RouteEvent::Delivered) => {
                return RouteAction::Finish { keepalive: true, errors };
            },
            (RouteStage::Responding, RouteEvent::Refused) => {
                return RouteAction::Finish {
                    keepalive: false,
                    errors: with_error(errors, RouteError::Callback),
                };
            },
            (RouteStage::CreatingIssue, RouteEvent::IssueCreated { url }) => {
                PageEvent::IssueCreated { url }
            },
            (RouteStage::CreatingIssue, RouteEvent::IssueFailed) => PageEvent::IssueFailed,
            _ => {
                return RouteAction::Finish {
                    keepalive: false,
                    errors: with_error(errors, RouteError::OutOfTurn),
                };
            },
        };
        match self.remove(msg) {
            None => {
                RouteAction::Finish {
                    keepalive: false,
                    errors: with_error(errors, RouteError::Vanished),
                }
            },
            Some(entry) => {
                let mut entry = entry;
                let (next, action) = render(&mut entry.active_msg, page_event, msg, errors);
                *route = next;
                self.restore(msg, entry);
                action
            },
        }
    }
}

/// What the driver is to do next while a page is being opened.
#[derive(Clone, Debug, PartialEq, Eq)]
pub enum BeginAction {
    /// Send `message`: as an update of the message that the command came
    /// from if `by_update` says so, else as a new reply. Then register the
    /// page under the message that shows it.
    Send { message: MessageBuilder, by_update: bool },
    /// Have this issue created first, and report how that went.
    CreateIssue(IssueRequest),
    /// The render failed; the page is not opened.
    Failed(PageError),
}

/// The mathematical value of a [`BeginAction`].
pub enum BeginActionView {
    Send { message: MessageBuilderView, by_update: bool },
    CreateIssue(IssueRequestView),
    Failed(PageError),
}

impl DeepView for BeginAction {
    type V = BeginActionView;

    open spec fn deep_view(&self) -> BeginActionView {
        match self {
            BeginAction::Send { message, by_update } => BeginActionView::Send {
                message: message.deep_view(),
                by_update: *by_update,
            },
            BeginAction::CreateIssue(request) => BeginActionView::CreateIssue(request.deep_view()),
            BeginAction::Failed(error) => BeginActionView::Failed(*error),
        }
    }
}

/// One step of opening a page: the page afterwards and the action.
///
/// The page is rendered. A rendered page is sent with its controls, as an
/// update only if that was asked for. A render that asks for an issue has
/// it created; a render that fails ends the opening.
pub open spec fn begin_step(
    page: ActiveMessageView,
    start_by_update: Option<bool>,
    event: PageEventView,
) -> (ActiveMessageView, BeginActionView) {
    let (next, action) = ActiveMessage::spec_build_page(page, event);
    match action {
        PageActionView::Rendered(embed) => (
            next,
            BeginActionView::Send {
                message: page_message(embed, next),
                by_update: start_by_update == Some(true),
            },
        ),
        PageActionView::CreateIssue(request) => (next, BeginActionView::CreateIssue(request)),
        PageActionView::Failed(error) => (next, BeginActionView::Failed(error)),
    }
}

/// A page that is about to be opened.
#[derive(Clone, Debug, PartialEq, Eq)]
pub struct ActiveMessagesBuilder {
    inner: ActiveMessage,
    start_by_update: Option<bool>,
}

impl ActiveMessagesBuilder {
    /// The page to open.
    pub closed spec fn page(&self) -> ActiveMessageView {
        self.inner.deep_view()
    }

    /// Whether the page is to be sent as an update, where that was said.
    pub closed spec fn spec_start_by_update(&self) -> Option<bool> {
        self.start_by_update
    }

    /// Prepares the opening of `active_msg`. The page is sent as a new
    /// reply unless [`Self::start_by_update`] says otherwise.
    pub fn new<T: Into<ActiveMessage>>(active_msg: T) -> (builder: Self)
        ensures
            T::obeys_into_spec() ==> builder.page() == active_msg.into_spec().deep_view(),
            builder.spec_start_by_update() is None,
    {
        ActiveMessagesBuilder { inner: active_msg.into(), start_by_update: None }
    }

    /// Says whether the page is to be sent as an update of the message
    /// that the command came from.
    pub fn start_by_update(self, start_by_update: bool) -> (builder: Self)
        ensures
            builder.page() == self.page(),
            builder.spec_start_by_update() == Some(start_by_update),
    {
        ActiveMessagesBuilder { inner: self.inner, start_by_update: Some(start_by_update) }
    }

    /// One step of opening the page. Called with [`PageEvent::Render`]
    /// first; where it asks for an issue, called again with the outcome.
    pub fn begin(&mut self, event: PageEvent) -> (action: BeginAction)
        ensures
            final(self).spec_start_by_update() == old(self).spec_start_by_update(),
            (final(self).page(), action.deep_view()) == begin_step(
                old(self).page(),
                old(self).spec_start_by_update(),
                event.deep_view(),
            ),
    {
        match self.inner.build_page(event) {
            PageAction::Rendered(embed) => {
                let message = MessageBuilder::new().embed(embed).components(
                    self.inner.build_components(),
                );
                let by_update = match self.start_by_update {
                    Some(update) => update,
                    None => false,
                };
                BeginAction::Send { message, by_update }
            },
            PageAction::CreateIssue(request) => BeginAction::CreateIssue(request),
            PageAction::Failed(error) => BeginAction::Failed(error),
        }
    }

    /// The last step of opening the page, once it was sent and shows as
    /// message `msg` in `channel`: enters the page into `registry` under
    /// `msg`, with `tx` as its sender of keepalives, and hands back the
    /// supervisor of the new entry with its first action. Nothing is
    /// entered, and no supervisor made, where the registry has used up its
    /// numbers.
    pub fn register<K>(self, registry: &mut ActiveMessages<K>, msg: u64, channel: u64, tx: K) -> (supervised:
        Option<(Supervisor, TimeoutAction)>)
        requires
            old(registry).well_formed(),
        ensures
            final(registry).well_formed(),
            match supervised {
                Some((supervisor, action)) => {
                    &&& supervisor == (Supervisor {
                        msg,
                        channel,
                        instance: old(registry).spec_next_instance(),
                        state: TimeoutState::Active,
                    })
                    &&& action.deep_view() == (TimeoutActionView::Wait { seconds: IDLE_SECONDS })
                    &&& final(registry).spec_next_instance() == old(registry).spec_next_instance()
                        + 1
                    &&& final(registry)@.dom() == old(registry)@.dom().insert(msg)
                    &&& page_of(final(registry)@, msg) == Some(self.page())
                    &&& final(registry)@[msg].tx == tx
                    &&& final(registry)@[msg].instance == supervisor.instance
                    &&& forall|other: u64|
                        other != msg && old(registry)@.contains_key(other) ==> final(registry)@[other]
                            == old(registry)@[other]
                },
                None => {
                    &&& old(registry).spec_next_instance() == u64::MAX
                    &&& final(registry).spec_next_instance() == u64::MAX
                    &&& final(registry)@ == old(registry)@
                },
            },
    {
        match registry.insert(msg, self.inner, tx) {
            Some(instance) => Some(Supervisor::new(msg, channel, instance)),
            None => None,
        }
    }
}

impl<K> ActiveMessages<K> {
    /// Prepares the opening of `active_msg`.
    pub fn builder<T: Into<ActiveMessage>>(active_msg: T) -> (builder: ActiveMessagesBuilder)
        ensures
            T::obeys_into_spec() ==> builder.page() == active_msg.into_spec().deep_view(),
            builder.spec_start_by_update() is None,
    {
        ActiveMessagesBuilder::new(active_msg)
    }
}

/// A keepalive is sent exactly when the platform has taken a form or a
/// rendered page: an exchange ends with a keepalive if and only if it was
/// waiting for the platform to take one of the two and is told that it
/// did. No first step ends with a keepalive, so a click or a form that is
/// dropped or turned down, and a render that fails, extend no page's life.
pub proof fn law_keepalive_iff_delivered(
    page: Option<ActiveMessageView>,
    route: RouteView,
    event: RouteEventView,
    c: InteractionComponentView,
    m: InteractionModalView,
    msg: u64,
)
    ensures
        (resume_step(page, route, event).2 matches RouteActionView::Finish { keepalive, .. }
            && keepalive) <==> (route.stage == RouteStage::PresentingModal || route.stage
            == RouteStage::Responding) && event is Delivered,
        component_step(page, c).2 matches RouteActionView::Finish { keepalive, .. } ==> !keepalive,
        modal_step(page, m, msg).2 matches RouteActionView::Finish { keepalive, .. } ==> !keepalive,
{
}

/// An exchange that has ended stays ended, and an ended exchange is what
/// every finishing action leaves behind.
pub proof fn law_finish_ends_the_exchange(
    page: Option<ActiveMessageView>,
    route: RouteView,
    event: RouteEventView,
)
    ensures
        resume_step(page, route, event).2 is Finish <==> resume_step(page, route, event).1.stage
            == RouteStage::Finished,
        route.stage == RouteStage::Finished ==> resume_step(page, route, event).2 is Finish,
{
}

/// How many reports an exchange in this stage can still take before it is
/// over.
pub open spec fn steps_left(stage: RouteStage) -> nat {
    match stage {
        RouteStage::Finished => 0,
        RouteStage::PresentingModal => 1,
        RouteStage::Responding => 1,
        RouteStage::CreatingIssue => 2,
    }
}

/// Every report brings an exchange nearer to its end, so an exchange is
/// over after two reports at most: the outcome of creating the issue, and
/// whether the platform took what was sent.
pub proof fn law_exchange_makes_progress(
    page: Option<ActiveMessageView>,
    route: RouteView,
    event: RouteEventView,
)
    requires
        route.stage != RouteStage::Finished,
    ensures
        steps_left(resume_step(page, route, event).1.stage) < steps_left(route.stage),
        resume_step(page, route, event).1.msg == route.msg,
{
}

} // verus!
