//! The page contract: what every interactive page can do, and the values
//! that pass between a page and whoever drives it.

use vstd::prelude::*;
use vstd::string::*;

use crate::util::builder::{
    ActionRow, ActionRowView, EmbedBuilder, EmbedBuilderView, ModalBuilder, ModalBuilderView,
};
use crate::util::interaction::{
    InteractionComponent, InteractionComponentView, InteractionModal, InteractionModalView,
};

verus! {

/// What the issue tracker is asked to create.
#[derive(Clone, Debug, PartialEq, Eq)]
pub struct IssueRequest {
    pub repository: String,
    pub title: String,
    pub body: String,
    pub labels: Vec<String>,
}

/// The mathematical value of an [`IssueRequest`].
pub struct IssueRequestView {
    pub repository: Seq<char>,
    pub title: Seq<char>,
    pub body: Seq<char>,
    pub labels: Seq<Seq<char>>,
}

impl DeepView for IssueRequest {
    type V = IssueRequestView;

    open spec fn deep_view(&self) -> IssueRequestView {
        IssueRequestView {
            repository: self.repository@,
            title: self.title@,
            body: self.body@,
            labels: self.labels.deep_view(),
        }
    }
}

/// What a render is told: that it starts, or how the outside work that the
/// page asked for went.
#[derive(Clone, Debug, PartialEq, Eq)]
pub enum PageEvent {
    /// A render starts.
    Render,
    /// The issue tracker created the issue; `url` is where it can be seen.
    IssueCreated { url: String },
    /// The issue tracker did not create the issue.
    IssueFailed,
}

/// The mathematical value of a [`PageEvent`].
pub enum PageEventView {
    Render,
    IssueCreated { url: Seq<char> },
    IssueFailed,
}

impl DeepView for PageEvent {
    type V = PageEventView;

    open spec fn deep_view(&self) -> PageEventView {
        match self {
            PageEvent::Render => PageEventView::Render,
            PageEvent::IssueCreated { url } => PageEventView::IssueCreated { url: url@ },
            PageEvent::IssueFailed => PageEventView::IssueFailed,
        }
    }
}

/// Why a render gave no page.
#[derive(Clone, Copy, Debug, PartialEq, Eq, Structural)]
pub enum PageError {
    /// An issue was to be created, but no title is set.
    MissingTitle,
    /// The issue tracker did not create the issue.
    CreateFailed,
}

/// What a render step hands back.
#[derive(Clone, Debug, PartialEq, Eq)]
pub enum PageAction {
    /// The page as it is to be shown. The render is over.
    Rendered(EmbedBuilder),
    /// Outside work is due first: create this issue and tell the page how
    /// that went.
    CreateIssue(IssueRequest),
    /// The render failed. The page is as it was.
    Failed(PageError),
}

/// The mathematical value of a [`PageAction`].
pub enum PageActionView {
    Rendered(EmbedBuilderView),
    CreateIssue(IssueRequestView),
    Failed(PageError),
}

impl DeepView for PageAction {
    type V = PageActionView;

    open spec fn deep_view(&self) -> PageActionView {
        match self {
            PageAction::Rendered(embed) => PageActionView::Rendered(embed.deep_view()),
            PageAction::CreateIssue(request) => PageActionView::CreateIssue(request.deep_view()),
            PageAction::Failed(error) => PageActionView::Failed(*error),
        }
    }
}

/// Why a click was turned down.
#[derive(Clone, Debug, PartialEq, Eq)]
pub enum ComponentError {
    /// No control of the page has this identifier.
    UnknownComponent(String),
    /// A select menu came without a chosen value.
    MissingValue(String),
    /// Submit was pressed while the title or the labels are missing.
    Incomplete,
    /// Submit was pressed on a page whose issue exists already.
    AlreadyCreated,
}

/// The mathematical value of a [`ComponentError`].
pub enum ComponentErrorView {
    UnknownComponent(Seq<char>),
    MissingValue(Seq<char>),
    Incomplete,
    AlreadyCreated,
}

impl DeepView for ComponentError {
    type V = ComponentErrorView;

    open spec fn deep_view(&self) -> ComponentErrorView {
        match self {
            ComponentError::UnknownComponent(id) => ComponentErrorView::UnknownComponent(id@),
            ComponentError::MissingValue(id) => ComponentErrorView::MissingValue(id@),
            ComponentError::Incomplete => ComponentErrorView::Incomplete,
            ComponentError::AlreadyCreated => ComponentErrorView::AlreadyCreated,
        }
    }
}

/// What the log says of a render that gave no page.
pub open spec fn page_error_text(error: PageError) -> Seq<char> {
    match error {
        PageError::MissingTitle => "Missing issue title"@,
        PageError::CreateFailed => "Failed to create issue"@,
    }
}

impl PageError {
    /// What the log says of the error.
    pub fn to_string(&self) -> (text: String)
        ensures
            text@ == page_error_text(*self),
    {
        match self {
            PageError::MissingTitle => String::from_str("Missing issue title"),
            PageError::CreateFailed => String::from_str("Failed to create issue"),
        }
    }
}

/// `name` between backticks, after `before`.
pub open spec fn naming(before: Seq<char>, name: Seq<char>) -> Seq<char> {
    before + seq!['`'] + name + seq!['`']
}

/// `name` between backticks, after `before`.
pub fn name_after(before: &str, name: &str) -> (text: String)
    ensures
        text@ == naming(before@, name@),
{
    let mut text = String::from_str(before);
    text.append("`");
    text.append(name);
    text.append("`");
    proof {
        reveal_strlit("`");
    }
    text
}

/// What the log says of a click that was turned down.
pub open spec fn component_error_text(error: ComponentErrorView) -> Seq<char> {
    match error {
        ComponentErrorView::UnknownComponent(id) => naming("Unknown component "@, id),
        ComponentErrorView::MissingValue(id) => naming("Missing value of component "@, id),
        ComponentErrorView::Incomplete => "Missing issue title or labels"@,
        ComponentErrorView::AlreadyCreated => "Issue exists already"@,
    }
}

impl ComponentError {
    /// What the log says of the error.
    pub fn to_string(&self) -> (text: String)
        ensures
            text@ == component_error_text(self.deep_view()),
    {
        match self {
            ComponentError::UnknownComponent(id) => name_after("Unknown component ", id.as_str()),
            ComponentError::MissingValue(id) => name_after(
                "Missing value of component ",
                id.as_str(),
            ),
            ComponentError::Incomplete => String::from_str("Missing issue title or labels"),
            ComponentError::AlreadyCreated => String::from_str("Issue exists already"),
        }
    }
}

/// What a page answers to a click: the directive for whoever routed it.
#[derive(Clone, Debug, PartialEq, Eq)]
pub enum ComponentResult {
    /// Present this form to the user.
    CreateModal(ModalBuilder),
    /// The page changed: render it anew.
    BuildPage,
    /// The click was turned down; the page is as it was.
    Failed(ComponentError),
}

/// The mathematical value of a [`ComponentResult`].
pub enum ComponentResultView {
    CreateModal(ModalBuilderView),
    BuildPage,
    Failed(ComponentErrorView),
}

impl DeepView for ComponentResult {
    type V = ComponentResultView;

    open spec fn deep_view(&self) -> ComponentResultView {
        match self {
            ComponentResult::CreateModal(modal) => ComponentResultView::CreateModal(
                modal.deep_view(),
            ),
            ComponentResult::BuildPage => ComponentResultView::BuildPage,
            ComponentResult::Failed(error) => ComponentResultView::Failed(error.deep_view()),
        }
    }
}

/// Why a submitted form was turned down.
#[derive(Clone, Debug, PartialEq, Eq)]
pub enum ModalError {
    /// The page has no form with this identifier.
    UnknownModal(String),
    /// The form lacks the input that the page reads.
    MissingInput,
}

/// The mathematical value of a [`ModalError`].
pub enum ModalErrorView {
    UnknownModal(Seq<char>),
    MissingInput,
}

impl DeepView for ModalError {
    type V = ModalErrorView;

    open spec fn deep_view(&self) -> ModalErrorView {
        match self {
            ModalError::UnknownModal(id) => ModalErrorView::UnknownModal(id@),
            ModalError::MissingInput => ModalErrorView::MissingInput,
        }
    }
}

/// What the log says of a form that was turned down.
pub open spec fn modal_error_text(error: ModalErrorView) -> Seq<char> {
    match error {
        ModalErrorView::UnknownModal(id) => naming("Unknown modal "@, id),
        ModalErrorView::MissingInput => "Missing modal input"@,
    }
}

impl ModalError {
    /// What the log says of the error.
    pub fn to_string(&self) -> (text: String)
        ensures
            text@ == modal_error_text(self.deep_view()),
    {
        match self {
            ModalError::UnknownModal(id) => name_after("Unknown modal ", id.as_str()),
            ModalError::MissingInput => String::from_str("Missing modal input"),
        }
    }
}

/// The mathematical value of what [`IActiveMessage::handle_modal`] returns.
pub open spec fn modal_result_view(result: Result<(), ModalError>) -> Result<(), ModalErrorView> {
    match result {
        Ok(_) => Ok(()),
        Err(error) => Err(error.deep_view()),
    }
}

/// What every interactive page can do.
///
/// A page is a state machine. Its value, `deep_view()`, is its state; each
/// operation is a function from the state and the input to the next state
/// and the output, given by the `spec_` function of the same name. On top of
/// that every page proves the laws below.
pub trait IActiveMessage: DeepView + Sized {
    /// Whether a page in this state takes no further input.
    spec fn spec_terminal(state: Self::V) -> bool;

    /// Whether a page in this state has done all it was opened for.
    spec fn spec_completed(state: Self::V) -> bool;

    /// How far a page in this state has come. A page never goes back.
    spec fn spec_stage(state: Self::V) -> nat;

    /// The render step.
    spec fn spec_build_page(state: Self::V, event: PageEventView) -> (Self::V, PageActionView);

    /// The controls of a page in this state.
    spec fn spec_build_components(state: Self::V) -> Seq<ActionRowView>;

    /// The answer to a click: the next state, the directive, and the click
    /// as the page leaves it.
    spec fn spec_handle_component(state: Self::V, component: InteractionComponentView) -> (
        Self::V,
        ComponentResultView,
        InteractionComponentView,
    );

    /// The answer to a submitted form: the next state, the outcome, and the
    /// form as the page leaves it.
    spec fn spec_handle_modal(state: Self::V, modal: InteractionModalView) -> (
        Self::V,
        Result<(), ModalErrorView>,
        InteractionModalView,
    );

    /// One step of rendering. Called with [`PageEvent::Render`] first; where
    /// it asks for outside work, called again with the outcome.
    fn build_page(&mut self, event: PageEvent) -> (action: PageAction)
        ensures
            (final(self).deep_view(), action.deep_view()) == Self::spec_build_page(
                old(self).deep_view(),
                event.deep_view(),
            ),
    ;

    /// The controls to show below the page.
    fn build_components(&self) -> (rows: Vec<ActionRow>)
        ensures
            rows.deep_view() == Self::spec_build_components(self.deep_view()),
    ;

    /// Reacts to a click on one of the page's controls.
    fn handle_component(&mut self, component: &mut InteractionComponent) -> (result:
        ComponentResult)
        ensures
            (final(self).deep_view(), result.deep_view(), final(component).deep_view())
                == Self::spec_handle_component(old(self).deep_view(), old(component).deep_view()),
    ;

    /// Takes in a submitted form.
    fn handle_modal(&mut self, modal: &mut InteractionModal) -> (result: Result<(), ModalError>)
        ensures
            (final(self).deep_view(), modal_result_view(result), final(modal).deep_view())
                == Self::spec_handle_modal(old(self).deep_view(), old(modal).deep_view()),
    ;

    /// A page that takes no further input shows no controls, and a page
    /// that has done all it was opened for takes no further input.
    proof fn law_terminal_shows_no_controls(state: Self::V)
        ensures
            Self::spec_terminal(state) ==> Self::spec_build_components(state).len() == 0,
            Self::spec_completed(state) ==> Self::spec_terminal(state),
    ;

    /// Rendering a page that has done all it was opened for shows the page,
    /// asks for no outside work and leaves the state as it is, whatever the
    /// event: rendering it again shows the same.
    proof fn law_completed_render_is_stable(state: Self::V, event: PageEventView)
        requires
            Self::spec_completed(state),
        ensures
            Self::spec_build_page(state, event).0 == state,
            Self::spec_build_page(state, event).1 is Rendered,
            Self::spec_build_page(state, event).1 == Self::spec_build_page(
                state,
                PageEventView::Render,
            ).1,
    ;

    /// No operation takes a page back: the stage never falls, a page that
    /// takes no further input stays so, and so does one that has done all
    /// it was opened for.
    proof fn law_forward_only(
        state: Self::V,
        event: PageEventView,
        component: InteractionComponentView,
        modal: InteractionModalView,
    )
        ensures
            Self::spec_stage(Self::spec_build_page(state, event).0) >= Self::spec_stage(state),
            Self::spec_stage(Self::spec_handle_component(state, component).0) >= Self::spec_stage(
                state,
            ),
            Self::spec_stage(Self::spec_handle_modal(state, modal).0) >= Self::spec_stage(state),
            Self::spec_terminal(state) ==> Self::spec_terminal(
                Self::spec_build_page(state, event).0,
            ) && Self::spec_terminal(Self::spec_handle_component(state, component).0)
                && Self::spec_terminal(Self::spec_handle_modal(state, modal).0),
            Self::spec_completed(state) ==> Self::spec_completed(
                Self::spec_build_page(state, event).0,
            ) && Self::spec_completed(Self::spec_handle_component(state, component).0)
                && Self::spec_completed(Self::spec_handle_modal(state, modal).0),
    ;

    /// A click or a form that is turned down, and a render that fails or
    /// asks for outside work, leave the state as it is.
    proof fn law_failure_keeps_state(
        state: Self::V,
        event: PageEventView,
        component: InteractionComponentView,
        modal: InteractionModalView,
    )
        ensures
            Self::spec_handle_component(state, component).1 is Failed
                ==> Self::spec_handle_component(state, component).0 == state,
            Self::spec_handle_modal(state, modal).1 is Err ==> Self::spec_handle_modal(
                state,
                modal,
            ).0 == state,
            !(Self::spec_build_page(state, event).1 is Rendered) ==> Self::spec_build_page(
                state,
                event,
            ).0 == state,
    ;
}

} // verus!
