//! The units of the screen. Each reacts to actions and says what it paints.
//! The dispatcher holds them as one closed set and treats them alike.

use vstd::prelude::*;
use crate::action::{Action, ActionView};
use crate::components::error_component::{ErrorComponent, ErrorPainting};
use crate::components::footer_component::{FooterComponent, FooterView};
use crate::components::header_component::{HeaderComponent, HeaderView};
use crate::components::loading_component::{LoadingComponent, LoadingPainting};
use crate::components::pipelines_viewer_component::{
    message_style,
    PipelinesPainting,
    PipelinesViewerComponent,
    ViewerView,
};
use crate::components::project_selector_component::{
    ProjectSelectorComponent,
    SelectorPainting,
    SelectorView,
};
use crate::config::Config;
use crate::gitlab::FetchRequest;
use crate::layout::{centered_in, Rect};
use crate::state::{State, StateView};
use crate::style::Color;
use crate::tui::Event;

pub mod error_component;
pub mod footer_component;
pub mod header_component;
pub mod loading_component;
pub mod pipelines_viewer_component;
pub mod project_selector_component;
pub mod utils;

verus! {

/// One unit of the screen.
#[derive(Debug)]
pub enum Component {
    Header(HeaderComponent),
    ProjectSelector(ProjectSelectorComponent),
    PipelinesViewer(PipelinesViewerComponent),
    Footer(FooterComponent),
    Error(ErrorComponent),
    Loading(LoadingComponent),
}

/// What a [`Component`] holds.
pub enum ComponentView {
    Header,
    ProjectSelector(SelectorView),
    PipelinesViewer(ViewerView),
    Footer,
    Error(Option<Seq<char>>),
    Loading,
}

/// What a component paints.
#[derive(Debug)]
pub enum Painting {
    Header(HeaderView),
    ProjectSelector(SelectorPainting),
    PipelinesViewer(PipelinesPainting),
    Footer(FooterView),
    /// The error line paints nothing while there is no error.
    Error(Option<ErrorPainting>),
    Loading(LoadingPainting),
}

impl View for Component {
    type V = ComponentView;

    open spec fn view(&self) -> ComponentView {
        match self {
            Component::Header(_) => ComponentView::Header,
            Component::ProjectSelector(selector) => ComponentView::ProjectSelector(selector@),
            Component::PipelinesViewer(viewer) => ComponentView::PipelinesViewer(viewer@),
            Component::Footer(_) => ComponentView::Footer,
            Component::Error(error) => ComponentView::Error(error@),
            Component::Loading(_) => ComponentView::Loading,
        }
    }
}

impl DeepView for Component {
    type V = ComponentView;

    open spec fn deep_view(&self) -> ComponentView {
        self@
    }
}

impl ComponentView {
    /// The component once it was told `config`: the selector knows the
    /// projects, the viewer the server and the page size.
    pub open spec fn configured(self, config: Config) -> ComponentView {
        match self {
            ComponentView::ProjectSelector(selector) => ComponentView::ProjectSelector(
                SelectorView { projects: config.core.gitlab_projects.deep_view(), ..selector },
            ),
            ComponentView::PipelinesViewer(viewer) => ComponentView::PipelinesViewer(
                ViewerView {
                    gitlab_url: config.core.gitlab_url@,
                    max_page_size: config.ui.max_page_size,
                    ..viewer
                },
            ),
            _ => self,
        }
    }

    /// The component and the state after `action`. Only the selector and
    /// the viewer react.
    pub open spec fn updated(self, action: ActionView, state: StateView) -> (ComponentView, StateView) {
        match self {
            ComponentView::ProjectSelector(selector) => {
                let (after, state_after) = selector.updated(action, state);
                (ComponentView::ProjectSelector(after), state_after)
            },
            ComponentView::PipelinesViewer(viewer) => {
                let (after, state_after) = viewer.updated(action, state);
                (ComponentView::PipelinesViewer(after), state_after)
            },
            _ => (self, state),
        }
    }

    /// The action with which the component answers `action`. No component
    /// answers any.
    pub open spec fn answer(self, action: ActionView, state: StateView) -> Option<ActionView> {
        None
    }

    /// What the component wants fetched: the viewer asks for the pipelines
    /// of the active project.
    pub open spec fn request(self, state: StateView) -> Option<(Seq<char>, Seq<char>)> {
        match self {
            ComponentView::PipelinesViewer(viewer) => viewer.request(state),
            _ => None,
        }
    }
}

impl Painting {
    /// Whether this is what `component` paints on a screen of `area` for
    /// `state`.
    pub open spec fn paints(self, component: ComponentView, area: Rect, state: StateView) -> bool {
        match component {
            ComponentView::Header => self matches Painting::Header(view) && view.paints(area, state),
            ComponentView::ProjectSelector(selector) => self matches Painting::ProjectSelector(
                painting,
            ) && painting.paints(selector, area, state.focused_component),
            ComponentView::PipelinesViewer(viewer) => self matches Painting::PipelinesViewer(
                painting,
            ) && painting.paints(viewer, area, state),
            ComponentView::Footer => self matches Painting::Footer(view) && view.paints(area),
            ComponentView::Error(error) => self matches Painting::Error(painting) && match error {
                Some(details) => painting matches Some(p) && p.area == area && p.line.shows(
                    "ERROR: "@ + details,
                    message_style(Color::Red),
                ),
                None => painting is None,
            },
            ComponentView::Loading => self matches Painting::Loading(painting) && centered_in(
                area,
                painting.area,
            ) && painting.line.shows("Loading..."@, message_style(Color::Yellow)),
        }
    }
}

impl Component {
    /// Tells the component the configuration.
    pub fn register_config_handler(&mut self, config: &Config)
        ensures
            final(self)@ == old(self)@.configured(*config),
    {
        match self {
            Component::ProjectSelector(selector) => selector.register_config_handler(config),
            Component::PipelinesViewer(viewer) => viewer.register_config_handler(config),
            _ => {},
        }
    }

    /// Prepares the component for its first frame. No component has
    /// anything to prepare.
    pub fn init(&mut self, state: &State)
        ensures
            final(self)@ == old(self)@,
    {
    }

    /// Offers the component an event as it came from the terminal. No
    /// component reacts to any, and none answers.
    pub fn handle_events(&mut self, event: &Event, state: &mut State) -> (answer: Option<Action>)
        ensures
            final(self)@ == old(self)@,
            final(state)@ == old(state)@,
            answer is None,
    {
        None
    }

    /// Hands the component `action` and lends it the state.
    pub fn update(&mut self, action: &Action, state: &mut State) -> (answer: Option<Action>)
        ensures
            (final(self)@, final(state)@) == old(self)@.updated(action@, old(state)@),
            match answer {
                Some(a) => old(self)@.answer(action@, old(state)@) == Some(a@),
                None => old(self)@.answer(action@, old(state)@) is None,
            },
    {
        match self {
            Component::ProjectSelector(selector) => selector.update(action, state),
            Component::PipelinesViewer(viewer) => viewer.update(action, state),
            Component::Error(error) => error.update(action),
            Component::Loading(loading) => loading.update(action),
            _ => None,
        }
    }

    /// What the component wants fetched.
    pub fn fetch_request(&self, state: &State) -> (request: Option<FetchRequest>)
        ensures
            match request {
                Some(r) => self@.request(state@) == Some((r.url@, r.per_page@)),
                None => self@.request(state@) is None,
            },
    {
        match self {
            Component::PipelinesViewer(viewer) => viewer.fetch_request(state),
            _ => None,
        }
    }

    /// What the component paints on a screen of `area`.
    pub fn draw(&self, area: Rect, state: &State) -> (painting: Painting)
        ensures
            painting.paints(self@, area, state@),
    {
        match self {
            Component::Header(header) => Painting::Header(header.draw(area, state)),
            Component::ProjectSelector(selector) => Painting::ProjectSelector(
                selector.draw(area, state),
            ),
            Component::PipelinesViewer(viewer) => Painting::PipelinesViewer(viewer.draw(area, state)),
            Component::Footer(footer) => Painting::Footer(footer.draw(area, state)),
            Component::Error(error) => Painting::Error(error.draw(area)),
            Component::Loading(loading) => Painting::Loading(loading.draw(area)),
        }
    }
}

} // verus!
