//! The dispatcher: it owns the shared state, the components and the queue
//! of actions, turns events into actions, and applies the actions one by one
//! to every component in a fixed order.
//!
//! It never waits and never paints. Where an action needs the screen or the
//! network, what is to be done is handed back to the caller as an
//! [`Effect`].

use std::collections::VecDeque;
use vstd::prelude::*;
use crate::action::{Action, ActionView};
use crate::components::footer_component::FooterComponent;
use crate::components::header_component::HeaderComponent;
use crate::components::pipelines_viewer_component::{PipelinesViewerComponent, ViewerView};
use crate::components::project_selector_component::{ProjectSelectorComponent, SelectorView};
use crate::components::{Component, ComponentView, Painting};
use crate::config::Config;
use crate::gitlab::{outcome_view, FetchRequest, GitlabPipeline, PipelineView};
use crate::key::KeyEvent;
use crate::keymap::{resolve, resolved};
use crate::layout::Rect;
use crate::state::{State, StateView, COMPONENT_COUNT, FOOTER};
use crate::tui::Event;

verus! {

/// The mode the dashboard is in. Each mode has its own key bindings.
#[derive(Debug, Clone, Copy, PartialEq, Eq, Hash, Structural)]
pub enum Mode {
    Home,
}

impl Default for Mode {
    fn default() -> (mode: Mode)
        ensures
            mode == Mode::Home,
    {
        Mode::Home
    }
}

/// The dispatcher with all it owns.
pub struct App {
    config: Config,
    components: Vec<Component>,
    should_quit: bool,
    mode: Mode,
    last_tick_key_events: Vec<KeyEvent>,
    actions: VecDeque<Action>,
    state: State,
}

/// What an [`App`] holds.
pub struct AppView {
    pub config: Config,
    /// The components in the order in which they are handed each action.
    pub components: Seq<ComponentView>,
    pub should_quit: bool,
    pub mode: Mode,
    /// The keys that wait for the rest of their sequence.
    pub pending_keys: Seq<KeyEvent>,
    /// The actions that wait to be applied, oldest first.
    pub actions: Seq<ActionView>,
    pub state: StateView,
}

/// What the caller has to do for an action that was applied.
#[derive(Debug)]
pub struct Effect {
    /// What to paint: one painting for each component, in their order, as
    /// they were before the components got the action.
    pub frame: Option<Vec<Painting>>,
    /// What to fetch. The outcome is handed to [`App::fetched`].
    pub fetch: Option<FetchRequest>,
}

/// Whether `components` are the header, the project selector, the
/// pipelines viewer and the footer, in this order.
pub open spec fn is_standard(components: Seq<ComponentView>) -> bool {
    &&& components.len() == COMPONENT_COUNT
    &&& components[0] is Header
    &&& components[1] is ProjectSelector
    &&& components[2] is PipelinesViewer
    &&& components[3] is Footer
}

/// `components`, the state and the answers after the first `n` components
/// have been handed `action`, one after the other, each with the state as
/// the one before it left it.
pub open spec fn forwarded(
    components: Seq<ComponentView>,
    state: StateView,
    action: ActionView,
    n: nat,
) -> (Seq<ComponentView>, StateView, Seq<ActionView>)
    decreases n,
{
    if n == 0 || n > components.len() {
        (components, state, Seq::<ActionView>::empty())
    } else {
        let (before, state_before, answers) = forwarded(components, state, action, (n - 1) as nat);
        let (after, state_after) = before[n - 1].updated(action, state_before);
        (
            before.update(n - 1, after),
            state_after,
            match before[n - 1].answer(action, state_before) {
                Some(answer) => answers.push(answer),
                None => answers,
            },
        )
    }
}

/// What the first of `components` that wants something fetched asks for.
pub open spec fn first_request(components: Seq<ComponentView>, state: StateView) -> Option<
    (Seq<char>, Seq<char>),
>
    decreases components.len(),
{
    if components.len() == 0 {
        None
    } else {
        match components[0].request(state) {
            Some(request) => Some(request),
            None => first_request(components.drop_first(), state),
        }
    }
}

/// Whether `paintings` are what `components` paint on a screen of `area`
/// for `state`, one each and in their order.
pub open spec fn frame_of(
    paintings: Seq<Painting>,
    components: Seq<ComponentView>,
    area: Rect,
    state: StateView,
) -> bool {
    paintings.len() == components.len() && forall|i: int|
        0 <= i < components.len() ==> (#[trigger] paintings[i]).paints(components[i], area, state)
}

impl AppView {
    /// The dispatcher at start: the four components, each told `config`,
    /// nothing queued, nothing pending.
    pub open spec fn initial(config: Config) -> AppView {
        AppView {
            config,
            components: seq![
                ComponentView::Header,
                ComponentView::ProjectSelector(SelectorView::initial()).configured(config),
                ComponentView::PipelinesViewer(ViewerView::initial()).configured(config),
                ComponentView::Footer,
            ],
            should_quit: false,
            mode: Mode::Home,
            pending_keys: Seq::<KeyEvent>::empty(),
            actions: Seq::<ActionView>::empty(),
            state: StateView::initial(),
        }
    }

    /// The components are the standard four and the focus is on one of
    /// them.
    pub open spec fn wf(self) -> bool {
        is_standard(self.components) && self.state.wf()
    }

    /// With `action` put at the end of the queue.
    pub open spec fn sent(self, action: ActionView) -> AppView {
        AppView { actions: self.actions.push(action), ..self }
    }

    /// After `key` was pressed: the resolver's answer, if it gives one, is
    /// put at the end of the queue. A mode without bindings passes every
    /// key over.
    pub open spec fn key_pressed(self, key: KeyEvent) -> AppView {
        match self.config.keymap_of(self.mode) {
            None => self,
            Some(keymap) => {
                let (answer, pending) = resolved(keymap, self.pending_keys, key);
                AppView {
                    pending_keys: pending,
                    actions: match answer {
                        Some(action) => self.actions.push(action),
                        None => self.actions,
                    },
                    ..self
                }
            },
        }
    }

    /// After `event` came in: quit, tick and render become the actions of
    /// their names, a key goes to the resolver, and the rest leaves no
    /// trace.
    pub open spec fn event_handled(self, event: Event) -> AppView {
        match event {
            Event::Quit => self.sent(ActionView::Quit),
            Event::Tick => self.sent(ActionView::Tick),
            Event::Render => self.sent(ActionView::Render),
            Event::Key(key) => self.key_pressed(key),
            _ => self,
        }
    }

    /// With the oldest action taken off the queue.
    pub open spec fn popped(self) -> AppView {
        AppView { actions: self.actions.drop_first(), ..self }
    }

    /// After the dispatcher's own part in `action`: a tick drops the
    /// pending keys, quit sets the flag.
    pub open spec fn builtin(self, action: ActionView) -> AppView {
        match action {
            ActionView::Tick => AppView { pending_keys: Seq::<KeyEvent>::empty(), ..self },
            ActionView::Quit => AppView { should_quit: true, ..self },
            _ => self,
        }
    }

    /// The actions with which the components answer `action`, in the order
    /// of the components.
    pub open spec fn answers(self, action: ActionView) -> Seq<ActionView> {
        forwarded(self.components, self.state, action, self.components.len()).2
    }

    /// After `action` was applied: the dispatcher's own part first, then
    /// every component in order, and the answers at the end of the queue.
    pub open spec fn dispatched(self, action: ActionView) -> AppView {
        let own = self.builtin(action);
        let (components, state, answers) = forwarded(
            own.components,
            own.state,
            action,
            own.components.len(),
        );
        AppView { components, state, actions: own.actions + answers, ..own }
    }

    /// After the oldest action was taken off the queue and applied; the
    /// same where nothing is queued.
    pub open spec fn stepped(self) -> AppView {
        if self.actions.len() == 0 {
            self
        } else {
            self.popped().dispatched(self.actions[0])
        }
    }

    /// What is to be fetched: what the first component that wants
    /// something asks for.
    pub open spec fn request(self) -> Option<(Seq<char>, Seq<char>)> {
        first_request(self.components, self.state)
    }

    /// Whether a pipelines viewer is among the components.
    pub open spec fn has_viewer(self) -> bool {
        exists|i: int| 0 <= i < self.components.len() && #[trigger] self.components[i] is PipelinesViewer
    }

    /// After the outcome of a fetch came in: the pipelines viewer puts it
    /// into the state. Without a viewer nothing takes it.
    pub open spec fn fetched(self, outcome: Result<Seq<PipelineView>, Seq<char>>) -> AppView {
        if self.has_viewer() {
            AppView { state: ViewerView::loaded(self.state, Some(outcome)), ..self }
        } else {
            self
        }
    }

    /// Where the first Render among the `n` oldest actions finds the
    /// dispatcher: the actions before it applied, the Render taken off the
    /// queue and not yet applied. `None` where there is no Render among
    /// them.
    pub open spec fn before_render(self, n: nat) -> Option<AppView>
        decreases n,
    {
        if n == 0 || self.actions.len() == 0 {
            None
        } else if self.actions[0] is Render {
            Some(self.popped())
        } else {
            self.stepped().before_render((n - 1) as nat)
        }
    }

    /// After the `n` oldest actions were applied in order, up to and with
    /// the first Render among them.
    pub open spec fn drained(self, n: nat) -> AppView
        decreases n,
    {
        if n == 0 || self.actions.len() == 0 {
            self
        } else if self.actions[0] is Render {
            self.stepped()
        } else {
            self.stepped().drained((n - 1) as nat)
        }
    }
}

impl View for App {
    type V = AppView;

    closed spec fn view(&self) -> AppView {
        AppView {
            config: self.config,
            components: self.components.deep_view(),
            should_quit: self.should_quit,
            mode: self.mode,
            pending_keys: self.last_tick_key_events@,
            actions: self.actions.deep_view(),
            state: self.state@,
        }
    }
}

/// Handing an action to the components leaves their number and their
/// kinds as they are, and no component answers.
pub proof fn lemma_forwarded_shape(
    components: Seq<ComponentView>,
    state: StateView,
    action: ActionView,
    n: nat,
)
    ensures
        forwarded(components, state, action, n).0.len() == components.len(),
        is_standard(components) ==> is_standard(forwarded(components, state, action, n).0),
        forwarded(components, state, action, n).2.len() == 0,
    decreases n,
{
    if n == 0 || n > components.len() {
    } else {
        lemma_forwarded_shape(components, state, action, (n - 1) as nat);
    }
}

/// No action takes the focus off the components: where it was on one of
/// them before, it is on one of them after every component got the action.
pub proof fn lemma_forwarded_focus(
    components: Seq<ComponentView>,
    state: StateView,
    action: ActionView,
    n: nat,
)
    requires
        state.wf(),
    ensures
        forwarded(components, state, action, n).1.wf(),
    decreases n,
{
    if n == 0 || n > components.len() {
    } else {
        lemma_forwarded_focus(components, state, action, (n - 1) as nat);
    }
}

/// The focus never leaves the components, whatever action is applied.
pub proof fn lemma_focus_stays_in_range(app: AppView, action: ActionView)
    requires
        app.wf(),
    ensures
        app.dispatched(action).wf(),
{
    let own = app.builtin(action);
    lemma_forwarded_shape(own.components, own.state, action, own.components.len());
    lemma_forwarded_focus(own.components, own.state, action, own.components.len());
}

/// Moving the focus down ends on the footer and stays there: from the last
/// component the focus does not wrap around.
pub proof fn lemma_focus_down_halts(app: AppView)
    requires
        app.wf(),
    ensures
        app.dispatched(ActionView::FocusDown).state.focused_component == FOOTER,
        app.dispatched(ActionView::FocusDown).dispatched(ActionView::FocusDown).state.focused_component
            == FOOTER,
{
    let once = app.dispatched(ActionView::FocusDown);
    lemma_focus_stays_in_range(app, ActionView::FocusDown);
    assert(once.state.focused_component == FOOTER) by {
        reveal_with_fuel(forwarded, 5);
    }
    assert(once.dispatched(ActionView::FocusDown).state.focused_component == FOOTER) by {
        reveal_with_fuel(forwarded, 5);
    }
}

/// Actions are applied in the order in which they were queued. Of two
/// actions at the head of the queue the first is applied to every
/// component before the second is, and the second before anything that was
/// queued behind it or that the components answer.
pub proof fn lemma_dispatch_order(
    app: AppView,
    first: ActionView,
    second: ActionView,
    later: Seq<ActionView>,
)
    requires
        app.actions == seq![first, second] + later,
    ensures
        app.stepped() == app.popped().dispatched(first),
        app.stepped().actions == seq![second] + later + app.popped().answers(first),
        app.stepped().stepped() == app.stepped().popped().dispatched(second),
        app.stepped().stepped().actions == later + app.popped().answers(first)
            + app.stepped().popped().answers(second),
{
    let popped = app.popped();
    assert(app.actions[0] == first);
    assert(popped.actions =~= seq![second] + later);
    let own = popped.builtin(first);
    assert(own.components == popped.components && own.state == popped.state && own.actions
        == popped.actions);
    let once = app.stepped();
    assert(once.actions =~= seq![second] + later + popped.answers(first));
    assert(once.actions[0] == second);
    let popped_again = once.popped();
    assert(popped_again.actions =~= later + popped.answers(first));
    let own_again = popped_again.builtin(second);
    assert(own_again.components == popped_again.components && own_again.state
        == popped_again.state && own_again.actions == popped_again.actions);
    assert(once.stepped().actions =~= later + popped.answers(first) + popped_again.answers(second));
}

/// A tick drops the keys that wait: what is typed after it is resolved as
/// if nothing had been typed before.
pub proof fn lemma_tick_restarts(app: AppView, key: KeyEvent)
    ensures
        app.dispatched(ActionView::Tick).pending_keys == Seq::<KeyEvent>::empty(),
        app.dispatched(ActionView::Tick).key_pressed(key).pending_keys == (AppView {
            pending_keys: Seq::<KeyEvent>::empty(),
            ..app
        }).key_pressed(key).pending_keys,
{
}

fn forward(
    components: &mut Vec<Component>,
    state: &mut State,
    actions: &mut VecDeque<Action>,
    action: &Action,
)
    ensures
        final(components).deep_view() == forwarded(
            old(components).deep_view(),
            old(state)@,
            action@,
            old(components).deep_view().len(),
        ).0,
        final(state)@ == forwarded(
            old(components).deep_view(),
            old(state)@,
            action@,
            old(components).deep_view().len(),
        ).1,
        final(actions).deep_view() == old(actions).deep_view() + forwarded(
            old(components).deep_view(),
            old(state)@,
            action@,
            old(components).deep_view().len(),
        ).2,
{
    let ghost start = components.deep_view();
    let ghost state_start = state@;
    let ghost queued = actions.deep_view();
    let count: usize = components.len();
    assert(start.len() == count);
    assert(actions.deep_view() =~= queued + Seq::<ActionView>::empty());
    let mut i: usize = 0;
    while i < count
        invariant
            i <= count,
            count == components@.len(),
            count == start.len(),
            components.deep_view() == forwarded(start, state_start, action@, i as nat).0,
            state@ == forwarded(start, state_start, action@, i as nat).1,
            actions.deep_view() == queued + forwarded(start, state_start, action@, i as nat).2,
        decreases count - i,
    {
        let ghost before = components.deep_view();
        let ghost answers = forwarded(start, state_start, action@, i as nat).2;
        let ghost waiting = actions.deep_view();
        proof {
            lemma_forwarded_shape(start, state_start, action@, i as nat);
            assert(before[i as int] == components@[i as int]@);
        }
        let answer: Option<Action> = components[i].update(action, state);
        assert(components.deep_view() =~= before.update(i as int, components@[i as int]@));
        match answer {
            Some(a) => {
                actions.push_back(a);
                assert(actions.deep_view() =~= waiting.push(a@));
                assert(waiting.push(a@) =~= queued + answers.push(a@));
            },
            None => {},
        }
        i = i + 1;
    }
}

impl App {
    /// A dispatcher for `config`, with the header, the project selector,
    /// the pipelines viewer and the footer, each told the configuration.
    pub fn new(config: Config) -> (app: App)
        ensures
            app@ == AppView::initial(config),
            app@.wf(),
    {
        let mut selector = Component::ProjectSelector(ProjectSelectorComponent::new());
        selector.register_config_handler(&config);
        let mut viewer = Component::PipelinesViewer(PipelinesViewerComponent::new());
        viewer.register_config_handler(&config);
        let mut components: Vec<Component> = Vec::new();
        components.push(Component::Header(HeaderComponent::new()));
        components.push(selector);
        components.push(viewer);
        components.push(Component::Footer(FooterComponent::new()));
        let state = State::default();
        let last_tick_key_events: Vec<KeyEvent> = Vec::new();
        let actions: VecDeque<Action> = VecDeque::new();
        assert(components.deep_view() =~= AppView::initial(config).components);
        assert(actions.deep_view() =~= Seq::<ActionView>::empty());
        App {
            config,
            components,
            should_quit: false,
            mode: Mode::Home,
            last_tick_key_events,
            actions,
            state,
        }
    }

    /// The shared state.
    pub fn state(&self) -> (state: &State)
        ensures
            state@ == self@.state,
    {
        &self.state
    }

    /// The configuration.
    pub fn config(&self) -> (config: &Config)
        ensures
            *config == self@.config,
    {
        &self.config
    }

    /// The components in the order in which they are handed each action.
    pub fn components(&self) -> (components: &Vec<Component>)
        ensures
            components.deep_view() == self@.components,
    {
        &self.components
    }

    /// Whether Quit was applied.
    pub fn should_quit(&self) -> (quit: bool)
        ensures
            quit == self@.should_quit,
    {
        self.should_quit
    }

    /// The number of actions that wait to be applied.
    pub fn queued(&self) -> (n: usize)
        ensures
            n == self@.actions.len(),
    {
        self.actions.len()
    }

    /// The number of keys that wait for the rest of their sequence.
    pub fn pending_keys(&self) -> (n: usize)
        ensures
            n == self@.pending_keys.len(),
    {
        self.last_tick_key_events.len()
    }

    /// Puts `action` at the end of the queue.
    pub fn send(&mut self, action: Action)
        ensures
            final(self)@ == old(self)@.sent(action@),
    {
        let ghost waiting = self.actions.deep_view();
        self.actions.push_back(action);
        assert(self.actions.deep_view() =~= waiting.push(action@));
    }

    /// Resolves a key press and queues the action that it stands for, if
    /// it stands for one.
    pub fn handle_key_event(&mut self, key: KeyEvent)
        ensures
            final(self)@ == old(self)@.key_pressed(key),
    {
        let ghost waiting = self.actions.deep_view();
        match self.config.keymap(self.mode) {
            None => {},
            Some(keymap) => {
                match resolve(keymap, &mut self.last_tick_key_events, key) {
                    Some(action) => {
                        self.actions.push_back(action);
                        assert(self.actions.deep_view() =~= waiting.push(action@));
                    },
                    None => {},
                }
            },
        }
    }

    /// Takes an event in: queues the action it stands for and offers it to
    /// every component.
    pub fn handle_events(&mut self, event: Event)
        ensures
            final(self)@ == old(self)@.event_handled(event),
    {
        match event {
            Event::Quit => self.send(Action::Quit),
            Event::Tick => self.send(Action::Tick),
            Event::Render => self.send(Action::Render),
            Event::Key(key) => self.handle_key_event(key),
            _ => {},
        }
        let ghost offered = self@;
        let count: usize = self.components.len();
        let mut i: usize = 0;
        while i < count
            invariant
                i <= count,
                count == self.components@.len(),
                self@ == offered,
            decreases count - i,
        {
            let ghost before = self.components.deep_view();
            assert(before[i as int] == self.components@[i as int]@);
            let answer: Option<Action> = self.components[i].handle_events(&event, &mut self.state);
            assert(self.components.deep_view() =~= before);
            match answer {
                Some(action) => self.actions.push_back(action),
                None => {},
            }
            i = i + 1;
        }
    }

    /// Takes the oldest action off the queue.
    pub fn next_action(&mut self) -> (action: Option<Action>)
        ensures
            match action {
                Some(a) => old(self)@.actions.len() > 0 && a@ == old(self)@.actions[0]
                    && final(self)@ == old(self)@.popped(),
                None => old(self)@.actions.len() == 0 && final(self)@ == old(self)@,
            },
    {
        let ghost waiting = self.actions.deep_view();
        let action: Option<Action> = self.actions.pop_front();
        proof {
            if action is Some {
                assert(self.actions.deep_view() =~= waiting.drop_first());
            } else {
                assert(self.actions.deep_view() =~= waiting);
            }
        }
        action
    }

    /// What every component paints on a screen of `area`, in their order.
    pub fn render(&self, area: Rect) -> (paintings: Vec<Painting>)
        ensures
            frame_of(paintings@, self@.components, area, self@.state),
    {
        let mut paintings: Vec<Painting> = Vec::new();
        let count: usize = self.components.len();
        let mut i: usize = 0;
        while i < count
            invariant
                i <= count,
                count == self.components@.len(),
                paintings@.len() == i,
                forall|j: int|
                    0 <= j < i ==> (#[trigger] paintings@[j]).paints(
                        self.components.deep_view()[j],
                        area,
                        self.state@,
                    ),
            decreases count - i,
        {
            assert(self.components.deep_view()[i as int] == self.components@[i as int]@);
            paintings.push(self.components[i].draw(area, &self.state));
            i = i + 1;
        }
        paintings
    }

    fn fetch_request(&self) -> (request: Option<FetchRequest>)
        ensures
            match request {
                Some(r) => self@.request() == Some((r.url@, r.per_page@)),
                None => self@.request() is None,
            },
    {
        let ghost all = self.components.deep_view();
        let count: usize = self.components.len();
        let mut i: usize = 0;
        assert(all.skip(0) =~= all);
        while i < count
            invariant
                i <= count,
                count == self.components@.len(),
                all == self.components.deep_view(),
                self@.request() == first_request(all.skip(i as int), self.state@),
            decreases count - i,
        {
            let ghost rest = all.skip(i as int);
            proof {
                assert(rest[0] == self.components@[i as int]@);
                assert(rest.drop_first() =~= all.skip(i + 1));
            }
            match self.components[i].fetch_request(&self.state) {
                Some(request) => {
                    return Some(request);
                },
                None => {},
            }
            i = i + 1;
        }
        assert(all.skip(i as int).len() == 0);
        None
    }

    /// Applies `action`: the dispatcher's own part, then every component in
    /// order; what the components answer is queued. For Render the effect
    /// holds what is to be painted on a screen of `area`, as the components
    /// were before they got the action, and what is to be fetched after
    /// it. Other actions have no effect outside.
    pub fn dispatch(&mut self, action: Action, area: Rect) -> (effect: Effect)
        ensures
            final(self)@ == old(self)@.dispatched(action@),
            match effect.frame {
                Some(paintings) => action@ is Render && frame_of(
                    paintings@,
                    old(self)@.components,
                    area,
                    old(self)@.state,
                ),
                None => !(action@ is Render),
            },
            match effect.fetch {
                Some(r) => action@ is Render && final(self)@.request() == Some((r.url@, r.per_page@)),
                None => !(action@ is Render) || final(self)@.request() is None,
            },
    {
        proof {
            lemma_forwarded_shape(
                self@.components,
                self@.state,
                action@,
                self@.components.len(),
            );
        }
        let mut frame: Option<Vec<Painting>> = None;
        match &action {
            Action::Tick => {
                self.last_tick_key_events.clear();
            },
            Action::Quit => {
                self.should_quit = true;
            },
            Action::Render => {
                frame = Some(self.render(area));
            },
            _ => {},
        }
        forward(&mut self.components, &mut self.state, &mut self.actions, &action);
        let fetch: Option<FetchRequest> = match &action {
            Action::Render => self.fetch_request(),
            _ => None,
        };
        Effect { frame, fetch }
    }

    /// Hands the outcome of a fetch to the pipelines viewer, which puts it
    /// into the shared state.
    pub fn fetched(&mut self, outcome: Result<Vec<GitlabPipeline>, String>)
        ensures
            final(self)@ == old(self)@.fetched(outcome_view(outcome)),
    {
        let ghost all = self.components.deep_view();
        let count: usize = self.components.len();
        let mut i: usize = 0;
        while i < count
            invariant
                i <= count,
                count == self.components@.len(),
                all == self.components.deep_view(),
                self@ == old(self)@,
                forall|j: int| 0 <= j < i ==> !(#[trigger] all[j] is PipelinesViewer),
            decreases count - i,
        {
            assert(all[i as int] == self.components@[i as int]@);
            match &self.components[i] {
                Component::PipelinesViewer(viewer) => {
                    viewer.load_pipelines_data(&mut self.state, Some(outcome));
                    return ;
                },
                _ => {},
            }
            i = i + 1;
        }
    }

    /// Applies the actions that are queued, oldest first, and stops after
    /// the first Render among them, whose effect it hands back. `None`
    /// means that all of them were applied and none was a Render. What the
    /// components answer meanwhile stays queued for the next call.
    pub fn handle_actions(&mut self, area: Rect) -> (effect: Option<Effect>)
        ensures
            final(self)@ == old(self)@.drained(old(self)@.actions.len()),
            match effect {
                Some(e) => old(self)@.before_render(old(self)@.actions.len()) matches Some(before)
                    && e.frame matches Some(paintings) && frame_of(
                    paintings@,
                    before.components,
                    area,
                    before.state,
                ) && match e.fetch {
                    Some(r) => final(self)@.request() == Some((r.url@, r.per_page@)),
                    None => final(self)@.request() is None,
                },
                None => old(self)@.before_render(old(self)@.actions.len()) is None,
            },
    {
        let ghost start = self@;
        let mut remaining: usize = self.actions.len();
        while remaining > 0
            invariant
                start == old(self)@,
                start.drained(start.actions.len()) == self@.drained(remaining as nat),
                start.before_render(start.actions.len()) == self@.before_render(remaining as nat),
            decreases remaining,
        {
            match self.next_action() {
                None => {
                    return None;
                },
                Some(action) => {
                    let effect: Effect = self.dispatch(action, area);
                    if effect.frame.is_some() {
                        return Some(effect);
                    }
                    remaining = remaining - 1;
                },
            }
        }
        None
    }
}

} // verus!
