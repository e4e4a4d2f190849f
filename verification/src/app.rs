//! The state of the whole dashboard and what each action does to it.

use vstd::prelude::*;
use crate::input::{dispatch, event_action, Action, InputEvent, Key, KeyKind};
use crate::stats::{InfoStats, MetricsError, StatsView};
use crate::tabs::{TabsState, TabsView};
use crate::ui::{panel_at, panel_for, Panel};

verus! {

/// What an [`App`] is, mathematically.
pub struct AppView {
    pub version: Seq<char>,
    pub tabs: TabsView,
    pub stats: StatsView,
}

impl AppView {
    /// The dashboard at start: the tabs Info, Queue and Settings with Info
    /// selected, and an empty history whose last refresh counts as having
    /// happened at `now`.
    pub open spec fn start(version: Seq<char>, now: nat) -> AppView {
        AppView {
            version,
            tabs: TabsView { titles: seq!["Info"@, "Queue"@, "Settings"@], index: 0 },
            stats: StatsView { last_update: now, cpu: Seq::empty(), mem: Seq::empty() },
        }
    }

    /// The tab bar and the history are both well-formed.
    pub open spec fn wf(self) -> bool {
        self.tabs.wf() && self.stats.wf()
    }

    /// The title of the screen: the name of the program, then `v` and the
    /// version.
    pub open spec fn title(self) -> Seq<char> {
        "Andinum POD v"@ + self.version
    }

    /// The panel that the selected tab shows.
    pub open spec fn panel(self) -> Panel {
        panel_at(self.tabs.index)
    }

    /// Measurements are wanted at `now`: the usage charts are on show and a
    /// refresh of the history is due.
    pub open spec fn sampling_due(self, now: nat) -> bool {
        self.panel() == Panel::Info && self.stats.due(now)
    }

    /// The state after the measurements `cpu` and `mem`, taken at `now`,
    /// were offered to it: they reach the history only while the usage
    /// charts are on show.
    pub open spec fn sampled(
        self,
        now: nat,
        cpu: Result<u64, MetricsError>,
        mem: Result<u64, MetricsError>,
    ) -> AppView {
        if self.panel() == Panel::Info {
            AppView { stats: self.stats.sampled(now, cpu, mem), ..self }
        } else {
            self
        }
    }

    /// The state after `action`: the two tab actions move the selection,
    /// every other action leaves the state as it is.
    pub open spec fn after(self, action: Action) -> AppView {
        match action {
            Action::PreviousTab => AppView { tabs: self.tabs.previous(), ..self },
            Action::NextTab => AppView { tabs: self.tabs.next(), ..self },
            _ => self,
        }
    }
}

/// The state of the dashboard: its version, the tab bar and the usage
/// history.
pub struct App {
    pub version: String,
    pub tabs: TabsState,
    pub info_stats: InfoStats,
}

impl View for App {
    type V = AppView;

    open spec fn view(&self) -> AppView {
        AppView { version: self.version@, tabs: self.tabs@, stats: self.info_stats@ }
    }
}

impl App {
    /// The tab bar and the history are both well-formed.
    pub open spec fn wf(&self) -> bool {
        self@.wf()
    }

    /// The position that is selected after `action`.
    pub open spec fn index_after(&self, action: Action) -> int {
        match action {
            Action::PreviousTab => self.tabs.previous_index(),
            Action::NextTab => self.tabs.next_index(),
            _ => self.tabs.index as int,
        }
    }

    /// The dashboard at start: the tabs Info, Queue and Settings with Info
    /// selected, and an empty history whose first refresh is due one
    /// interval after `now`.
    pub fn new(version: &str, now: u64) -> (app: App)
        ensures
            app@ == AppView::start(version@, now as nat),
            app.tabs.titles@.len() == 3,
            app.tabs.index == 0,
            app.info_stats.last_update == now,
            app.wf(),
    {
        let app = App {
            version: version.to_owned(),
            tabs: TabsState::new(vec!["Info", "Queue", "Settings"]),
            info_stats: InfoStats::new(now),
        };
        assert(app@.tabs.titles =~= seq!["Info"@, "Queue"@, "Settings"@]);
        app
    }

    /// The title of the screen.
    pub fn title(&self) -> (title: String)
        ensures
            title@ == self@.title(),
    {
        String::from_str("Andinum POD v").concat(self.version.as_str())
    }

    /// The panel that the selected tab shows.
    pub fn panel(&self) -> (panel: Panel)
        ensures
            panel == self@.panel(),
    {
        panel_for(self.tabs.index)
    }

    /// Whether measurements should be taken at `now`.
    pub fn sampling_due(&self, now: u64) -> (due: bool)
        ensures
            due == self@.sampling_due(now as nat),
    {
        match self.panel() {
            Panel::Info => self.info_stats.is_due(now),
            _ => false,
        }
    }

    /// Offers the measurements `cpu` and `mem`, taken at `now`, to the
    /// history. They are looked at only while the usage charts are on show
    /// and a refresh is due; the version and the tab bar never change.
    pub fn maybe_sample(
        &mut self,
        now: u64,
        cpu: Result<u64, MetricsError>,
        mem: Result<u64, MetricsError>,
    )
        ensures
            final(self)@ == old(self)@.sampled(now as nat, cpu, mem),
            final(self).version == old(self).version,
            final(self).tabs == old(self).tabs,
            !old(self)@.sampling_due(now as nat) ==> *final(self) == *old(self),
            old(self)@.sampling_due(now as nat) ==> final(self).info_stats.last_update == now,
            old(self).wf() ==> final(self).wf(),
    {
        match self.panel() {
            Panel::Info => self.info_stats.maybe_sample(now, cpu, mem),
            _ => {},
        }
    }

    /// Up was asked for. Nothing scrolls yet, so nothing changes.
    pub fn on_up(&mut self)
        ensures
            *final(self) == *old(self),
    {
    }

    /// Down was asked for. Nothing scrolls yet, so nothing changes.
    pub fn on_down(&mut self)
        ensures
            *final(self) == *old(self),
    {
    }

    /// Left was asked for: with `can_change_tab` the selection moves one tab
    /// to the left, without it nothing changes.
    pub fn on_left(&mut self, can_change_tab: bool)
        ensures
            final(self)@ == (if can_change_tab {
                old(self)@.after(Action::PreviousTab)
            } else {
                old(self)@
            }),
            final(self).version == old(self).version,
            final(self).info_stats == old(self).info_stats,
            final(self).tabs.titles == old(self).tabs.titles,
            can_change_tab ==> final(self).tabs.index == old(self).tabs.previous_index(),
            !can_change_tab ==> *final(self) == *old(self),
            old(self).wf() ==> final(self).wf(),
    {
        if can_change_tab {
            self.tabs.previous();
        }
    }

    /// Right was asked for: with `can_change_tab` the selection moves one
    /// tab to the right, without it nothing changes.
    pub fn on_right(&mut self, can_change_tab: bool)
        ensures
            final(self)@ == (if can_change_tab {
                old(self)@.after(Action::NextTab)
            } else {
                old(self)@
            }),
            final(self).version == old(self).version,
            final(self).info_stats == old(self).info_stats,
            final(self).tabs.titles == old(self).tabs.titles,
            can_change_tab ==> final(self).tabs.index == old(self).tabs.next_index(),
            !can_change_tab ==> *final(self) == *old(self),
            old(self).wf() ==> final(self).wf(),
    {
        if can_change_tab {
            self.tabs.next();
        }
    }

    /// A character without a meaning of its own was typed. Nothing listens
    /// for it yet, so nothing changes.
    pub fn on_key(&mut self, _key: char)
        ensures
            *final(self) == *old(self),
    {
    }

    /// Carries out `action` and says whether the dashboard should close.
    ///
    /// Only `Quit` closes it, and only the two tab actions change the
    /// state.
    pub fn apply(&mut self, action: Action) -> (quit: bool)
        ensures
            quit == (action == Action::Quit),
            final(self)@ == old(self)@.after(action),
            final(self).version == old(self).version,
            final(self).info_stats == old(self).info_stats,
            final(self).tabs.titles == old(self).tabs.titles,
            final(self).tabs.index == old(self).index_after(action),
            !(action == Action::PreviousTab || action == Action::NextTab)
                ==> *final(self) == *old(self),
            old(self).wf() ==> final(self).wf(),
    {
        match action {
            Action::MoveUp => {
                self.on_up();
                false
            },
            Action::MoveDown => {
                self.on_down();
                false
            },
            Action::PreviousTab => {
                self.on_left(true);
                false
            },
            Action::NextTab => {
                self.on_right(true);
                false
            },
            Action::Custom(c) => {
                self.on_key(c);
                false
            },
            Action::NoOp => false,
            Action::Quit => true,
        }
    }

    /// Handles the outcome of one poll of the input source, `None` when the
    /// poll timed out, and says whether the dashboard should close.
    pub fn handle_events(&mut self, event: Option<InputEvent>) -> (quit: bool)
        ensures
            quit == (event_action(event) == Action::Quit),
            quit == (event == Some(InputEvent::Key { key: Key::Char('q'), kind: KeyKind::Press })),
            final(self)@ == old(self)@.after(event_action(event)),
            final(self).version == old(self).version,
            final(self).info_stats == old(self).info_stats,
            final(self).tabs.titles == old(self).tabs.titles,
            final(self).tabs.index == old(self).index_after(event_action(event)),
            event is None ==> !quit && *final(self) == *old(self),
            old(self).wf() ==> final(self).wf(),
    {
        let action = dispatch(event);
        self.apply(action)
    }
}

} // verus!
