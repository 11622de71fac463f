//! The controller: one state machine that owns the raw input split, the
//! selection, the live result list and the one-shot `exec_on_next_search`
//! flag, and that turns each incoming message into the next state plus a
//! list of effects for its surroundings to perform.

use vstd::prelude::*;
use crate::cache::Cache;
use crate::cache::HistoryEntry;
use crate::cache::persist_post;
use crate::cache::records_for;
use crate::mode::ActiveMode;
use crate::mode::ModeV;
use crate::mode::Plugin;
use crate::mode::prefix_of_shortcut;
use crate::mode::resolve;
use crate::mode::resolve_spec;
use crate::mode::web_prefix;
use crate::mode::lemma_resolve_splits;
use crate::protocol::ControllerError;
use crate::protocol::Effect;
use crate::protocol::Key;
use crate::protocol::Message;
use crate::protocol::PopResponse;
use crate::protocol::PopSearchResult;
use crate::protocol::Request;
use crate::protocol::SubscriptionMessage;
use crate::selection::Selection;
use crate::selection::sel_in_bounds;
use crate::selection::selected_index;
use crate::selection::step_down;
use crate::selection::step_up;
use crate::strutil::concat_strs;
use crate::strutil::is_prefix_of;
use crate::strutil::strip_prefix_string;
use vstd::pervasive::VecAdditionalExecFns;

verus! {

/// The two display halves of the raw input: the recognized modifier prefix
/// and the query after it. The canonical query sent to the daemon is their
/// concatenation.
#[derive(Debug)]
pub struct InputValue {
    pub modifier_display: String,
    pub input_display: String,
}

/// The controller state proper.
#[derive(Debug)]
pub struct State {
    pub input_value: InputValue,
    pub selected: Selection,
    pub pop_search: Vec<PopSearchResult>,
    pub exec_on_next_search: bool,
    pub cache: Cache,
    pub plugin_matchers: Vec<Plugin>,
    pub web_shortcuts: Vec<String>,
    pub active_mode: ActiveMode,
}

impl State {
    /// The canonical raw input: modifier prefix and query rejoined.
    pub open spec fn spec_input(&self) -> Seq<char> {
        self.input_value.modifier_display@ + self.input_value.input_display@
    }

    /// How many rows the current mode's list holds: the scoped history for
    /// history-browsing modes, the live results otherwise.
    pub open spec fn spec_total_items(&self) -> nat {
        match self.active_mode@ {
            ModeV::Plugin { name, history, .. } => if history {
                records_for(self.cache.plugin_history@, name).len()
            } else {
                self.pop_search@.len()
            },
            ModeV::Web(w) => records_for(self.cache.web_history@, w).len(),
            ModeV::History => self.cache.de_history@.len(),
            ModeV::DesktopEntry => self.pop_search@.len(),
        }
    }

    /// Well-formedness: a present selection index leaves room to compute a
    /// scroll line below it.
    pub open spec fn wf(&self) -> bool {
        match selected_index(self.selected) {
            Some(i) => i < usize::MAX,
            None => true,
        }
    }

    /// The canonical raw input, rejoined for the daemon.
    pub fn get_input(&self) -> (r: String)
        ensures
            r@ == self.spec_input(),
    {
        concat_strs(self.input_value.modifier_display.as_str(), self.input_value.input_display.as_str())
    }

    /// Re-resolves the mode and display split from new raw input. Touches
    /// nothing else: in particular not the selection.
    pub fn set_input(&mut self, input: &str)
        ensures
            final(self).active_mode@ == resolve_spec(
                input@,
                old(self).plugin_matchers@,
                old(self).web_shortcuts.deep_view(),
            ).mode,
            final(self).input_value.modifier_display@ == resolve_spec(
                input@,
                old(self).plugin_matchers@,
                old(self).web_shortcuts.deep_view(),
            ).modifier,
            final(self).input_value.input_display@ == resolve_spec(
                input@,
                old(self).plugin_matchers@,
                old(self).web_shortcuts.deep_view(),
            ).query,
            final(self).selected == old(self).selected,
            final(self).pop_search == old(self).pop_search,
            final(self).exec_on_next_search == old(self).exec_on_next_search,
            final(self).cache == old(self).cache,
            final(self).plugin_matchers == old(self).plugin_matchers,
            final(self).web_shortcuts == old(self).web_shortcuts,
    {
        let (mode, modifier, query) = resolve(input, &self.plugin_matchers, &self.web_shortcuts);
        self.active_mode = mode;
        self.input_value = InputValue { modifier_display: modifier, input_display: query };
    }
}

/// The selection after an input change: every mode starts unselected,
/// except the default search, which pre-highlights row 0 of the live
/// results the daemon is expected to return.
pub open spec fn spec_reset_selection(m: ModeV) -> Selection {
    match m {
        ModeV::Web(_) => Selection::Reset,
        ModeV::History => Selection::Reset,
        ModeV::Plugin { .. } => Selection::Reset,
        ModeV::DesktopEntry => Selection::PopLauncher(0),
    }
}

/// The scroll-follow effect for a selection over `total` rows: row 0 and no
/// selection sit at the top; row `i` scrolls to the fraction `(i + 1) /
/// total`.
pub open spec fn spec_snap_effect(sel: Selection, total: nat) -> Effect {
    match selected_index(sel) {
        None => Effect::Snap { line: 0, total: 1 },
        Some(i) => Effect::Snap {
            line: if i == 0 {
                0
            } else {
                (i + 1) as usize
            },
            total: total as usize,
        },
    }
}

/// The effect of one fire-and-forget request: sent when the channel is
/// ready, else reported as unavailable and dropped (recoverable by design).
pub open spec fn spec_send(ready: bool, req: Request) -> Effect {
    if ready {
        Effect::Send(req)
    } else {
        Effect::Report(ControllerError::ChannelUnavailable)
    }
}

/// The controller. `channel_ready` records whether the daemon's one-time
/// ready signal has arrived; before it, nothing can be sent.
#[derive(Debug)]
pub struct Onagre {
    pub state: State,
    pub channel_ready: bool,
}

impl Onagre {
    /// A fresh controller over the given configured web shortcuts: empty
    /// input (so the launch-history mode), nothing selected, no live
    /// results, empty history view, channel not yet ready.
    pub fn new(web_shortcuts: Vec<String>) -> (r: Onagre)
        ensures
            r.state.input_value.modifier_display@ == Seq::<char>::empty(),
            r.state.input_value.input_display@ == Seq::<char>::empty(),
            r.state.selected == Selection::Reset,
            r.state.pop_search@ == Seq::<PopSearchResult>::empty(),
            r.state.exec_on_next_search == false,
            r.state.cache.plugin_history@ == Seq::<HistoryEntry>::empty(),
            r.state.cache.web_history@ == Seq::<HistoryEntry>::empty(),
            r.state.cache.de_history@ == Seq::<String>::empty(),
            r.state.plugin_matchers@ == Seq::<Plugin>::empty(),
            r.state.web_shortcuts == web_shortcuts,
            r.state.active_mode@ == ModeV::History,
            r.channel_ready == false,
            r.state.wf(),
    {
        Onagre {
            state: State {
                input_value: InputValue {
                    modifier_display: String::new(),
                    input_display: String::new(),
                },
                selected: Selection::Reset,
                pop_search: Vec::new(),
                exec_on_next_search: false,
                cache: Cache::new(),
                plugin_matchers: Vec::new(),
                web_shortcuts,
                active_mode: ActiveMode::History,
            },
            channel_ready: false,
        }
    }

    /// The window title.
    pub fn title(&self) -> (r: String)
        ensures
            r@ == "Onagre"@,
    {
        "Onagre".to_owned()
    }

    /// The selection's numeric index, domain tag forgotten.
    pub fn selected(&self) -> (r: Option<usize>)
        ensures
            r == selected_index(self.state.selected),
    {
        match self.state.selected {
            Selection::Reset => None,
            Selection::History(idx) => Some(idx),
            Selection::PopLauncher(idx) => Some(idx),
        }
    }

    /// The number of rows in the current mode's list.
    pub fn current_entries_len(&self) -> (r: usize)
        ensures
            r == self.state.spec_total_items(),
    {
        match &self.state.active_mode {
            ActiveMode::Plugin { plugin_name, history, .. } => if *history {
                self.state.cache.plugin_history_len(plugin_name.as_str())
            } else {
                self.state.pop_search.len()
            },
            ActiveMode::Web(web_name) => self.state.cache.web_history_len(web_name.as_str()),
            ActiveMode::History => self.state.cache.de_len(),
            ActiveMode::DesktopEntry => self.state.pop_search.len(),
        }
    }

    /// The scroll-follow effect for the current selection.
    fn snap(&self) -> (e: Effect)
        requires
            self.state.wf(),
        ensures
            e == spec_snap_effect(self.state.selected, self.state.spec_total_items()),
    {
        let total_items = self.current_entries_len();
        match self.selected() {
            None => Effect::Snap { line: 0, total: 1 },
            Some(selected) => {
                let line: usize = if selected == 0 {
                    0
                } else {
                    selected + 1
                };
                Effect::Snap { line, total: total_items }
            },
        }
    }

    /// Up: one row towards the top, stopping at row 0; no selection stays
    /// none.
    fn dec_selected(&mut self)
        ensures
            final(self).state.selected == step_up(old(self).state.selected),
            final(self).state == (State { selected: final(self).state.selected, ..old(self).state }),
            final(self).channel_ready == old(self).channel_ready,
            // Up at row 0 is a no-op, and the index never leaves any bound
            // it already satisfied (it cannot go below 0 by type)
            selected_index(old(self).state.selected) == Some(0usize) ==> final(self).state.selected
                == old(self).state.selected,
            forall|t: nat|
                sel_in_bounds(old(self).state.selected, t) ==> sel_in_bounds(
                    final(self).state.selected,
                    t,
                ),
    {
        match self.state.selected {
            Selection::Reset => {},
            Selection::History(selected) => {
                if selected > 0 {
                    self.state.selected = Selection::History(selected - 1);
                }
            },
            Selection::PopLauncher(selected) => {
                if selected > 0 {
                    self.state.selected = Selection::PopLauncher(selected - 1);
                }
            },
        }
    }

    /// Down: no selection lands on history row 0 (whatever the mode: the
    /// domain is resolved at lookup time); an index moves one row down
    /// unless it is on the last row. A successful move from an index also
    /// scroll-follows.
    fn inc_selected(&mut self) -> (eff: Option<Effect>)
        requires
            old(self).state.wf(),
        ensures
            final(self).state.selected == step_down(
                old(self).state.selected,
                old(self).state.spec_total_items(),
            ),
            final(self).state == (State { selected: final(self).state.selected, ..old(self).state }),
            final(self).channel_ready == old(self).channel_ready,
            final(self).state.wf(),
            eff == if selected_index(old(self).state.selected) is Some && final(self).state.selected
                != old(self).state.selected {
                Some(
                    spec_snap_effect(final(self).state.selected, final(self).state.spec_total_items()),
                )
            } else {
                Option::<Effect>::None
            },
            // Down on the last row is a no-op with no scroll side effect
            (selected_index(old(self).state.selected) matches Some(i) && i as nat + 1
                >= old(self).state.spec_total_items()) ==> final(self).state.selected == old(
                self,
            ).state.selected && eff is None,
            // an in-bounds index stays in bounds (the list is unchanged)
            old(self).state.spec_total_items() > 0 && sel_in_bounds(
                old(self).state.selected,
                old(self).state.spec_total_items(),
            ) ==> sel_in_bounds(final(self).state.selected, final(self).state.spec_total_items()),
    {
        match self.state.selected {
            Selection::Reset => {
                self.state.selected = Selection::History(0);
                None
            },
            Selection::History(selected) => {
                let total_items = self.current_entries_len();
                if total_items != 0 && selected < total_items - 1 {
                    self.state.selected = Selection::History(selected + 1);
                    Some(self.snap())
                } else {
                    None
                }
            },
            Selection::PopLauncher(selected) => {
                let total_items = self.current_entries_len();
                if total_items != 0 && selected < total_items - 1 {
                    self.state.selected = Selection::PopLauncher(selected + 1);
                    Some(self.snap())
                } else {
                    None
                }
            },
        }
    }
}

/// The entry a confirm would re-resolve through the daemon: in
/// launch-history mode the selected path; in plugin and web modes the
/// selected cached record rejoined with its modifier prefix, or — with no
/// selection — the first live result's name; nothing in plain live search.
pub open spec fn spec_current_entry(s: State) -> Option<Seq<char>> {
    match s.active_mode@ {
        ModeV::History => match selected_index(s.selected) {
            Some(i) => if i < s.cache.de_history@.len() {
                Some(s.cache.de_history.deep_view()[i as int])
            } else {
                None
            },
            None => None,
        },
        ModeV::Plugin { name, modifier, .. } => match selected_index(s.selected) {
            None => if s.pop_search@.len() > 0 {
                Some(s.pop_search@[0].name@)
            } else {
                None
            },
            Some(i) => if i < records_for(s.cache.plugin_history@, name).len() {
                Some(modifier + records_for(s.cache.plugin_history@, name)[i as int])
            } else {
                None
            },
        },
        ModeV::Web(w) => match selected_index(s.selected) {
            None => if s.pop_search@.len() > 0 {
                Some(s.pop_search@[0].name@)
            } else {
                None
            },
            Some(i) => if i < records_for(s.cache.web_history@, w).len() {
                Some(web_prefix(w) + records_for(s.cache.web_history@, w)[i as int])
            } else {
                None
            },
        },
        ModeV::DesktopEntry => None,
    }
}

/// One renderable row: its text and the index the highlight is compared
/// against (the enumeration index for history lists, the daemon's entry id
/// for live results).
#[derive(Clone, Debug)]
pub struct DisplayRow {
    pub line: usize,
    pub text: String,
}

/// The texts of the rows the current mode displays.
pub open spec fn spec_display_texts(s: State) -> Seq<Seq<char>> {
    match s.active_mode@ {
        ModeV::Plugin { name, history, .. } => if history {
            records_for(s.cache.plugin_history@, name)
        } else {
            spec_pop_names(s.pop_search@)
        },
        ModeV::Web(w) => records_for(s.cache.web_history@, w),
        ModeV::History => s.cache.de_history.deep_view(),
        ModeV::DesktopEntry => spec_pop_names(s.pop_search@),
    }
}

/// The names of the live results, in response order.
pub open spec fn spec_pop_names(es: Seq<PopSearchResult>) -> Seq<Seq<char>> {
    es.map_values(|e: PopSearchResult| e.name@)
}

/// Whether the current mode displays the live results rather than a cached
/// history list.
pub open spec fn spec_displays_live(s: State) -> bool {
    match s.active_mode@ {
        ModeV::Plugin { history, .. } => !history,
        ModeV::Web(_) => false,
        ModeV::History => false,
        ModeV::DesktopEntry => true,
    }
}

impl Onagre {
    /// The request effect for one fire-and-forget send.
    fn pop_request(&self, request: Request) -> (e: Effect)
        ensures
            e == spec_send(self.channel_ready, request),
    {
        if self.channel_ready {
            Effect::Send(request)
        } else {
            Effect::Report(ControllerError::ChannelUnavailable)
        }
    }

    /// The entry a confirm on the current selection stands for, fetched
    /// from the store so the daemon can re-resolve it. `None` where nothing
    /// is there to confirm.
    pub fn current_entry(&self) -> (r: Option<String>)
        ensures
            r is Some <==> spec_current_entry(self.state) is Some,
            r matches Some(t) ==> t@ == spec_current_entry(self.state).unwrap(),
    {
        let selected = self.selected();
        match &self.state.active_mode {
            ActiveMode::History => match selected {
                Some(idx) => if idx < self.state.cache.de_history.len() {
                    proof {
                        assert(self.state.cache.de_history.deep_view()[idx as int]
                            == self.state.cache.de_history@[idx as int]@);
                    }
                    Some(self.state.cache.de_history[idx].clone())
                } else {
                    None
                },
                None => None,
            },
            ActiveMode::Plugin { modifier, plugin_name, .. } => match selected {
                None => if self.state.pop_search.len() > 0 {
                    Some(self.state.pop_search[0].name.clone())
                } else {
                    None
                },
                Some(idx) => {
                    let recs = self.state.cache.plugin_history(plugin_name.as_str());
                    if idx < recs.len() {
                        proof {
                            assert(recs.deep_view()[idx as int] == recs@[idx as int]@);
                        }
                        Some(concat_strs(modifier.as_str(), recs[idx].as_str()))
                    } else {
                        None
                    }
                },
            },
            ActiveMode::Web(web_name) => match selected {
                None => if self.state.pop_search.len() > 0 {
                    Some(self.state.pop_search[0].name.clone())
                } else {
                    None
                },
                Some(idx) => {
                    let recs = self.state.cache.web_history(web_name.as_str());
                    if idx < recs.len() {
                        proof {
                            assert(recs.deep_view()[idx as int] == recs@[idx as int]@);
                        }
                        let prefix = prefix_of_shortcut(web_name.as_str());
                        Some(concat_strs(prefix.as_str(), recs[idx].as_str()))
                    } else {
                        None
                    }
                },
            },
            ActiveMode::DesktopEntry => None,
        }
    }

    /// The rows the presentation layer should draw for the current mode,
    /// with the index each row's highlight is compared against.
    pub fn display_rows(&self) -> (r: Vec<DisplayRow>)
        ensures
            r@.len() == spec_display_texts(self.state).len(),
            forall|i: int|
                0 <= i < r@.len() ==> #[trigger] r@[i].text@ == spec_display_texts(self.state)[i],
            spec_displays_live(self.state) ==> forall|i: int|
                0 <= i < r@.len() ==> #[trigger] r@[i].line == self.state.pop_search@[i].id as usize,
            !spec_displays_live(self.state) ==> forall|i: int|
                0 <= i < r@.len() ==> #[trigger] r@[i].line == i as usize,
    {
        let source: Vec<String>;
        let live = match &self.state.active_mode {
            ActiveMode::Plugin { plugin_name, history, .. } => if *history {
                source = self.state.cache.plugin_history(plugin_name.as_str());
                false
            } else {
                source = Vec::new();
                true
            },
            ActiveMode::Web(web_name) => {
                source = self.state.cache.web_history(web_name.as_str());
                false
            },
            ActiveMode::History => {
                source = crate::strutil::clone_strings(&self.state.cache.de_history);
                false
            },
            ActiveMode::DesktopEntry => {
                source = Vec::new();
                true
            },
        };
        let mut r: Vec<DisplayRow> = Vec::new();
        if live {
            let mut i: usize = 0;
            while i < self.state.pop_search.len()
                invariant
                    i <= self.state.pop_search@.len(),
                    r@.len() == i,
                    forall|j: int|
                        0 <= j < i ==> #[trigger] r@[j].text@ == spec_pop_names(
                            self.state.pop_search@,
                        )[j],
                    forall|j: int|
                        0 <= j < i ==> #[trigger] r@[j].line == self.state.pop_search@[j].id
                            as usize,
                decreases self.state.pop_search@.len() - i,
            {
                let entry = &self.state.pop_search[i];
                r.push(DisplayRow { line: entry.id as usize, text: entry.name.clone() });
                i += 1;
            }
        } else {
            let mut i: usize = 0;
            while i < source.len()
                invariant
                    i <= source@.len(),
                    r@.len() == i,
                    forall|j: int| 0 <= j < i ==> #[trigger] r@[j].text@ == source.deep_view()[j],
                    forall|j: int| 0 <= j < i ==> #[trigger] r@[j].line == j as usize,
                decreases source@.len() - i,
            {
                proof {
                    assert(source.deep_view()[i as int] == source@[i as int]@);
                }
                r.push(DisplayRow { line: i, text: source[i].clone() });
                i += 1;
            }
        }
        r
    }

    /// Everything one input change does; see `input_changed_post`.
    pub fn on_input_changed(&mut self, input: String) -> (effects: Vec<Effect>)
        ensures
            final(self).state.wf(),
            input_changed_post(*old(self), *final(self), input@, effects@),
    {
        self.state.set_input(input.as_str());
        self.state.selected = match &self.state.active_mode {
            ActiveMode::Web(_) => Selection::Reset,
            ActiveMode::History => Selection::Reset,
            ActiveMode::Plugin { .. } => Selection::Reset,
            ActiveMode::DesktopEntry => Selection::PopLauncher(0),
        };
        let mut effects: Vec<Effect> = Vec::new();
        effects.push(Effect::Snap { line: 0, total: 1 });
        let is_history = match &self.state.active_mode {
            ActiveMode::History => true,
            _ => false,
        };
        if !is_history {
            let value = self.state.get_input();
            proof {
                lemma_resolve_splits(
                    input@,
                    old(self).state.plugin_matchers@,
                    old(self).state.web_shortcuts.deep_view(),
                );
            }
            let e = self.pop_request(Request::Search(value));
            effects.push(e);
        }
        effects
    }
}

/// `e` sends `Search(q)`, or reports the channel unavailable when it is not
/// ready.
pub open spec fn is_send_search(e: Effect, ready: bool, q: Seq<char>) -> bool {
    if ready {
        e matches Effect::Send(Request::Search(s)) && s@ == q
    } else {
        e == Effect::Report(ControllerError::ChannelUnavailable)
    }
}

/// run_command's contract: the launched path is recorded in the launch
/// history (once), the spawn is handed to the surroundings, and the session
/// ends.
pub open spec fn launch_post(pre: Onagre, post: Onagre, effects: Seq<Effect>, path: Seq<char>) -> bool {
    &&& post == (Onagre { state: State { cache: post.state.cache, ..pre.state }, ..pre })
    &&& post.state.cache.de_history.deep_view() == if pre.state.cache.de_history.deep_view().contains(
        path,
    ) {
        pre.state.cache.de_history.deep_view()
    } else {
        pre.state.cache.de_history.deep_view().push(path)
    }
    &&& post.state.cache.plugin_history == pre.state.cache.plugin_history
    &&& post.state.cache.web_history == pre.state.cache.web_history
    &&& effects.len() == 2
    &&& effects[0] matches Effect::Launch(p) && p@ == path
    &&& effects[1] == Effect::Exit
}

/// Confirm in a history-browsing plugin mode. With no selection nothing is
/// persisted: the daemon just activates entry 0 of the live results. With a
/// selected cached record the stripped query is persisted under the
/// plugin's name, and the controller re-types the record (modifier
/// rejoined), sets `exec_on_next_search` and re-searches, so the daemon
/// re-resolves the stored command before running it. A selection past the
/// cached list confirms nothing beyond the persist.
pub open spec fn plugin_history_confirm_post(
    pre: Onagre,
    post: Onagre,
    effects: Seq<Effect>,
    name: Seq<char>,
    modifier: Seq<char>,
) -> bool {
    match selected_index(pre.state.selected) {
        None => {
            &&& post == pre
            &&& effects == seq![spec_send(pre.channel_ready, Request::Activate(0))]
        },
        Some(i) => {
            &&& persist_post(
                pre.state.cache.plugin_history@,
                post.state.cache.plugin_history@,
                name,
                pre.state.input_value.input_display@,
            )
            &&& post.state.cache.web_history == pre.state.cache.web_history
            &&& post.state.cache.de_history == pre.state.cache.de_history
            &&& {
            let recs = records_for(post.state.cache.plugin_history@, name);
            if i < recs.len() {
                let cmd = modifier + recs[i as int];
                let r2 = resolve_spec(
                    cmd,
                    pre.state.plugin_matchers@,
                    pre.state.web_shortcuts.deep_view(),
                );
                &&& post == (Onagre {
                    state: State {
                        cache: post.state.cache,
                        input_value: post.state.input_value,
                        active_mode: post.state.active_mode,
                        exec_on_next_search: true,
                        ..pre.state
                    },
                    ..pre
                })
                &&& post.state.active_mode@ == r2.mode
                &&& post.state.input_value.modifier_display@ == r2.modifier
                &&& post.state.input_value.input_display@ == r2.query
                &&& effects.len() == 1
                &&& is_send_search(effects[0], pre.channel_ready, cmd)
            } else {
                &&& post == (Onagre {
                    state: State { cache: post.state.cache, ..pre.state },
                    ..pre
                })
                &&& effects == Seq::<Effect>::empty()
            }
            }
        },
    }
}

/// Confirm in a web-shortcut mode: as the plugin history case — nothing is
/// persisted without a selection; with one, the stripped query is persisted
/// under the shortcut.
pub open spec fn web_confirm_post(
    pre: Onagre,
    post: Onagre,
    effects: Seq<Effect>,
    w: Seq<char>,
) -> bool {
    match selected_index(pre.state.selected) {
        None => {
            &&& post == pre
            &&& effects == seq![spec_send(pre.channel_ready, Request::Activate(0))]
        },
        Some(i) => {
            &&& persist_post(
                pre.state.cache.web_history@,
                post.state.cache.web_history@,
                w,
                pre.state.input_value.input_display@,
            )
            &&& post.state.cache.plugin_history == pre.state.cache.plugin_history
            &&& post.state.cache.de_history == pre.state.cache.de_history
            &&& {
            let recs = records_for(post.state.cache.web_history@, w);
            if i < recs.len() {
                let cmd = web_prefix(w) + recs[i as int];
                let r2 = resolve_spec(
                    cmd,
                    pre.state.plugin_matchers@,
                    pre.state.web_shortcuts.deep_view(),
                );
                &&& post == (Onagre {
                    state: State {
                        cache: post.state.cache,
                        input_value: post.state.input_value,
                        active_mode: post.state.active_mode,
                        exec_on_next_search: true,
                        ..pre.state
                    },
                    ..pre
                })
                &&& post.state.active_mode@ == r2.mode
                &&& post.state.input_value.modifier_display@ == r2.modifier
                &&& post.state.input_value.input_display@ == r2.query
                &&& effects.len() == 1
                &&& is_send_search(effects[0], pre.channel_ready, cmd)
            } else {
                &&& post == (Onagre {
                    state: State { cache: post.state.cache, ..pre.state },
                    ..pre
                })
                &&& effects == Seq::<Effect>::empty()
            }
            }
        },
    }
}

/// Confirm in launch-history browsing: the selected path is launched
/// directly, no daemon round-trip. A missing or out-of-range selection
/// confirms nothing.
pub open spec fn history_confirm_post(pre: Onagre, post: Onagre, effects: Seq<Effect>) -> bool {
    match selected_index(pre.state.selected) {
        Some(i) => if i < pre.state.cache.de_history@.len() {
            launch_post(pre, post, effects, pre.state.cache.de_history.deep_view()[i as int])
        } else {
            post == pre && effects == Seq::<Effect>::empty()
        },
        None => post == pre && effects == Seq::<Effect>::empty(),
    }
}

/// Confirm against the live results: activate the selected entry, or entry
/// 0 with no selection. An index the u32 protocol cannot name confirms
/// nothing.
pub open spec fn live_confirm_post(pre: Onagre, post: Onagre, effects: Seq<Effect>) -> bool {
    &&& post == pre
    &&& match selected_index(pre.state.selected) {
        None => effects == seq![spec_send(pre.channel_ready, Request::Activate(0))],
        Some(i) => if i <= u32::MAX as usize {
            effects == seq![spec_send(pre.channel_ready, Request::Activate(i as u32))]
        } else {
            effects == Seq::<Effect>::empty()
        },
    }
}

/// Everything one confirm (Enter) does, by mode.
pub open spec fn execute_post(pre: Onagre, post: Onagre, effects: Seq<Effect>) -> bool {
    match pre.state.active_mode@ {
        ModeV::Plugin { name, modifier, history } => if history {
            plugin_history_confirm_post(pre, post, effects, name, modifier)
        } else {
            live_confirm_post(pre, post, effects)
        },
        ModeV::Web(w) => web_confirm_post(pre, post, effects, w),
        ModeV::History => history_confirm_post(pre, post, effects),
        ModeV::DesktopEntry => live_confirm_post(pre, post, effects),
    }
}

/// Everything one daemon response does: `Close` ends the session; `Context`
/// is an unsupported feature, logged and ignored; `DesktopEntry` launches;
/// `Update` replaces the live results — unless `exec_on_next_search` is
/// set, in which case the flag is cleared, the list kept, and entry 0
/// activated instead; `Fill` strips the modifier prefix from the completed
/// text and re-enters the input-changed flow with it, or reports a protocol
/// violation (leaving all state untouched) where the prefix is missing.
pub open spec fn response_post(
    pre: Onagre,
    post: Onagre,
    response: PopResponse,
    effects: Seq<Effect>,
) -> bool {
    match response {
        PopResponse::Close => post == pre && effects == seq![Effect::Exit],
        PopResponse::Context => post == pre && effects == seq![
            Effect::Report(ControllerError::UnsupportedFeature),
        ],
        PopResponse::DesktopEntry { path } => launch_post(pre, post, effects, path@),
        PopResponse::Update(list) => if pre.state.exec_on_next_search {
            &&& post == (Onagre {
                state: State { exec_on_next_search: false, ..pre.state },
                ..pre
            })
            &&& effects == seq![spec_send(pre.channel_ready, Request::Activate(0))]
        } else {
            &&& post == (Onagre { state: State { pop_search: list, ..pre.state }, ..pre })
            &&& effects == Seq::<Effect>::empty()
        },
        PopResponse::Fill(text) => {
            let m = pre.state.input_value.modifier_display@;
            if is_prefix_of(m, text@) {
                input_changed_post(pre, post, text@.skip(m.len() as int), effects)
            } else {
                post == pre && effects == seq![Effect::Report(ControllerError::ProtocolViolation)]
            }
        },
    }
}

/// The ready signal arms the channel; every response is handled as
/// `response_post` says.
pub open spec fn subscription_post(
    pre: Onagre,
    post: Onagre,
    message: SubscriptionMessage,
    effects: Seq<Effect>,
) -> bool {
    match message {
        SubscriptionMessage::Ready => post == (Onagre { channel_ready: true, ..pre }) && effects
            == Seq::<Effect>::empty(),
        SubscriptionMessage::PopMessage(response) => response_post(pre, post, response, effects),
    }
}

/// Everything one keystroke does: Up and Down move the selection (with
/// scroll-follow), Enter confirms, Tab asks the daemon to complete the
/// selected entry, Escape ends the session, and any other key is ignored.
pub open spec fn key_post(pre: Onagre, post: Onagre, key: Key, effects: Seq<Effect>) -> bool {
    match key {
        Key::Up => {
            &&& post == (Onagre {
                state: State { selected: step_up(pre.state.selected), ..pre.state },
                ..pre
            })
            &&& effects == seq![
                spec_snap_effect(post.state.selected, post.state.spec_total_items()),
            ]
        },
        Key::Down => {
            let newsel = step_down(pre.state.selected, pre.state.spec_total_items());
            &&& post == (Onagre { state: State { selected: newsel, ..pre.state }, ..pre })
            &&& effects == if selected_index(pre.state.selected) is Some && newsel
                != pre.state.selected {
                seq![spec_snap_effect(newsel, post.state.spec_total_items())]
            } else {
                Seq::<Effect>::empty()
            }
        },
        Key::Enter => execute_post(pre, post, effects),
        Key::Tab => {
            &&& post == pre
            &&& match selected_index(pre.state.selected) {
                Some(i) => if i <= u32::MAX as usize {
                    effects == seq![spec_send(pre.channel_ready, Request::Complete(i as u32))]
                } else {
                    effects == Seq::<Effect>::empty()
                },
                None => effects == Seq::<Effect>::empty(),
            }
        },
        Key::Escape => post == pre && effects == seq![Effect::Exit],
        Key::Other => post == pre && effects == Seq::<Effect>::empty(),
    }
}

/// The plugin matcher list after a configuration message: the first matcher
/// of the same name is replaced, or the new one appended.
pub open spec fn replace_first(ms: Seq<Plugin>, new: Seq<Plugin>, p: Plugin) -> bool {
    if forall|j: int| 0 <= j < ms.len() ==> (#[trigger] ms[j]).name@ != p.name@ {
        new == ms.push(p)
    } else {
        exists|j: int|
            {
                &&& 0 <= j < ms.len()
                &&& (#[trigger] ms[j]).name@ == p.name@
                &&& forall|k: int| 0 <= k < j ==> ms[k].name@ != p.name@
                &&& new == ms.update(j, p)
            }
    }
}

/// A plugin configuration message only rewrites the matcher list.
pub open spec fn plugin_config_post(
    pre: Onagre,
    post: Onagre,
    p: Plugin,
    effects: Seq<Effect>,
) -> bool {
    &&& post == (Onagre {
        state: State { plugin_matchers: post.state.plugin_matchers, ..pre.state },
        ..pre
    })
    &&& replace_first(pre.state.plugin_matchers@, post.state.plugin_matchers@, p)
    &&& effects == Seq::<Effect>::empty()
}

/// One full controller step, by message.
pub open spec fn update_post(
    pre: Onagre,
    post: Onagre,
    message: Message,
    effects: Seq<Effect>,
) -> bool {
    match message {
        Message::InputChanged(input) => input_changed_post(pre, post, input@, effects),
        Message::KeyboardEvent(key) => key_post(pre, post, key, effects),
        Message::SubscriptionResponse(m) => subscription_post(pre, post, m, effects),
        Message::PluginConfig(p) => plugin_config_post(pre, post, p, effects),
        Message::Unfocused => post == pre && effects == seq![Effect::Exit],
    }
}

/// Which confirm case the current mode falls under, with the strings the
/// flow needs copied out.
enum ConfirmCase {
    PluginHist { name: String, modifier: String },
    WebMode { name: String },
    HistoryMode,
    Live,
}

/// An empty effect list.
fn effects0() -> (r: Vec<Effect>)
    ensures
        r@ == Seq::<Effect>::empty(),
{
    Vec::new()
}

/// A one-effect list.
fn effects1(e: Effect) -> (r: Vec<Effect>)
    ensures
        r@ == seq![e],
{
    let mut r: Vec<Effect> = Vec::new();
    r.push(e);
    r
}

impl Onagre {
    fn confirm_case(&self) -> (c: ConfirmCase)
        ensures
            match c {
                ConfirmCase::PluginHist { name, modifier } => self.state.active_mode@ matches
                    ModeV::Plugin { name: n, modifier: m, history } && history && n == name@ && m
                    == modifier@,
                ConfirmCase::WebMode { name } => self.state.active_mode@ matches ModeV::Web(w) && w
                    == name@,
                ConfirmCase::HistoryMode => self.state.active_mode@ is History,
                ConfirmCase::Live => self.state.active_mode@ matches ModeV::Plugin { history, .. }
                    && !history || self.state.active_mode@ is DesktopEntry,
            },
    {
        match &self.state.active_mode {
            ActiveMode::Plugin { plugin_name, modifier, history } => if *history {
                ConfirmCase::PluginHist { name: plugin_name.clone(), modifier: modifier.clone() }
            } else {
                ConfirmCase::Live
            },
            ActiveMode::Web(web_name) => ConfirmCase::WebMode { name: web_name.clone() },
            ActiveMode::History => ConfirmCase::HistoryMode,
            ActiveMode::DesktopEntry => ConfirmCase::Live,
        }
    }

    /// Records the launched desktop entry and hands the spawn out; the
    /// session ends with it.
    pub fn run_command(&mut self, desktop_entry_path: &str) -> (effects: Vec<Effect>)
        ensures
            launch_post(*old(self), *final(self), effects@, desktop_entry_path@),
    {
        self.state.cache.persist_de(desktop_entry_path);
        let mut effects: Vec<Effect> = Vec::new();
        effects.push(Effect::Launch(desktop_entry_path.to_owned()));
        effects.push(Effect::Exit);
        effects
    }

    /// Everything one confirm (Enter) does; see `execute_post`.
    pub fn on_execute(&mut self) -> (effects: Vec<Effect>)
        requires
            old(self).state.wf(),
        ensures
            final(self).state.wf(),
            execute_post(*old(self), *final(self), effects@),
    {
        match self.confirm_case() {
            ConfirmCase::PluginHist { name, modifier: _ } => {
                match self.selected() {
                    None => {
                        let e = self.pop_request(Request::Activate(0));
                        effects1(e)
                    },
                    Some(_) => {
                        let query = self.state.input_value.input_display.clone();
                        self.state.cache.persist_plugin(name.as_str(), query.as_str());
                        match self.current_entry() {
                            Some(command) => {
                                self.state.exec_on_next_search = true;
                                self.state.set_input(command.as_str());
                                let e = self.pop_request(Request::Search(command));
                                effects1(e)
                            },
                            None => Vec::new(),
                        }
                    },
                }
            },
            ConfirmCase::WebMode { name } => {
                match self.selected() {
                    None => {
                        let e = self.pop_request(Request::Activate(0));
                        effects1(e)
                    },
                    Some(_) => {
                        let query = self.state.input_value.input_display.clone();
                        self.state.cache.persist_web(query.as_str(), name.as_str());
                        match self.current_entry() {
                            Some(command) => {
                                self.state.exec_on_next_search = true;
                                self.state.set_input(command.as_str());
                                let e = self.pop_request(Request::Search(command));
                                effects1(e)
                            },
                            None => Vec::new(),
                        }
                    },
                }
            },
            ConfirmCase::HistoryMode => match self.current_entry() {
                Some(path) => self.run_command(path.as_str()),
                None => Vec::new(),
            },
            ConfirmCase::Live => match self.selected() {
                None => {
                    let e = self.pop_request(Request::Activate(0));
                    effects1(e)
                },
                Some(selected) => if selected <= u32::MAX as usize {
                    let e = self.pop_request(Request::Activate(selected as u32));
                    effects1(e)
                } else {
                    Vec::new()
                },
            },
        }
    }

    /// Everything one daemon message does; see `subscription_post`.
    pub fn on_pop_launcher_message(&mut self, message: SubscriptionMessage) -> (effects: Vec<
        Effect,
    >)
        requires
            old(self).state.wf(),
        ensures
            final(self).state.wf(),
            subscription_post(*old(self), *final(self), message, effects@),
    {
        match message {
            SubscriptionMessage::Ready => {
                self.channel_ready = true;
                Vec::new()
            },
            SubscriptionMessage::PopMessage(response) => match response {
                PopResponse::Close => effects1(Effect::Exit),
                PopResponse::Context => effects1(Effect::Report(ControllerError::UnsupportedFeature)),
                PopResponse::DesktopEntry { path } => self.run_command(path.as_str()),
                PopResponse::Update(search_updates) => {
                    if self.state.exec_on_next_search {
                        self.state.exec_on_next_search = false;
                        let e = self.pop_request(Request::Activate(0));
                        effects1(e)
                    } else {
                        self.state.pop_search = search_updates;
                        Vec::new()
                    }
                },
                PopResponse::Fill(fill) => {
                    let stripped = strip_prefix_string(
                        fill.as_str(),
                        self.state.input_value.modifier_display.as_str(),
                    );
                    match stripped {
                        Some(filled) => self.on_input_changed(filled),
                        None => effects1(Effect::Report(ControllerError::ProtocolViolation)),
                    }
                },
            },
        }
    }

    fn insert_plugin(&mut self, plugin: Plugin)
        ensures
            *final(self) == (Onagre {
                state: State {
                    plugin_matchers: final(self).state.plugin_matchers,
                    ..old(self).state
                },
                ..*old(self)
            }),
            replace_first(
                old(self).state.plugin_matchers@,
                final(self).state.plugin_matchers@,
                plugin,
            ),
    {
        let n = self.state.plugin_matchers.len();
        let mut i: usize = 0;
        while i < n
            invariant
                *self == *old(self),
                n == self.state.plugin_matchers@.len(),
                i <= n,
                forall|j: int|
                    0 <= j < i ==> (#[trigger] self.state.plugin_matchers@[j]).name@
                        != plugin.name@,
            decreases n - i,
        {
            if crate::strutil::str_eq(
                self.state.plugin_matchers[i].name.as_str(),
                plugin.name.as_str(),
            ) {
                self.state.plugin_matchers.set(i, plugin);
                return ;
            }
            i += 1;
        }
        self.state.plugin_matchers.push(plugin);
    }

    /// Everything one keystroke does; see `key_post`.
    pub fn handle_input(&mut self, key_code: Key) -> (effects: Vec<Effect>)
        requires
            old(self).state.wf(),
        ensures
            final(self).state.wf(),
            key_post(*old(self), *final(self), key_code, effects@),
    {
        match key_code {
            Key::Up => {
                self.dec_selected();
                let e = self.snap();
                effects1(e)
            },
            Key::Down => match self.inc_selected() {
                Some(e) => effects1(e),
                None => Vec::new(),
            },
            Key::Enter => self.on_execute(),
            Key::Tab => match self.selected() {
                Some(selected) => if selected <= u32::MAX as usize {
                    let e = self.pop_request(Request::Complete(selected as u32));
                    effects1(e)
                } else {
                    Vec::new()
                },
                None => Vec::new(),
            },
            Key::Escape => effects1(Effect::Exit),
            Key::Other => Vec::new(),
        }
    }

    /// One full controller step; see `update_post`.
    pub fn update(&mut self, message: Message) -> (effects: Vec<Effect>)
        requires
            old(self).state.wf(),
        ensures
            final(self).state.wf(),
            update_post(*old(self), *final(self), message, effects@),
    {
        match message {
            Message::InputChanged(input) => self.on_input_changed(input),
            Message::KeyboardEvent(event) => self.handle_input(event),
            Message::SubscriptionResponse(m) => self.on_pop_launcher_message(m),
            Message::PluginConfig(plugin) => {
                self.insert_plugin(plugin);
                Vec::new()
            },
            Message::Unfocused => effects1(Effect::Exit),
        }
    }
}

/// Everything one input change does: re-resolve mode and display split,
/// reset the selection for the new mode (only the default search
/// pre-highlights row 0), scroll to the top, and — except in launch-history
/// browsing — search the daemon for the full raw input.
pub open spec fn input_changed_post(
    pre: Onagre,
    post: Onagre,
    input: Seq<char>,
    effects: Seq<Effect>,
) -> bool {
    let r = resolve_spec(input, pre.state.plugin_matchers@, pre.state.web_shortcuts.deep_view());
    &&& post.state.active_mode@ == r.mode
    &&& post.state.input_value.modifier_display@ == r.modifier
    &&& post.state.input_value.input_display@ == r.query
    &&& post.state.selected == spec_reset_selection(r.mode)
    &&& post.state.pop_search == pre.state.pop_search
    &&& post.state.exec_on_next_search == pre.state.exec_on_next_search
    &&& post.state.cache == pre.state.cache
    &&& post.state.plugin_matchers == pre.state.plugin_matchers
    &&& post.state.web_shortcuts == pre.state.web_shortcuts
    &&& post.channel_ready == pre.channel_ready
    &&& if r.mode is History {
        effects == seq![Effect::Snap { line: 0, total: 1 }]
    } else {
        &&& effects.len() == 2
        &&& effects[0] == (Effect::Snap { line: 0, total: 1 })
        &&& is_send_search(effects[1], pre.channel_ready, input)
    }
}

/// Mode-change reset law: whatever mode an input change resolves to, the
/// selection it leaves is either unselected or the live-search
/// pre-highlight of row 0 — never an index carried over from the previous
/// mode's domain.
pub proof fn lemma_mode_change_reset(m: ModeV)
    ensures
        spec_reset_selection(m) == Selection::Reset || spec_reset_selection(m)
            == Selection::PopLauncher(0),
{
}

/// Clamping at the controller: an Up or Down keystroke over a non-empty
/// current list keeps an in-bounds selection in bounds — chained with
/// `selection::lemma_clamping`, no Up/Down sequence ever drives the index
/// to `total` or below 0.
pub proof fn lemma_key_selection_clamped(
    pre: Onagre,
    post: Onagre,
    key: Key,
    effects: Seq<Effect>,
)
    requires
        key == Key::Up || key == Key::Down,
        key_post(pre, post, key, effects),
        pre.state.spec_total_items() > 0,
        crate::selection::sel_in_bounds(pre.state.selected, pre.state.spec_total_items()),
    ensures
        post.state.spec_total_items() == pre.state.spec_total_items(),
        crate::selection::sel_in_bounds(post.state.selected, post.state.spec_total_items()),
{
    crate::selection::lemma_step_in_bounds(
        pre.state.selected,
        key == Key::Down,
        pre.state.spec_total_items(),
    );
}

/// exec_on_next_search sequencing law: once a confirm has left the flag
/// set, the very next results response activates entry 0 instead of
/// displaying the list — the live results are not replaced — and the flag
/// is spent.
pub proof fn lemma_exec_on_next_search_sequencing(
    pre: Onagre,
    mid: Onagre,
    eff1: Seq<Effect>,
    post: Onagre,
    list: Vec<PopSearchResult>,
    eff2: Seq<Effect>,
)
    requires
        execute_post(pre, mid, eff1),
        mid.state.exec_on_next_search,
        response_post(mid, post, PopResponse::Update(list), eff2),
    ensures
        eff2 == seq![spec_send(mid.channel_ready, Request::Activate(0))],
        post.state.pop_search == pre.state.pop_search,
        post.state.exec_on_next_search == false,
{
}

} // verus!
