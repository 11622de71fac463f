use onagre::controller::Onagre;
use onagre::mode::ActiveMode;
use onagre::protocol::ControllerError;
use onagre::protocol::Effect;
use onagre::protocol::Key;
use onagre::protocol::Message;
use onagre::protocol::PopResponse;
use onagre::protocol::PopSearchResult;
use onagre::protocol::Request;
use onagre::protocol::SubscriptionMessage;
use onagre::selection::Selection;

fn ready_controller(webs: Vec<&str>) -> Onagre {
    let mut o = Onagre::new(webs.into_iter().map(|w| w.to_string()).collect());
    let effects = o.on_pop_launcher_message(SubscriptionMessage::Ready);
    assert!(effects.is_empty());
    assert!(o.channel_ready);
    o
}

fn results(names: Vec<&str>) -> Vec<PopSearchResult> {
    names
        .into_iter()
        .enumerate()
        .map(|(i, n)| PopSearchResult { id: i as u32, name: n.to_string() })
        .collect()
}

fn feed_results(o: &mut Onagre, names: Vec<&str>) {
    let effects =
        o.on_pop_launcher_message(SubscriptionMessage::PopMessage(PopResponse::Update(results(
            names,
        ))));
    assert!(effects.is_empty());
}

#[test]
fn default_search_confirm() {
    // input "firefox" (no modifier) resolves to the default live search,
    // pre-selected at live index 0; Enter activates entry 0
    let mut o = ready_controller(vec![]);
    let effects = o.on_input_changed("firefox".to_string());
    assert!(matches!(o.state.active_mode, ActiveMode::DesktopEntry));
    assert_eq!(o.state.selected, Selection::PopLauncher(0));
    assert_eq!(effects.len(), 2);
    assert_eq!(effects[0], Effect::Snap { line: 0, total: 1 });
    assert_eq!(effects[1], Effect::Send(Request::Search("firefox".to_string())));

    feed_results(&mut o, vec!["Firefox"]);
    let effects = o.handle_input(Key::Enter);
    assert_eq!(effects, vec![Effect::Send(Request::Activate(0))]);
}

#[test]
fn web_mode_resolution() {
    // "w cats" with configured shortcut "w": Web mode, unselected,
    // modifier display "w ", query display "cats"
    let mut o = ready_controller(vec!["w"]);
    let _ = o.on_input_changed("w cats".to_string());
    match &o.state.active_mode {
        ActiveMode::Web(w) => assert_eq!(w, "w"),
        other => panic!("wrong mode: {other:?}"),
    }
    assert_eq!(o.state.selected, Selection::Reset);
    assert_eq!(o.state.input_value.modifier_display, "w ");
    assert_eq!(o.state.input_value.input_display, "cats");
}

#[test]
fn web_mode_down_lands_in_history_domain() {
    let mut o = ready_controller(vec!["w"]);
    let _ = o.on_input_changed("w cats".to_string());
    let effects = o.handle_input(Key::Down);
    assert_eq!(o.state.selected, Selection::History(0));
    assert!(effects.is_empty());
}

#[test]
fn web_mode_enter_without_selection() {
    // confirming the just-typed query activates live entry 0 directly and
    // persists nothing
    let mut o = ready_controller(vec!["w"]);
    let _ = o.on_input_changed("w cats".to_string());
    let effects = o.handle_input(Key::Enter);
    assert_eq!(effects, vec![Effect::Send(Request::Activate(0))]);
    assert!(o.state.cache.web_history("w").is_empty());
    assert!(!o.state.exec_on_next_search);
}

#[test]
fn web_mode_enter_with_selection_sets_flag_and_researches() {
    let mut o = ready_controller(vec!["w"]);
    o.state.cache.persist_web("cats", "w"); // an earlier session's record
    let _ = o.on_input_changed("w cats".to_string());
    let _ = o.handle_input(Key::Down); // select history record 0
    assert_eq!(o.state.selected, Selection::History(0));
    let effects = o.handle_input(Key::Enter);
    assert!(o.state.exec_on_next_search);
    assert_eq!(effects, vec![Effect::Send(Request::Search("w cats".to_string()))]);
    // the typed query is persisted; an equal record is not duplicated
    assert_eq!(o.state.cache.web_history("w"), vec!["cats".to_string()]);
}

#[test]
fn exec_on_next_search_sequencing() {
    // after the flag is set, the very next Update activates entry 0 and
    // must not replace the live results
    let mut o = ready_controller(vec!["w"]);
    o.state.cache.persist_web("cats", "w");
    feed_results(&mut o, vec!["old entry"]);
    let _ = o.on_input_changed("w cats".to_string());
    let _ = o.handle_input(Key::Down);
    let _ = o.handle_input(Key::Enter);
    assert!(o.state.exec_on_next_search);
    let kept = o.state.pop_search.clone();
    let effects = o.on_pop_launcher_message(SubscriptionMessage::PopMessage(PopResponse::Update(
        results(vec!["resolved cats"]),
    )));
    assert_eq!(effects, vec![Effect::Send(Request::Activate(0))]);
    assert_eq!(o.state.pop_search, kept);
    assert!(!o.state.exec_on_next_search);
}

#[test]
fn autocomplete_round_trip() {
    // modifier prefix "w ", daemon fills "w google maps": the query
    // display becomes exactly "google maps"
    let mut o = ready_controller(vec!["w"]);
    let _ = o.on_input_changed("w cats".to_string());
    let effects = o.on_pop_launcher_message(SubscriptionMessage::PopMessage(PopResponse::Fill(
        "w google maps".to_string(),
    )));
    assert_eq!(o.state.input_value.input_display, "google maps");
    // the stripped text re-enters the input-changed flow
    assert_eq!(effects.len(), 2);
    assert_eq!(effects[1], Effect::Send(Request::Search("google maps".to_string())));
}

#[test]
fn autocomplete_missing_prefix_is_protocol_violation() {
    let mut o = ready_controller(vec!["w"]);
    let _ = o.on_input_changed("w cats".to_string());
    let effects = o.on_pop_launcher_message(SubscriptionMessage::PopMessage(PopResponse::Fill(
        "google maps".to_string(),
    )));
    assert_eq!(effects, vec![Effect::Report(ControllerError::ProtocolViolation)]);
    // input untouched
    assert_eq!(o.state.input_value.modifier_display, "w ");
    assert_eq!(o.state.input_value.input_display, "cats");
}

#[test]
fn clamping_over_key_sequences() {
    // the selected index never exceeds total - 1 and never goes below 0
    let mut o = ready_controller(vec![]);
    let _ = o.on_input_changed("fire".to_string());
    feed_results(&mut o, vec!["a", "b", "c"]);
    for _ in 0..7 {
        let _ = o.handle_input(Key::Down);
        match o.state.selected {
            Selection::PopLauncher(i) => assert!(i <= 2),
            other => panic!("unexpected selection {other:?}"),
        }
    }
    assert_eq!(o.state.selected, Selection::PopLauncher(2));
    for _ in 0..7 {
        let _ = o.handle_input(Key::Up);
        match o.state.selected {
            Selection::PopLauncher(i) => assert!(i <= 2),
            other => panic!("unexpected selection {other:?}"),
        }
    }
    assert_eq!(o.state.selected, Selection::PopLauncher(0));
}

#[test]
fn boundary_noops() {
    let mut o = ready_controller(vec![]);
    let _ = o.on_input_changed("fire".to_string());
    feed_results(&mut o, vec!["a", "b"]);
    // Up at index 0 leaves the selection unchanged
    let effects = o.handle_input(Key::Up);
    assert_eq!(o.state.selected, Selection::PopLauncher(0));
    assert_eq!(effects, vec![Effect::Snap { line: 0, total: 2 }]);
    // Down at the last index leaves the selection unchanged
    let _ = o.handle_input(Key::Down);
    assert_eq!(o.state.selected, Selection::PopLauncher(1));
    let effects = o.handle_input(Key::Down);
    assert_eq!(o.state.selected, Selection::PopLauncher(1));
    assert!(effects.is_empty());
}

#[test]
fn mode_change_resets_selection() {
    let mut o = ready_controller(vec!["w"]);
    let _ = o.on_input_changed("fire".to_string());
    feed_results(&mut o, vec!["a", "b", "c"]);
    let _ = o.handle_input(Key::Down);
    let _ = o.handle_input(Key::Down);
    assert_eq!(o.state.selected, Selection::PopLauncher(2));
    // switching to a web mode drops the index entirely
    let _ = o.on_input_changed("w x".to_string());
    assert_eq!(o.state.selected, Selection::Reset);
    // switching back to default search pre-selects live row 0
    let _ = o.on_input_changed("fire".to_string());
    assert_eq!(o.state.selected, Selection::PopLauncher(0));
}

#[test]
fn tab_completion() {
    // selection at index 2 of a 5-item live list: Tab asks Complete(2)
    let mut o = ready_controller(vec![]);
    let _ = o.on_input_changed("f".to_string());
    feed_results(&mut o, vec!["a", "b", "c", "d", "e"]);
    let _ = o.handle_input(Key::Down);
    let _ = o.handle_input(Key::Down);
    assert_eq!(o.state.selected, Selection::PopLauncher(2));
    let effects = o.handle_input(Key::Tab);
    assert_eq!(effects, vec![Effect::Send(Request::Complete(2))]);
}

#[test]
fn tab_without_selection_sends_nothing() {
    let mut o = ready_controller(vec!["w"]);
    let _ = o.on_input_changed("w cats".to_string());
    assert_eq!(o.state.selected, Selection::Reset);
    let effects = o.handle_input(Key::Tab);
    assert!(effects.is_empty());
}

#[test]
fn request_before_ready_is_reported() {
    let mut o = Onagre::new(Vec::new());
    let effects = o.on_input_changed("firefox".to_string());
    assert_eq!(effects.len(), 2);
    assert_eq!(effects[1], Effect::Report(ControllerError::ChannelUnavailable));
}

#[test]
fn terminal_events() {
    let mut o = ready_controller(vec![]);
    let effects = o.on_pop_launcher_message(SubscriptionMessage::PopMessage(PopResponse::Close));
    assert_eq!(effects, vec![Effect::Exit]);
    let effects = o.handle_input(Key::Escape);
    assert_eq!(effects, vec![Effect::Exit]);
    let effects = o.update(Message::Unfocused);
    assert_eq!(effects, vec![Effect::Exit]);
    let effects = o.on_pop_launcher_message(SubscriptionMessage::PopMessage(PopResponse::Context));
    assert_eq!(effects, vec![Effect::Report(ControllerError::UnsupportedFeature)]);
}

#[test]
fn desktop_entry_response_launches_and_persists() {
    let mut o = ready_controller(vec![]);
    let path = "/usr/share/applications/firefox.desktop";
    let effects = o.on_pop_launcher_message(SubscriptionMessage::PopMessage(
        PopResponse::DesktopEntry { path: path.to_string() },
    ));
    assert_eq!(effects, vec![Effect::Launch(path.to_string()), Effect::Exit]);
    assert_eq!(o.state.cache.de_history, vec![path.to_string()]);
    // launching the same entry again does not duplicate the record
    let _ = o.on_pop_launcher_message(SubscriptionMessage::PopMessage(PopResponse::DesktopEntry {
        path: path.to_string(),
    }));
    assert_eq!(o.state.cache.de_history, vec![path.to_string()]);
}

#[test]
fn plugin_history_flow() {
    let mut o = ready_controller(vec![]);
    let plugin = onagre::mode::Plugin {
        name: "files".to_string(),
        modifier: "f".to_string(),
        history: true,
    };
    let effects = o.update(Message::PluginConfig(plugin));
    assert!(effects.is_empty());
    let _ = o.on_input_changed("f doc".to_string());
    match &o.state.active_mode {
        ActiveMode::Plugin { plugin_name, modifier, history } => {
            assert_eq!(plugin_name, "files");
            assert_eq!(modifier, "f ");
            assert!(*history);
        },
        other => panic!("wrong mode: {other:?}"),
    }
    assert_eq!(o.state.selected, Selection::Reset);
    // Enter without selection activates live entry 0 and persists nothing
    let effects = o.handle_input(Key::Enter);
    assert_eq!(effects, vec![Effect::Send(Request::Activate(0))]);
    assert!(o.state.cache.plugin_history("files").is_empty());
    // Enter on a stored record persists the typed query and re-issues the
    // rejoined command
    o.state.cache.persist_plugin("files", "doc");
    let _ = o.on_input_changed("f doc".to_string());
    let _ = o.handle_input(Key::Down);
    let effects = o.handle_input(Key::Enter);
    assert!(o.state.exec_on_next_search);
    assert_eq!(effects, vec![Effect::Send(Request::Search("f doc".to_string()))]);
    assert_eq!(o.state.cache.plugin_history("files"), vec!["doc".to_string()]);
}

#[test]
fn snap_effect_values() {
    let mut o = ready_controller(vec![]);
    let _ = o.on_input_changed("f".to_string());
    feed_results(&mut o, vec!["a", "b", "c"]);
    // moving down from row 0 to row 1 scrolls to (1 + 1) / 3
    let effects = o.handle_input(Key::Down);
    assert_eq!(effects, vec![Effect::Snap { line: 2, total: 3 }]);
    // moving up back to row 0 scrolls to the top: line 0
    let effects = o.handle_input(Key::Up);
    assert_eq!(effects, vec![Effect::Snap { line: 0, total: 3 }]);
}

#[test]
fn display_rows_follow_mode() {
    let mut o = ready_controller(vec!["w"]);
    let _ = o.on_input_changed("f".to_string());
    feed_results(&mut o, vec!["alpha", "beta"]);
    let rows = o.display_rows();
    assert_eq!(rows.len(), 2);
    assert_eq!(rows[0].text, "alpha");
    assert_eq!(rows[0].line, 0);
    assert_eq!(rows[1].text, "beta");
    assert_eq!(rows[1].line, 1);
    // web history list is scoped to the shortcut
    o.state.cache.persist_web("cats", "w");
    let _ = o.on_input_changed("w ".to_string());
    let rows = o.display_rows();
    assert_eq!(rows.len(), 1);
    assert_eq!(rows[0].text, "cats");
}

#[test]
fn empty_input_browses_launch_history() {
    let mut o = ready_controller(vec![]);
    let effects = o.on_input_changed(String::new());
    assert!(matches!(o.state.active_mode, ActiveMode::History));
    // no search request goes out in launch-history browsing
    assert_eq!(effects, vec![Effect::Snap { line: 0, total: 1 }]);
}

#[test]
fn history_confirm_launches_selected_path() {
    let mut o = ready_controller(vec![]);
    let path = "/usr/share/applications/editor.desktop";
    let _ = o.on_pop_launcher_message(SubscriptionMessage::PopMessage(PopResponse::DesktopEntry {
        path: path.to_string(),
    }));
    let _ = o.on_input_changed(String::new());
    let _ = o.handle_input(Key::Down);
    assert_eq!(o.state.selected, Selection::History(0));
    let effects = o.handle_input(Key::Enter);
    assert_eq!(effects, vec![Effect::Launch(path.to_string()), Effect::Exit]);
}

#[test]
fn history_confirm_without_selection_is_a_noop() {
    let mut o = ready_controller(vec![]);
    let _ = o.on_input_changed(String::new());
    assert_eq!(o.state.selected, Selection::Reset);
    let effects = o.handle_input(Key::Enter);
    assert!(effects.is_empty());
}

#[test]
fn plugin_config_replaces_matcher_of_same_name() {
    let mut o = ready_controller(vec![]);
    let first = onagre::mode::Plugin {
        name: "files".to_string(),
        modifier: "f".to_string(),
        history: true,
    };
    let second = onagre::mode::Plugin {
        name: "files".to_string(),
        modifier: "ff".to_string(),
        history: true,
    };
    let _ = o.update(Message::PluginConfig(first));
    let _ = o.update(Message::PluginConfig(second));
    assert_eq!(o.state.plugin_matchers.len(), 1);
    assert_eq!(o.state.plugin_matchers[0].modifier, "ff");
    let _ = o.on_input_changed("ff doc".to_string());
    assert!(matches!(&o.state.active_mode, ActiveMode::Plugin { .. }));
}

#[test]
fn plugin_shortcut_wins_over_web_shortcut() {
    let mut o = ready_controller(vec!["w"]);
    let plugin = onagre::mode::Plugin {
        name: "web-plugin".to_string(),
        modifier: "w".to_string(),
        history: false,
    };
    let _ = o.update(Message::PluginConfig(plugin));
    let _ = o.on_input_changed("w cats".to_string());
    match &o.state.active_mode {
        ActiveMode::Plugin { plugin_name, history, .. } => {
            assert_eq!(plugin_name, "web-plugin");
            assert!(!history);
        },
        other => panic!("wrong mode: {other:?}"),
    }
    // only the default search pre-selects; a plugin mode starts unselected
    assert_eq!(o.state.selected, Selection::Reset);
}
