//! The mode resolver: parses raw input into the active mode plus a display
//! split (modifier prefix vs. query). Pure and deterministic; it runs on
//! every keystroke.

use vstd::prelude::*;
use crate::strutil::concat_strs;
use crate::strutil::is_prefix_of;
use crate::strutil::str_starts_with;
use vstd::string::StrSliceExecFns;

verus! {

/// A configured plugin shortcut: typing `modifier` followed by a space
/// routes the input to this plugin. `history` marks plugins whose result
/// list is the cached query history rather than live daemon results.
#[derive(Clone, Debug)]
pub struct Plugin {
    pub name: String,
    pub modifier: String,
    pub history: bool,
}

/// The interpretation context resolved from the raw input. `Plugin`'s
/// `modifier` carries the display prefix (the shortcut and its trailing
/// space); `Web` carries the bare shortcut; `History` is the launch-history
/// browser shown on empty input; `DesktopEntry` is the plain live search.
#[derive(Clone, Debug)]
pub enum ActiveMode {
    Plugin { plugin_name: String, modifier: String, history: bool },
    Web(String),
    History,
    DesktopEntry,
}

/// The spec-level image of an `ActiveMode`, over character sequences.
pub enum ModeV {
    Plugin { name: Seq<char>, modifier: Seq<char>, history: bool },
    Web(Seq<char>),
    History,
    DesktopEntry,
}

impl View for ActiveMode {
    type V = ModeV;

    open spec fn view(&self) -> ModeV {
        match self {
            ActiveMode::Plugin { plugin_name, modifier, history } => ModeV::Plugin {
                name: plugin_name@,
                modifier: modifier@,
                history: *history,
            },
            ActiveMode::Web(w) => ModeV::Web(w@),
            ActiveMode::History => ModeV::History,
            ActiveMode::DesktopEntry => ModeV::DesktopEntry,
        }
    }
}

/// The prefix that routes input to this plugin: its shortcut and a space.
pub open spec fn plugin_prefix(p: Plugin) -> Seq<char> {
    p.modifier@.push(' ')
}

/// The prefix that routes input to this web shortcut: the shortcut and a
/// space.
pub open spec fn web_prefix(w: Seq<char>) -> Seq<char> {
    w.push(' ')
}

/// The first configured plugin whose prefix opens the input.
pub open spec fn find_plugin(ps: Seq<Plugin>, raw: Seq<char>) -> Option<Plugin>
    decreases ps.len(),
{
    if ps.len() == 0 {
        None
    } else if is_prefix_of(plugin_prefix(ps[0]), raw) {
        Some(ps[0])
    } else {
        find_plugin(ps.drop_first(), raw)
    }
}

/// The first configured web shortcut whose prefix opens the input.
pub open spec fn find_web(ws: Seq<Seq<char>>, raw: Seq<char>) -> Option<Seq<char>>
    decreases ws.len(),
{
    if ws.len() == 0 {
        None
    } else if is_prefix_of(web_prefix(ws[0]), raw) {
        Some(ws[0])
    } else {
        find_web(ws.drop_first(), raw)
    }
}

/// A resolved input: the mode, the modifier prefix split off for display,
/// and the query after it. The full raw input is always `modifier + query`.
pub struct Resolved {
    pub mode: ModeV,
    pub modifier: Seq<char>,
    pub query: Seq<char>,
}

/// What the resolver returns: empty input browses the launch history;
/// otherwise the first matching plugin shortcut wins, then the first
/// matching web shortcut; with no match the input is a plain live search.
pub open spec fn resolve_spec(raw: Seq<char>, plugins: Seq<Plugin>, webs: Seq<Seq<char>>) -> Resolved {
    if raw.len() == 0 {
        Resolved { mode: ModeV::History, modifier: Seq::empty(), query: Seq::empty() }
    } else {
        match find_plugin(plugins, raw) {
            Some(p) => Resolved {
                mode: ModeV::Plugin {
                    name: p.name@,
                    modifier: plugin_prefix(p),
                    history: p.history,
                },
                modifier: plugin_prefix(p),
                query: raw.skip(plugin_prefix(p).len() as int),
            },
            None => match find_web(webs, raw) {
                Some(w) => Resolved {
                    mode: ModeV::Web(w),
                    modifier: web_prefix(w),
                    query: raw.skip(web_prefix(w).len() as int),
                },
                None => Resolved { mode: ModeV::DesktopEntry, modifier: Seq::empty(), query: raw },
            },
        }
    }
}

/// The display split loses nothing: modifier and query concatenate back to
/// the raw input.
pub proof fn lemma_resolve_splits(raw: Seq<char>, plugins: Seq<Plugin>, webs: Seq<Seq<char>>)
    ensures
        resolve_spec(raw, plugins, webs).modifier + resolve_spec(raw, plugins, webs).query == raw,
{
    let r = resolve_spec(raw, plugins, webs);
    if raw.len() == 0 {
        assert(r.modifier + r.query =~= raw);
    } else {
        match find_plugin(plugins, raw) {
            Some(p) => {
                lemma_find_plugin_matches(plugins, raw);
                assert(r.modifier + r.query =~= raw);
            },
            None => match find_web(webs, raw) {
                Some(w) => {
                    lemma_find_web_matches(webs, raw);
                    assert(r.modifier + r.query =~= raw);
                },
                None => {
                    assert(r.modifier + r.query =~= raw);
                },
            },
        }
    }
}

/// A found plugin's prefix does open the input.
pub proof fn lemma_find_plugin_matches(ps: Seq<Plugin>, raw: Seq<char>)
    requires
        find_plugin(ps, raw) is Some,
    ensures
        is_prefix_of(plugin_prefix(find_plugin(ps, raw).unwrap()), raw),
    decreases ps.len(),
{
    if ps.len() > 0 && !is_prefix_of(plugin_prefix(ps[0]), raw) {
        lemma_find_plugin_matches(ps.drop_first(), raw);
    }
}

/// A found web shortcut's prefix does open the input.
pub proof fn lemma_find_web_matches(ws: Seq<Seq<char>>, raw: Seq<char>)
    requires
        find_web(ws, raw) is Some,
    ensures
        is_prefix_of(web_prefix(find_web(ws, raw).unwrap()), raw),
    decreases ws.len(),
{
    if ws.len() > 0 && !is_prefix_of(web_prefix(ws[0]), raw) {
        lemma_find_web_matches(ws.drop_first(), raw);
    }
}

/// Builds the executable prefix (shortcut plus space) of a shortcut string.
pub fn prefix_of_shortcut(shortcut: &str) -> (r: String)
    ensures
        r@ == shortcut@.push(' '),
{
    let r = concat_strs(shortcut, " ");
    proof {
        reveal_strlit(" ");
        assert(shortcut@ + " "@ =~= shortcut@.push(' '));
    }
    r
}

/// Resolves raw input to its mode and display split. Matches the spec
/// `resolve_spec` exactly: first plugin shortcuts in configuration order,
/// then web shortcuts, else the default live search; empty input browses
/// the launch history.
pub fn resolve(raw: &str, plugins: &Vec<Plugin>, webs: &Vec<String>) -> (r: (
    ActiveMode,
    String,
    String,
))
    ensures
        r.0@ == resolve_spec(raw@, plugins@, webs.deep_view()).mode,
        r.1@ == resolve_spec(raw@, plugins@, webs.deep_view()).modifier,
        r.2@ == resolve_spec(raw@, plugins@, webs.deep_view()).query,
{
    let rl = raw.unicode_len();
    if rl == 0 {
        return (ActiveMode::History, String::new(), String::new());
    }
    let mut i: usize = 0;
    proof {
        assert(plugins@.skip(0) =~= plugins@);
    }
    while i < plugins.len()
        invariant
            i <= plugins@.len(),
            rl == raw@.len(),
            find_plugin(plugins@, raw@) == find_plugin(plugins@.skip(i as int), raw@),
        decreases plugins@.len() - i,
    {
        let prefix = prefix_of_shortcut(plugins[i].modifier.as_str());
        proof {
            assert(plugins@.skip(i as int)[0] == plugins@[i as int]);
        }
        if str_starts_with(raw, prefix.as_str()) {
            let pl = prefix.unicode_len();
            let rest = raw.substring_char(pl, rl);
            proof {
                assert(raw@.subrange(pl as int, rl as int) =~= raw@.skip(pl as int));
            }
            let mode = ActiveMode::Plugin {
                plugin_name: plugins[i].name.clone(),
                modifier: prefix.clone(),
                history: plugins[i].history,
            };
            return (mode, prefix, rest.to_owned());
        }
        proof {
            assert(plugins@.skip(i as int).drop_first() =~= plugins@.skip(i as int + 1));
        }
        i += 1;
    }
    proof {
        assert(plugins@.skip(plugins@.len() as int) =~= Seq::<Plugin>::empty());
    }
    let mut j: usize = 0;
    proof {
        assert(webs.deep_view().skip(0) =~= webs.deep_view());
    }
    while j < webs.len()
        invariant
            j <= webs@.len(),
            rl == raw@.len(),
            rl > 0,
            find_plugin(plugins@, raw@) is None,
            find_web(webs.deep_view(), raw@) == find_web(webs.deep_view().skip(j as int), raw@),
        decreases webs@.len() - j,
    {
        let prefix = prefix_of_shortcut(webs[j].as_str());
        proof {
            assert(webs.deep_view().skip(j as int)[0] == webs.deep_view()[j as int]);
            assert(webs.deep_view()[j as int] == webs@[j as int]@);
        }
        if str_starts_with(raw, prefix.as_str()) {
            let pl = prefix.unicode_len();
            let rest = raw.substring_char(pl, rl);
            proof {
                assert(raw@.subrange(pl as int, rl as int) =~= raw@.skip(pl as int));
            }
            return (ActiveMode::Web(webs[j].clone()), prefix, rest.to_owned());
        }
        proof {
            assert(webs.deep_view().skip(j as int).drop_first() =~= webs.deep_view().skip(
                j as int + 1,
            ));
        }
        j += 1;
    }
    proof {
        assert(webs.deep_view().skip(webs@.len() as int) =~= Seq::<Seq<char>>::empty());
    }
    (ActiveMode::DesktopEntry, String::new(), raw.to_owned())
}

} // verus!
