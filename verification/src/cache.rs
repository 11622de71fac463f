//! The in-memory view of the history store: per-scope lists of previously
//! executed queries and the launch history of desktop entries. The backing
//! persistence is outside the library; the controller only ever reads these
//! lists and appends to them.

use vstd::prelude::*;
use crate::strutil::str_eq;

verus! {

/// One persisted record: a query or command `record` stored under the
/// history scope `key` (a plugin name or a web shortcut).
#[derive(Clone, Debug)]
pub struct HistoryEntry {
    pub key: String,
    pub record: String,
}

/// The records stored under `key`, oldest first.
pub open spec fn records_for(entries: Seq<HistoryEntry>, key: Seq<char>) -> Seq<Seq<char>> {
    entries.filter(|e: HistoryEntry| e.key@ == key).map_values(|e: HistoryEntry| e.record@)
}

/// Some entry holds exactly this key and record.
pub open spec fn has_entry(entries: Seq<HistoryEntry>, key: Seq<char>, record: Seq<char>) -> bool {
    exists|i: int|
        0 <= i < entries.len() && entries[i].key@ == key && entries[i].record@ == record
}

/// What one persist call leaves behind: nothing new when the record is
/// already stored under the key, else the record appended at the end of that
/// key's list, with every other key's list untouched.
pub open spec fn persist_post(
    pre: Seq<HistoryEntry>,
    post: Seq<HistoryEntry>,
    key: Seq<char>,
    record: Seq<char>,
) -> bool {
    &&& if has_entry(pre, key, record) {
        post == pre
    } else {
        &&& post.len() == pre.len() + 1
        &&& post.take(pre.len() as int) == pre
        &&& post.last().key@ == key
        &&& post.last().record@ == record
    }
    &&& records_for(post, key) == if has_entry(pre, key, record) {
        records_for(pre, key)
    } else {
        records_for(pre, key).push(record)
    }
    &&& forall|k: Seq<char>| k != key ==> records_for(post, k) == records_for(pre, k)
}

/// Appending one entry extends exactly its own key's record list.
proof fn lemma_records_push(entries: Seq<HistoryEntry>, e: HistoryEntry, k: Seq<char>)
    ensures
        records_for(entries.push(e), k) == if e.key@ == k {
            records_for(entries, k).push(e.record@)
        } else {
            records_for(entries, k)
        },
{
    broadcast use Seq::lemma_filter_push;

    let pred = |x: HistoryEntry| x.key@ == k;
    let f = |x: HistoryEntry| x.record@;
    if pred(e) {
        assert(entries.filter(pred).push(e).map_values(f) =~= entries.filter(pred).map_values(
            f,
        ).push(e.record@));
    }
}

fn persist_scoped(entries: &mut Vec<HistoryEntry>, key: &str, record: &str)
    ensures
        persist_post(old(entries)@, final(entries)@, key@, record@),
{
    let n = entries.len();
    let mut i: usize = 0;
    while i < n
        invariant
            n == entries@.len(),
            i <= n,
            forall|j: int|
                0 <= j < i ==> !(entries@[j].key@ == key@ && entries@[j].record@ == record@),
        decreases n - i,
    {
        if str_eq(entries[i].key.as_str(), key) && str_eq(entries[i].record.as_str(), record) {
            proof {
                assert(has_entry(entries@, key@, record@));
            }
            return ;
        }
        i += 1;
    }
    proof {
        assert(!has_entry(entries@, key@, record@));
    }
    let e = HistoryEntry { key: key.to_owned(), record: record.to_owned() };
    let ghost pre = entries@;
    let ghost ev = e;
    entries.push(e);
    proof {
        assert(entries@ =~= pre.push(ev));
        assert(entries@.take(pre.len() as int) =~= pre);
        lemma_records_push(pre, ev, key@);
        assert forall|k: Seq<char>| k != key@ implies records_for(entries@, k) == records_for(
            pre,
            k,
        ) by {
            lemma_records_push(pre, ev, k);
        }
    }
}

/// The history store as the controller sees it: scoped query histories for
/// plugins and web shortcuts, and the list of launched desktop-entry paths.
#[derive(Debug)]
pub struct Cache {
    pub plugin_history: Vec<HistoryEntry>,
    pub web_history: Vec<HistoryEntry>,
    pub de_history: Vec<String>,
}

impl Cache {
    /// An empty store.
    pub fn new() -> (r: Cache)
        ensures
            r.plugin_history@ == Seq::<HistoryEntry>::empty(),
            r.web_history@ == Seq::<HistoryEntry>::empty(),
            r.de_history@ == Seq::<String>::empty(),
    {
        Cache { plugin_history: Vec::new(), web_history: Vec::new(), de_history: Vec::new() }
    }

    fn scoped_list(entries: &Vec<HistoryEntry>, key: &str) -> (r: Vec<String>)
        ensures
            r.deep_view() == records_for(entries@, key@),
    {
        let mut r: Vec<String> = Vec::new();
        let mut i: usize = 0;
        while i < entries.len()
            invariant
                i <= entries@.len(),
                r.deep_view() =~= records_for(entries@.take(i as int), key@),
            decreases entries@.len() - i,
        {
            let ghost prefix = entries@.take(i as int);
            let ghost dv = r.deep_view();
            if str_eq(entries[i].key.as_str(), key) {
                r.push(entries[i].record.clone());
            }
            proof {
                assert(entries@.take(i as int + 1) =~= prefix.push(entries@[i as int]));
                lemma_records_push(prefix, entries@[i as int], key@);
                if entries@[i as int].key@ == key@ {
                    assert(r.deep_view() =~= dv.push(entries@[i as int].record@));
                }
                assert(r.deep_view() =~= records_for(entries@.take(i as int + 1), key@));
            }
            i += 1;
        }
        proof {
            assert(entries@.take(entries@.len() as int) =~= entries@);
        }
        r
    }

    /// The query history of one plugin, oldest first.
    pub fn plugin_history(&self, plugin_name: &str) -> (r: Vec<String>)
        ensures
            r.deep_view() == records_for(self.plugin_history@, plugin_name@),
    {
        Cache::scoped_list(&self.plugin_history, plugin_name)
    }

    /// How many records the plugin's history holds.
    pub fn plugin_history_len(&self, plugin_name: &str) -> (r: usize)
        ensures
            r == records_for(self.plugin_history@, plugin_name@).len(),
    {
        self.plugin_history(plugin_name).len()
    }

    /// The query history of one web shortcut, oldest first.
    pub fn web_history(&self, web_name: &str) -> (r: Vec<String>)
        ensures
            r.deep_view() == records_for(self.web_history@, web_name@),
    {
        Cache::scoped_list(&self.web_history, web_name)
    }

    /// How many records the web shortcut's history holds.
    pub fn web_history_len(&self, web_name: &str) -> (r: usize)
        ensures
            r == records_for(self.web_history@, web_name@).len(),
    {
        self.web_history(web_name).len()
    }

    /// How many desktop entries the launch history holds.
    pub fn de_len(&self) -> (r: usize)
        ensures
            r == self.de_history@.len(),
    {
        self.de_history.len()
    }

    /// Record a plugin query.
    pub fn persist_plugin(&mut self, plugin_name: &str, command: &str)
        ensures
            persist_post(
                old(self).plugin_history@,
                final(self).plugin_history@,
                plugin_name@,
                command@,
            ),
            final(self).web_history == old(self).web_history,
            final(self).de_history == old(self).de_history,
    {
        persist_scoped(&mut self.plugin_history, plugin_name, command);
    }

    /// Record a web query.
    pub fn persist_web(&mut self, query: &str, kind: &str)
        ensures
            persist_post(old(self).web_history@, final(self).web_history@, kind@, query@),
            final(self).plugin_history == old(self).plugin_history,
            final(self).de_history == old(self).de_history,
    {
        persist_scoped(&mut self.web_history, kind, query);
    }

    /// Record a launched desktop entry by its path; a path already present
    /// is not stored twice.
    pub fn persist_de(&mut self, path: &str)
        ensures
            final(self).de_history.deep_view() == if old(self).de_history.deep_view().contains(
                path@,
            ) {
                old(self).de_history.deep_view()
            } else {
                old(self).de_history.deep_view().push(path@)
            },
            final(self).plugin_history == old(self).plugin_history,
            final(self).web_history == old(self).web_history,
    {
        let n = self.de_history.len();
        let mut i: usize = 0;
        while i < n
            invariant
                n == self.de_history@.len(),
                i <= n,
                forall|j: int| 0 <= j < i ==> self.de_history.deep_view()[j] != path@,
            decreases n - i,
        {
            if str_eq(self.de_history[i].as_str(), path) {
                proof {
                    assert(self.de_history.deep_view()[i as int] == path@);
                    assert(self.de_history.deep_view().contains(path@));
                }
                return ;
            }
            i += 1;
        }
        proof {
            assert(!self.de_history.deep_view().contains(path@)) by {
                if self.de_history.deep_view().contains(path@) {
                    let j = choose|j: int|
                        0 <= j < self.de_history.deep_view().len() && self.de_history.deep_view()[j]
                            == path@;
                    assert(self.de_history.deep_view()[j] == path@);
                }
            }
        }
        let ghost pre = self.de_history.deep_view();
        self.de_history.push(path.to_owned());
        proof {
            assert(self.de_history.deep_view() =~= pre.push(path@));
        }
    }
}

} // verus!
