//! Target negotiation data: the name-to-atom map an owner's target list
//! decodes into, the per-connection atom cache, and the fixed-priority policy
//! that picks the target to transfer.

use vstd::prelude::*;

verus! {

/// A mapping from content-type name to the numeric atom that denotes it,
/// built fresh from one owner's target list and discarded after use.
pub struct TargetSet {
    entries: Vec<(String, u64)>,
}

/// The map described by a list of entries: later entries overwrite earlier
/// ones with the same name.
pub open spec fn entries_map(s: Seq<(String, u64)>) -> Map<Seq<char>, u64>
    decreases s.len(),
{
    if s.len() == 0 {
        Map::empty()
    } else {
        entries_map(s.drop_last()).insert(s.last().0@, s.last().1)
    }
}

/// No two entries carry the same name.
pub open spec fn unique_names(s: Seq<(String, u64)>) -> bool {
    forall|i: int, j: int| 0 <= i < j < s.len() ==> s[i].0@ != s[j].0@
}

/// With unique names, the entry at `i` is exactly what the map stores for its
/// name.
proof fn lemma_entries_map_index(s: Seq<(String, u64)>, i: int)
    requires
        unique_names(s),
        0 <= i < s.len(),
    ensures
        entries_map(s).contains_key(s[i].0@),
        entries_map(s)[s[i].0@] == s[i].1,
    decreases s.len(),
{
    if i < s.len() - 1 {
        lemma_entries_map_index(s.drop_last(), i);
    }
}

/// Every key of the map names some entry.
proof fn lemma_entries_map_dom(s: Seq<(String, u64)>, k: Seq<char>)
    requires
        entries_map(s).contains_key(k),
    ensures
        exists|i: int| 0 <= i < s.len() && s[i].0@ == k,
    decreases s.len(),
{
    if s.len() > 0 && s.last().0@ != k {
        lemma_entries_map_dom(s.drop_last(), k);
        let i = choose|i: int| 0 <= i < s.drop_last().len() && s.drop_last()[i].0@ == k;
        assert(s[i].0@ == k);
    }
}

/// Overwriting the entry whose name reads as `k@` updates the map at `k@`
/// alone.
proof fn lemma_entries_map_update(s: Seq<(String, u64)>, i: int, k: String, v: u64)
    requires
        unique_names(s),
        0 <= i < s.len(),
        k@ == s[i].0@,
    ensures
        entries_map(s.update(i, (k, v))) =~= entries_map(s).insert(k@, v),
    decreases s.len(),
{
    let t = s.update(i, (k, v));
    if i == s.len() - 1 {
        assert(t.drop_last() =~= s.drop_last());
    } else {
        lemma_entries_map_update(s.drop_last(), i, k, v);
        assert(t.drop_last() =~= s.drop_last().update(i, (k, v)));
    }
}

/// With unique names, the map holds exactly one key per entry.
proof fn lemma_entries_map_size(s: Seq<(String, u64)>)
    requires
        unique_names(s),
    ensures
        entries_map(s).dom().finite(),
        entries_map(s).dom().len() == s.len(),
    decreases s.len(),
{
    if s.len() > 0 {
        lemma_entries_map_size(s.drop_last());
        if entries_map(s.drop_last()).contains_key(s.last().0@) {
            lemma_entries_map_dom(s.drop_last(), s.last().0@);
        }
        assert(entries_map(s).dom() =~= entries_map(s.drop_last()).dom().insert(s.last().0@));
    }
}

impl TargetSet {
    /// The mathematical map this set holds.
    pub closed spec fn view(&self) -> Map<Seq<char>, u64> {
        entries_map(self.entries@)
    }

    /// Well-formed: one entry per name.
    pub closed spec fn wf(&self) -> bool {
        unique_names(self.entries@)
    }

    /// An empty set.
    pub fn new() -> (r: TargetSet)
        ensures
            r.wf(),
            r@ =~= Map::<Seq<char>, u64>::empty(),
    {
        TargetSet { entries: Vec::new() }
    }

    /// The atom recorded for `name`, if any.
    pub fn get(&self, name: &String) -> (r: Option<u64>)
        requires
            self.wf(),
        ensures
            r matches Some(a) ==> self@.contains_key(name@) && self@[name@] == a,
            r is None ==> !self@.contains_key(name@),
    {
        let n = self.entries.len();
        let mut i: usize = 0;
        while i < n
            invariant
                self.wf(),
                n == self.entries@.len(),
                i <= n,
                forall|j: int| 0 <= j < i ==> self.entries@[j].0@ != name@,
            decreases n - i,
        {
            if self.entries[i].0 == *name {
                proof {
                    lemma_entries_map_index(self.entries@, i as int);
                }
                return Some(self.entries[i].1);
            }
            i = i + 1;
        }
        proof {
            if self@.contains_key(name@) {
                lemma_entries_map_dom(self.entries@, name@);
            }
        }
        None
    }

    /// Records `atom` under `name`, overwriting what an earlier entry of the
    /// same name recorded, as the owner's later word wins.
    pub fn insert(&mut self, name: String, atom: u64)
        requires
            old(self).wf(),
        ensures
            final(self).wf(),
            final(self)@ =~= old(self)@.insert(name@, atom),
    {
        let n = self.entries.len();
        let mut i: usize = 0;
        while i < n
            invariant
                self.wf(),
                self == old(self),
                n == self.entries@.len(),
                i <= n,
                forall|j: int| 0 <= j < i ==> self.entries@[j].0@ != name@,
            decreases n - i,
        {
            if self.entries[i].0 == name {
                proof {
                    lemma_entries_map_update(self.entries@, i as int, name, atom);
                }
                self.entries.set(i, (name, atom));
                return ;
            }
            i = i + 1;
        }
        self.entries.push((name, atom));
        proof {
            assert(self.entries@.drop_last() =~= old(self).entries@);
        }
    }

    /// How many distinct names are recorded.
    pub fn len(&self) -> (r: usize)
        requires
            self.wf(),
        ensures
            self@.dom().finite(),
            r == self@.dom().len(),
    {
        proof {
            lemma_entries_map_size(self.entries@);
        }
        self.entries.len()
    }
}

/// The fixed-priority choice among the offered targets: the HTML type first,
/// then the UTF-8 string type, then the plain text type; `true` marks the
/// HTML choice.
pub open spec fn spec_select(m: Map<Seq<char>, u64>) -> Option<(u64, bool)> {
    if m.contains_key("text/html"@) {
        Some((m["text/html"@], true))
    } else if m.contains_key("UTF8_STRING"@) {
        Some((m["UTF8_STRING"@], false))
    } else if m.contains_key("TEXT"@) {
        Some((m["TEXT"@], false))
    } else {
        None
    }
}

impl TargetSet {
    /// Picks the target to transfer: first match wins in the fixed priority
    /// `"text/html"`, `"UTF8_STRING"`, `"TEXT"`; none of the three present
    /// means no transfer is attempted.
    pub fn select_target(&self) -> (r: Option<(u64, bool)>)
        requires
            self.wf(),
        ensures
            r == spec_select(self@),
    {
        let html: String = "text/html".to_owned();
        if let Some(a) = self.get(&html) {
            return Some((a, true));
        }
        let utf8: String = "UTF8_STRING".to_owned();
        if let Some(a) = self.get(&utf8) {
            return Some((a, false));
        }
        let text: String = "TEXT".to_owned();
        if let Some(a) = self.get(&text) {
            return Some((a, false));
        }
        None
    }
}

/// The target lists the two platform families report; this library fills the
/// form the selection protocol of the windowing server on this platform
/// produces.
pub enum ClipboardTargets {
    X11(TargetSet),
}

/// The per-connection cache of interned atoms: monotone, never evicting,
/// holding the small fixed vocabulary the protocol needs. Interning itself is
/// a server round trip; the cache only keeps its deterministic answers.
pub struct AtomRegistry {
    cache: TargetSet,
}

impl AtomRegistry {
    /// The name-to-atom map cached so far.
    pub closed spec fn view(&self) -> Map<Seq<char>, u64> {
        self.cache@
    }

    /// Well-formed: the cache is.
    pub closed spec fn wf(&self) -> bool {
        self.cache.wf()
    }

    /// An empty cache for a fresh connection.
    pub fn new() -> (r: AtomRegistry)
        ensures
            r.wf(),
            r@ =~= Map::<Seq<char>, u64>::empty(),
    {
        AtomRegistry { cache: TargetSet::new() }
    }

    /// The cached atom for `name`, if it was interned before.
    pub fn lookup(&self, name: &String) -> (r: Option<u64>)
        requires
            self.wf(),
        ensures
            r matches Some(a) ==> self@.contains_key(name@) && self@[name@] == a,
            r is None ==> !self@.contains_key(name@),
    {
        self.cache.get(name)
    }

    /// Caches the atom the server interned for `name`. Interning is
    /// deterministic per name within one connection session, so recording the
    /// same name twice records the same atom and the cache only grows.
    pub fn record(&mut self, name: String, atom: u64)
        requires
            old(self).wf(),
        ensures
            final(self).wf(),
            final(self)@ =~= old(self)@.insert(name@, atom),
    {
        self.cache.insert(name, atom);
    }
}

} // verus!
