use vstd::prelude::*;

use crate::contract::{PluginEntry, PluginRecord};
use crate::errors::RegistryError;
use crate::text::str_eq;

verus! {

/// Does some entry report this plugin name?
pub open spec fn has_name(s: Seq<PluginEntry>, name: Seq<char>) -> bool {
    exists|i: int| 0 <= i < s.len() && (#[trigger] s[i].plugin.name@) == name
}

/// Does some entry claim this scope prefix?
pub open spec fn has_scope(s: Seq<PluginEntry>, scope: Seq<char>) -> bool {
    exists|i: int| 0 <= i < s.len() && (#[trigger] s[i].plugin.scope@) == scope
}

/// Well-formedness of the registry contents: each entry's identifier equals
/// its position (so identifiers are contiguous from zero and strictly
/// increasing in load order), and no two entries share a name or a scope.
pub open spec fn entries_wf(s: Seq<PluginEntry>) -> bool {
    &&& forall|i: int| 0 <= i < s.len() ==> (#[trigger] s[i].id) == i
    &&& forall|i: int, j: int|
        0 <= i < s.len() && 0 <= j < s.len() && i != j ==> (#[trigger] s[i].plugin.name@)
            != (#[trigger] s[j].plugin.name@)
    &&& forall|i: int, j: int|
        0 <= i < s.len() && 0 <= j < s.len() && i != j ==> (#[trigger] s[i].plugin.scope@)
            != (#[trigger] s[j].plugin.scope@)
}

/// The outcome the registry owes for an insertion attempt: the scope check
/// comes first, then the name check; on success the assigned identifier is
/// the number of entries already present.
pub open spec fn insert_result(s: Seq<PluginEntry>, rec: PluginRecord) -> Result<
    usize,
    RegistryError,
> {
    if has_scope(s, rec.scope@) {
        Result::Err(RegistryError::DuplicateScope)
    } else if has_name(s, rec.name@) {
        Result::Err(RegistryError::DuplicateName)
    } else {
        Result::Ok(s.len() as usize)
    }
}

/// The registry contents after an insertion attempt: unchanged on rejection,
/// extended by exactly one entry carrying the next identifier on success.
pub open spec fn insert_state(s: Seq<PluginEntry>, rec: PluginRecord) -> Seq<PluginEntry> {
    if insert_result(s, rec) is Ok {
        s.push(PluginEntry { plugin: rec, id: s.len() as usize })
    } else {
        s
    }
}

/// Store of loaded plugins: name and scope uniqueness are enforced at
/// insertion, identifiers are assigned atomically with the committed entry,
/// and entries are kept in insertion order. All mutation goes through
/// `insert`, so a rejected candidate is never partially committed.
pub struct Registry {
    entries: Vec<PluginEntry>,
}

impl View for Registry {
    type V = Seq<PluginEntry>;

    closed spec fn view(&self) -> Seq<PluginEntry> {
        self.entries@
    }
}

impl Registry {
    /// The registry invariant; established by `new`, preserved by `insert`.
    pub open spec fn wf(&self) -> bool {
        entries_wf(self@)
    }

    /// An empty registry.
    pub fn new() -> (r: Registry)
        ensures
            r@ == Seq::<PluginEntry>::empty(),
            r.wf(),
    {
        Registry { entries: Vec::new() }
    }

    /// How many plugins are registered; also the next identifier to assign.
    pub fn len(&self) -> (n: usize)
        ensures
            n == self@.len(),
    {
        self.entries.len()
    }

    /// Read access to the entry at one position.
    pub fn entry_at(&self, i: usize) -> (e: &PluginEntry)
        requires
            i < self@.len(),
        ensures
            *e == self@[i as int],
    {
        &self.entries[i]
    }

    /// A read-only snapshot of the route table: each registered scope paired
    /// with the route paths declared under it, in insertion order.
    pub fn snapshot_routes(&self) -> (r: Vec<(String, Vec<String>)>)
        ensures
            r@.len() == self@.len(),
            forall|i: int|
                0 <= i < r@.len() ==> (#[trigger] r@[i]).0 == self@[i].plugin.scope && r@[i].1@
                    == self@[i].plugin.routes@,
    {
        let n = self.entries.len();
        let mut out: Vec<(String, Vec<String>)> = Vec::new();
        let mut i: usize = 0;
        while i < n
            invariant
                i <= n,
                n == self@.len(),
                out@.len() == i,
                forall|k: int|
                    0 <= k < i ==> (#[trigger] out@[k]).0 == self@[k].plugin.scope && out@[k].1@
                        == self@[k].plugin.routes@,
            decreases n - i,
        {
            let e = &self.entries[i];
            out.push(
                (e.plugin.scope.clone(), crate::text::clone_string_vec(&e.plugin.routes)),
            );
            i = i + 1;
        }
        out
    }

    /// Is this name already taken?
    pub fn contains_name(&self, name: &str) -> (r: bool)
        ensures
            r == has_name(self@, name@),
    {
        let n = self.entries.len();
        let mut i: usize = 0;
        while i < n
            invariant
                i <= n,
                n == self@.len(),
                forall|k: int| 0 <= k < i ==> (#[trigger] self@[k].plugin.name@) != name@,
            decreases n - i,
        {
            if str_eq(self.entries[i].plugin.name.as_str(), name) {
                return true;
            }
            i = i + 1;
        }
        false
    }

    /// Is this scope prefix already claimed?
    pub fn contains_scope(&self, scope: &str) -> (r: bool)
        ensures
            r == has_scope(self@, scope@),
    {
        let n = self.entries.len();
        let mut i: usize = 0;
        while i < n
            invariant
                i <= n,
                n == self@.len(),
                forall|k: int| 0 <= k < i ==> (#[trigger] self@[k].plugin.scope@) != scope@,
            decreases n - i,
        {
            if str_eq(self.entries[i].plugin.scope.as_str(), scope) {
                return true;
            }
            i = i + 1;
        }
        false
    }

    /// Checked insertion: rejects a duplicate scope, then a duplicate name,
    /// and otherwise commits the record together with the next identifier as
    /// one step. A rejected record leaves the registry exactly as it was.
    pub fn insert(&mut self, rec: PluginRecord) -> (r: Result<usize, RegistryError>)
        requires
            old(self).wf(),
        ensures
            final(self).wf(),
            r == insert_result(old(self)@, rec),
            final(self)@ == insert_state(old(self)@, rec),
    {
        if self.contains_scope(rec.scope.as_str()) {
            return Err(RegistryError::DuplicateScope);
        }
        if self.contains_name(rec.name.as_str()) {
            return Err(RegistryError::DuplicateName);
        }
        let id = self.entries.len();
        let ghost pre = self@;
        self.entries.push(PluginEntry { plugin: rec, id });
        proof {
            assert(self@ == pre.push(PluginEntry { plugin: rec, id }));
            assert(self@ == insert_state(pre, rec));
            crate::laws::lemma_insert_preserves_wf(pre, rec);
        }
        Ok(id)
    }
}

} // verus!
