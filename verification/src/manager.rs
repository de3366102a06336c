use vstd::prelude::*;

use crate::contract::{PluginEntry, PluginMeta, PluginRecord};
use crate::errors::{InstallError, LoadError, RegistryError};
use crate::json;
use crate::registry::{insert_result, insert_state, Registry};
use crate::text::{clone_opt_string, clone_string_vec, str_eq};

verus! {

/// What one discovery candidate came to, by the time the host has plain
/// values in hand: a live plugin's capability report, or the failure that
/// stopped it on the way there.
pub enum LoadOutcome {
    /// The module was loaded and reported its capabilities.
    Loaded(PluginRecord),
    /// The module could not be loaded.
    LoadFailed(LoadError),
    /// The bundle could not be extracted or installed.
    InstallFailed(InstallError),
}

/// One per-candidate failure, reported without stopping discovery.
#[derive(Clone, Copy, PartialEq, Eq, Structural, Debug)]
pub enum FailureReport {
    /// The dynamic loader or bundle resolver failed.
    Load(LoadError),
    /// Extraction or relocation of a bundle failed.
    Install(InstallError),
    /// The registry rejected the candidate.
    Rejected(RegistryError),
}

/// The registry contents after one discovery candidate is dealt with: only a
/// loaded report can change them, and only through checked insertion.
pub open spec fn outcome_state(s: Seq<PluginEntry>, o: LoadOutcome) -> Seq<PluginEntry> {
    match o {
        LoadOutcome::Loaded(rec) => insert_state(s, rec),
        LoadOutcome::LoadFailed(_) => s,
        LoadOutcome::InstallFailed(_) => s,
    }
}

/// The failure, if any, that one discovery candidate adds to the report.
pub open spec fn outcome_report(s: Seq<PluginEntry>, o: LoadOutcome) -> Option<FailureReport> {
    match o {
        LoadOutcome::Loaded(rec) => match insert_result(s, rec) {
            Ok(_) => None,
            Err(e) => Some(FailureReport::Rejected(e)),
        },
        LoadOutcome::LoadFailed(e) => Some(FailureReport::Load(e)),
        LoadOutcome::InstallFailed(e) => Some(FailureReport::Install(e)),
    }
}

/// The registry contents after a whole discovery pass, one candidate at a
/// time, in scan order.
pub open spec fn outcomes_state(s: Seq<PluginEntry>, os: Seq<LoadOutcome>) -> Seq<PluginEntry>
    decreases os.len(),
{
    if os.len() == 0 {
        s
    } else {
        outcome_state(outcomes_state(s, os.drop_last()), os.last())
    }
}

/// Every failure a whole discovery pass reports, in scan order; failed
/// candidates are reported, never fatal to the pass.
pub open spec fn outcomes_reports(s: Seq<PluginEntry>, os: Seq<LoadOutcome>) -> Seq<FailureReport>
    decreases os.len(),
{
    if os.len() == 0 {
        Seq::empty()
    } else {
        let prev = outcomes_reports(s, os.drop_last());
        match outcome_report(outcomes_state(s, os.drop_last()), os.last()) {
            Some(f) => prev.push(f),
            None => prev,
        }
    }
}

/// Does this summary faithfully describe that registered entry?
pub open spec fn meta_matches(m: PluginMeta, e: PluginEntry) -> bool {
    &&& m.id == e.id
    &&& m.name == e.plugin.name
    &&& m.version == e.plugin.version
    &&& m.description == e.plugin.description
    &&& m.scope == e.plugin.scope
    &&& m.signature == e.plugin.signature
    &&& m.routes@ == e.plugin.routes@
    &&& m.frontend == e.plugin.frontend
}

/// The answer `get_plugin_info` owes for a registered entry and a queried
/// field name.
pub open spec fn info_field(e: PluginEntry, field: Seq<char>) -> Seq<char> {
    if field == "name"@ {
        e.plugin.name@
    } else if field == "version"@ {
        e.plugin.version@
    } else if field == "description"@ {
        e.plugin.description@
    } else if field == "scope"@ {
        e.plugin.scope@
    } else {
        "Unknown"@
    }
}

/// The static-asset route of one plugin: URL, install directory and file
/// name that the serving surface binds together.
pub struct FrontendRoute {
    /// Fixed per-plugin URL under which the asset is reachable.
    pub url: String,
    /// The plugin's permanent install directory.
    pub dir: String,
    /// The declared asset file name inside that directory.
    pub file: String,
}

/// Everything the serving surface must register for one plugin: its declared
/// routes under its scope prefix, and the optional static-asset route.
pub struct RouteBinding {
    /// The scope prefix the plugin claimed.
    pub scope: String,
    /// The declared route paths, nested under the scope.
    pub paths: Vec<String>,
    /// The static-asset route, when the plugin declares a frontend file.
    pub frontend: Option<FrontendRoute>,
}

/// Does this binding compose that entry correctly, for a host whose plugin
/// install directories live under `dir`?
pub open spec fn binding_matches(b: RouteBinding, e: PluginEntry, dir: Seq<char>) -> bool {
    &&& b.scope == e.plugin.scope
    &&& b.paths@ == e.plugin.routes@
    &&& match e.plugin.frontend {
        None => b.frontend is None,
        Some(f) => match b.frontend {
            Some(fr) => fr.url@ == "/plugin/"@ + e.plugin.name@ && fr.dir@ == dir + "/"@
                + e.plugin.name@ && fr.file == f,
            None => false,
        },
    }
}

/// What serving a static-asset request comes to once the file has been
/// looked up.
#[derive(PartialEq, Eq)]
pub enum AssetResponse {
    /// The asset's bytes, to be served as the response body.
    Asset(Vec<u8>),
    /// The declared file is absent: a not-found response, never a crash.
    NotFound,
}

/// A missing frontend file degrades to a not-found response at request time;
/// a present one is served as it is.
pub fn frontend_response(contents: Option<Vec<u8>>) -> (r: AssetResponse)
    ensures
        match contents {
            Some(b) => r == AssetResponse::Asset(b),
            None => r == AssetResponse::NotFound,
        },
{
    match contents {
        Some(b) => AssetResponse::Asset(b),
        None => AssetResponse::NotFound,
    }
}

/// The manager facade: owns the registry, drives discovery over plain
/// per-candidate outcomes, and answers introspection queries.
pub struct PluginManager {
    registry: Registry,
    plugin_dir: String,
}

impl PluginManager {
    /// The registered entries, in insertion order.
    pub closed spec fn entries(&self) -> Seq<PluginEntry> {
        self.registry@
    }

    /// The configured plugin directory.
    pub closed spec fn dir(&self) -> Seq<char> {
        self.plugin_dir@
    }

    /// The manager's invariant: the registry invariant.
    pub open spec fn wf(&self) -> bool {
        crate::registry::entries_wf(self.entries())
    }

    /// A manager over an empty registry, for the given plugin directory.
    pub fn new(plugin_dir: String) -> (r: PluginManager)
        ensures
            r.entries() == Seq::<PluginEntry>::empty(),
            r.dir() == plugin_dir@,
            r.wf(),
    {
        PluginManager { registry: Registry::new(), plugin_dir }
    }

    /// How many plugins are registered.
    pub fn plugin_count(&self) -> (n: usize)
        ensures
            n == self.entries().len(),
    {
        self.registry.len()
    }

    /// Registers one loaded plugin's report: rejects a duplicate scope, then
    /// a duplicate name, and otherwise commits the report together with the
    /// next identifier as one step. A rejected report changes nothing.
    pub fn register_plugin(&mut self, rec: PluginRecord) -> (r: Result<usize, RegistryError>)
        requires
            old(self).wf(),
        ensures
            final(self).wf(),
            final(self).dir() == old(self).dir(),
            r == insert_result(old(self).entries(), rec),
            final(self).entries() == insert_state(old(self).entries(), rec),
    {
        self.registry.insert(rec)
    }

    /// Drives one whole discovery pass over the per-candidate outcomes, in
    /// scan order: each loaded report is put through checked registration,
    /// and every failure is collected in the returned report rather than
    /// stopping the pass.
    pub fn apply_load_outcomes(&mut self, outcomes: Vec<LoadOutcome>) -> (reports: Vec<
        FailureReport,
    >)
        requires
            old(self).wf(),
        ensures
            final(self).wf(),
            final(self).dir() == old(self).dir(),
            final(self).entries() == outcomes_state(old(self).entries(), outcomes@),
            reports@ == outcomes_reports(old(self).entries(), outcomes@),
    {
        let ghost all = outcomes@;
        let ghost start = self.entries();
        let mut rest = outcomes;
        let mut reports: Vec<FailureReport> = Vec::new();
        let ghost mut i: int = 0;
        while rest.len() > 0
            invariant
                self.wf(),
                self.dir() == old(self).dir(),
                0 <= i,
                i + rest@.len() == all.len(),
                rest@ == all.subrange(i, all.len() as int),
                self.entries() == outcomes_state(start, all.take(i)),
                reports@ == outcomes_reports(start, all.take(i)),
            decreases rest@.len(),
        {
            let o = rest.remove(0);
            proof {
                assert(o == all[i]);
                assert(all.take(i + 1).drop_last() =~= all.take(i));
                assert(all.take(i + 1).last() == all[i]);
                assert(rest@ =~= all.subrange(i + 1, all.len() as int));
            }
            match o {
                LoadOutcome::Loaded(rec) => {
                    match self.register_plugin(rec) {
                        Ok(_) => {},
                        Err(e) => {
                            reports.push(FailureReport::Rejected(e));
                        },
                    }
                },
                LoadOutcome::LoadFailed(e) => {
                    reports.push(FailureReport::Load(e));
                },
                LoadOutcome::InstallFailed(e) => {
                    reports.push(FailureReport::Install(e));
                },
            }
            proof {
                i = i + 1;
            }
        }
        proof {
            assert(all.take(all.len() as int) =~= all);
        }
        reports
    }

    /// The routes document: a pretty-printed JSON object mapping each
    /// registered scope to its declared route paths, in insertion order.
    pub fn get_routes_json(&self) -> (r: String)
        ensures
            r@ == json::routes_document(self.entries()),
    {
        json::registry_routes_document(&self.registry)
    }

    /// The plugins document: one faithful summary per registered plugin, in
    /// insertion order.
    pub fn get_plugins_meta(&self) -> (r: Vec<PluginMeta>)
        ensures
            r@.len() == self.entries().len(),
            forall|i: int|
                0 <= i < r@.len() ==> meta_matches(#[trigger] r@[i], self.entries()[i]),
    {
        let n = self.registry.len();
        let mut out: Vec<PluginMeta> = Vec::new();
        let mut i: usize = 0;
        while i < n
            invariant
                i <= n,
                n == self.entries().len(),
                out@.len() == i,
                forall|k: int|
                    0 <= k < i ==> meta_matches(#[trigger] out@[k], self.entries()[k]),
            decreases n - i,
        {
            let e = self.registry.entry_at(i);
            out.push(
                PluginMeta {
                    id: e.id,
                    name: e.plugin.name.clone(),
                    version: e.plugin.version.clone(),
                    description: e.plugin.description.clone(),
                    scope: e.plugin.scope.clone(),
                    signature: e.plugin.signature.clone(),
                    routes: clone_string_vec(&e.plugin.routes),
                    frontend: clone_opt_string(&e.plugin.frontend),
                },
            );
            i = i + 1;
        }
        out
    }

    /// Answers an introspection query for one field of one registered
    /// plugin: its reported value for a recognized field name, a fixed
    /// placeholder for any other, and nothing when the plugin is unknown.
    pub fn get_plugin_info(&self, name: &str, field: &str) -> (r: Option<String>)
        requires
            self.wf(),
        ensures
            r is Some <==> crate::registry::has_name(self.entries(), name@),
            match r {
                Some(v) => forall|i: int|
                    0 <= i < self.entries().len() && (#[trigger] self.entries()[i].plugin.name@)
                        == name@ ==> v@ == info_field(self.entries()[i], field@),
                None => true,
            },
    {
        let n = self.registry.len();
        let mut i: usize = 0;
        while i < n
            invariant
                self.wf(),
                i <= n,
                n == self.entries().len(),
                forall|k: int|
                    0 <= k < i ==> (#[trigger] self.entries()[k].plugin.name@) != name@,
            decreases n - i,
        {
            let e = self.registry.entry_at(i);
            if str_eq(e.plugin.name.as_str(), name) {
                let v = if str_eq(field, "name") {
                    e.plugin.name.clone()
                } else if str_eq(field, "version") {
                    e.plugin.version.clone()
                } else if str_eq(field, "description") {
                    e.plugin.description.clone()
                } else if str_eq(field, "scope") {
                    e.plugin.scope.clone()
                } else {
                    String::from_str("Unknown")
                };
                proof {
                    let k = i as int;
                    assert forall|m: int|
                        0 <= m < self.entries().len() && (#[trigger] self.entries()[m].plugin.name@)
                            == name@ implies m == k by {
                        if m != k {
                            assert(self.entries()[m].plugin.name@
                                != self.entries()[k].plugin.name@);
                        }
                    }
                }
                return Some(v);
            }
            i = i + 1;
        }
        None
    }

    /// Materializes the registry into a composition plan for the serving
    /// surface: for every registered plugin, its scope, its declared route
    /// paths, and, when it declares a frontend file, the fixed per-plugin
    /// asset route served out of its install directory.
    pub fn route_bindings(&self) -> (r: Vec<RouteBinding>)
        ensures
            r@.len() == self.entries().len(),
            forall|i: int|
                0 <= i < r@.len() ==> binding_matches(
                    #[trigger] r@[i],
                    self.entries()[i],
                    self.dir(),
                ),
    {
        let n = self.registry.len();
        let mut out: Vec<RouteBinding> = Vec::new();
        let mut i: usize = 0;
        while i < n
            invariant
                i <= n,
                n == self.entries().len(),
                out@.len() == i,
                forall|k: int|
                    0 <= k < i ==> binding_matches(#[trigger] out@[k], self.entries()[k], self.dir()),
            decreases n - i,
        {
            let e = self.registry.entry_at(i);
            let frontend = match &e.plugin.frontend {
                Some(f) => {
                    let url = String::from_str("/plugin/").concat(e.plugin.name.as_str());
                    let dir = self.plugin_dir.clone().concat("/").concat(e.plugin.name.as_str());
                    Some(FrontendRoute { url, dir, file: f.clone() })
                },
                None => None,
            };
            out.push(
                RouteBinding {
                    scope: e.plugin.scope.clone(),
                    paths: clone_string_vec(&e.plugin.routes),
                    frontend,
                },
            );
            i = i + 1;
        }
        out
    }
}

} // verus!
