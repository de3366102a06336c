use vstd::prelude::*;

verus! {

/// The plain-value capability report of one loaded plugin instance:
/// everything the host reads through the plugin contract's operations
/// (identity, claimed scope, declared routes, optional static asset).
pub struct PluginRecord {
    /// Unique identifier the plugin reports for itself.
    pub name: String,
    /// Version string the plugin reports.
    pub version: String,
    /// Human-readable description.
    pub description: String,
    /// URL path prefix the plugin claims; unique across loaded plugins.
    pub scope: String,
    /// Opaque compatibility token, not interpreted by the host.
    pub signature: String,
    /// Route paths the plugin declares, in declaration order.
    pub routes: Vec<String>,
    /// File name of a static asset to serve under the plugin's namespace.
    pub frontend: Option<String>,
}

/// One registered plugin: its capability report plus the stable identifier
/// the registry assigned at insertion.
pub struct PluginEntry {
    /// The plugin's capability report.
    pub plugin: PluginRecord,
    /// Identifier assigned in load order, never reused.
    pub id: usize,
}

/// The summary of one registered plugin, as handed out by introspection.
pub struct PluginMeta {
    pub id: usize,
    pub name: String,
    pub version: String,
    pub description: String,
    pub scope: String,
    pub signature: String,
    pub routes: Vec<String>,
    pub frontend: Option<String>,
}

} // verus!
