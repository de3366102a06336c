use vstd::prelude::*;

verus! {

/// Why a candidate module could not be turned into a live plugin instance.
#[derive(Clone, Copy, PartialEq, Eq, Structural, Debug)]
pub enum LoadError {
    /// The module file could not be opened as a dynamic library.
    OpenFailed,
    /// The well-known factory symbol is absent from the module.
    SymbolMissing,
    /// The factory ran but handed back an invalid instance handle.
    InstantiationFailed,
    /// An extracted bundle contained no dynamic-library file.
    ModuleNotFound,
    /// An extracted bundle contained more than one dynamic-library file.
    AmbiguousModule,
}

/// Why a bundle could not be placed into its permanent install directory.
#[derive(Clone, Copy, PartialEq, Eq, Structural, Debug)]
pub enum InstallError {
    /// The archive could not be extracted (corrupt or unreadable).
    ExtractionFailed,
    /// The extracted tree could not be moved to the install directory.
    RelocationFailed,
}

/// Why the registry rejected an otherwise well-loaded plugin.
#[derive(Clone, Copy, PartialEq, Eq, Structural, Debug)]
pub enum RegistryError {
    /// Another registered plugin already reports this name.
    DuplicateName,
    /// Another registered plugin already claims this scope prefix.
    DuplicateScope,
}

impl RegistryError {
    /// A fixed human-readable description of the rejection.
    pub fn message(&self) -> (r: &'static str)
        ensures
            *self == RegistryError::DuplicateName ==> r@ == "duplicate plugin name"@,
            *self == RegistryError::DuplicateScope ==> r@ == "duplicate plugin scope"@,
    {
        match self {
            RegistryError::DuplicateName => "duplicate plugin name",
            RegistryError::DuplicateScope => "duplicate plugin scope",
        }
    }
}

} // verus!
