//! Provenance of a feature.
use vstd::prelude::*;

verus! {

/// Which identifier produced a feature.
#[derive(Debug, PartialEq, Eq)]
pub enum Source {
    Json,
    Tokenize,
    Custom(String),
}

/// Facts recorded about a feature besides its key and value.
#[derive(Debug, PartialEq)]
pub struct Metadata {
    source: Option<Source>,
}

impl View for Metadata {
    type V = Option<Source>;

    closed spec fn view(&self) -> Option<Source> {
        self.source
    }
}

impl Default for Metadata {
    fn default() -> (r: Metadata)
        ensures
            r@ is None,
    {
        Metadata { source: None }
    }
}

impl Metadata {
    /// Sets the source, e.g. `Source::Json` for a feature made by the JSON
    /// identifier.
    pub fn source(&mut self, source: Source)
        ensures
            final(self)@ == Some(source),
    {
        self.source = Some(source);
    }

    /// The source, if one was set.
    pub fn source_tag(&self) -> (r: Option<&Source>)
        ensures
            r is None <==> self@ is None,
            r matches Some(s) ==> self@ == Some(*s),
    {
        match &self.source {
            Some(s) => Some(s),
            None => None,
        }
    }
}

} // verus!
