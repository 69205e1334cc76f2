//! Resolved storage locations.
//!
//! A `UnixenConfig` carries the base directory under which the store keeps
//! its tree, already resolved to a plain path by the embedding application
//! (from an environment override or the per-user convention directory).
//! Every location the store touches is derived from it here, by joining a
//! fixed component onto the base.

use vstd::prelude::*;
use vstd::string::StringExecFns;

verus! {

/// The resolved base directory of the store, or `None` when no base
/// directory could be determined.  The base is used verbatim: it is
/// expected nonempty and without a trailing slash, as the resolver hands
/// it over, and every derived location is the base, a slash, and a fixed
/// component.
pub struct UnixenConfig {
    pub home: Option<String>,
}

impl UnixenConfig {
    /// The base directory as a sequence of characters, when one is set.
    pub open spec fn spec_home(self) -> Option<Seq<char>> {
        match self.home {
            Some(h) => Some(h@),
            None => None,
        }
    }

    /// Joins a slash-prefixed component onto the base directory, taken
    /// verbatim: a base with a trailing slash would yield a doubled
    /// separator, so the resolver must not hand one over.
    fn join(&self, part: &str) -> (r: Option<String>)
        ensures
            r is Some <==> self.spec_home() is Some,
            r matches Some(p) ==> self.spec_home() matches Some(h) && p@ == h + part@,
    {
        match &self.home {
            Some(h) => {
                let mut p = h.clone();
                p.append(part);
                Some(p)
            },
            None => None,
        }
    }

    /// The directory of human-chosen names, `<base>/usenames`.
    pub fn usenames_dir(&self) -> (r: Option<String>)
        ensures
            r is Some <==> self.spec_home() is Some,
            r matches Some(p) ==> self.spec_home() matches Some(h) && p@ == h
                + "/usenames"@,
    {
        self.join("/usenames")
    }

    /// The directory of public-only identities, `<base>/cryptonames`.
    pub fn cryptonames_dir(&self) -> (r: Option<String>)
        ensures
            r is Some <==> self.spec_home() is Some,
            r matches Some(p) ==> self.spec_home() matches Some(h) && p@ == h
                + "/cryptonames"@,
    {
        self.join("/cryptonames")
    }

    /// The directory of full keypair identities, `<base>/truenames`.
    pub fn truenames_dir(&self) -> (r: Option<String>)
        ensures
            r is Some <==> self.spec_home() is Some,
            r matches Some(p) ==> self.spec_home() matches Some(h) && p@ == h
                + "/truenames"@,
    {
        self.join("/truenames")
    }

    /// The archival area, `<base>/.composted`.
    pub fn composted_dir(&self) -> (r: Option<String>)
        ensures
            r is Some <==> self.spec_home() is Some,
            r matches Some(p) ==> self.spec_home() matches Some(h) && p@ == h
                + "/.composted"@,
    {
        self.join("/.composted")
    }

    /// The root identity file, `<base>/root`.
    pub fn root_path(&self) -> (r: Option<String>)
        ensures
            r is Some <==> self.spec_home() is Some,
            r matches Some(p) ==> self.spec_home() matches Some(h) && p@ == h + "/root"@,
    {
        self.join("/root")
    }
}

} // verus!
