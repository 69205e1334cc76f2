//! The store: the on-disk directory tree and the root identity's
//! lifecycle.
//!
//! The store itself performs no filesystem work.  It decides: `open_plan`
//! says which directories must exist and with which permission bits,
//! `open` validates the base path, and `reroot` mints a fresh root
//! identity and says exactly what must be written where, and under which
//! mode, for it to be persisted.  The embedding application carries the
//! plans out, creating directories best-effort, treating any failure
//! around the root file as "root state unknown", and initializing the
//! signature primitive — once per process, behind its own guard — as the
//! last step of carrying out an open.

use crate::config::UnixenConfig;
use crate::idents::Truename;
use crate::record::spec_secret_record;
use vstd::prelude::*;

verus! {

/// Permission bits of the world-readable directories.
pub const OPEN_DIR_MODE: u32 = 0o755;

/// Permission bits of the secret-bearing directories.
pub const SECRET_DIR_MODE: u32 = 0o700;

/// Permission bits of the root identity file: owner-only read and write,
/// to be established before any content is written.
pub const ROOT_FILE_MODE: u32 = 0o600;

/// One directory the store requires: its path and the permission bits to
/// (re-)establish on it, best-effort, on every open.
pub struct DirPlan {
    pub path: String,
    pub mode: u32,
}

/// Everything needed to persist a freshly minted root identity: the
/// identity itself, the root file's path, the mode to set on that file
/// before writing, and the secret record bytes to write into it.
pub struct RootPlan {
    pub truename: Truename,
    pub path: String,
    pub mode: u32,
    pub record: Vec<u8>,
}

/// An opened store over a resolved base directory.
pub struct Tome {
    unix: UnixenConfig,
}

impl Tome {
    /// The store's base directory.
    pub closed spec fn spec_home(self) -> Option<Seq<char>> {
        self.unix.spec_home()
    }

    /// An opened store always has a resolved base directory.
    #[verifier::type_invariant]
    pub open spec fn wf(self) -> bool {
        self.spec_home() is Some
    }

    /// The four directories an open must establish, in order: `usenames`
    /// and `cryptonames` world-readable, `truenames` and the `.composted`
    /// archive owner-only.  `None` exactly when no base directory is
    /// resolved.
    pub fn open_plan(unix: &UnixenConfig) -> (r: Option<Vec<DirPlan>>)
        ensures
            r is Some <==> unix.spec_home() is Some,
            r matches Some(plan) ==> unix.spec_home() matches Some(h) && plan@.len() == 4
                && plan@[0].path@ == h + "/usenames"@ && plan@[0].mode == OPEN_DIR_MODE
                && plan@[1].path@ == h + "/cryptonames"@ && plan@[1].mode == OPEN_DIR_MODE
                && plan@[2].path@ == h + "/truenames"@ && plan@[2].mode == SECRET_DIR_MODE
                && plan@[3].path@ == h + "/.composted"@ && plan@[3].mode == SECRET_DIR_MODE,
    {
        let usenames = match unix.usenames_dir() {
            None => {
                return None;
            },
            Some(d) => d,
        };
        let cryptonames = match unix.cryptonames_dir() {
            None => {
                return None;
            },
            Some(d) => d,
        };
        let truenames = match unix.truenames_dir() {
            None => {
                return None;
            },
            Some(d) => d,
        };
        let composted = match unix.composted_dir() {
            None => {
                return None;
            },
            Some(d) => d,
        };
        let mut plan: Vec<DirPlan> = Vec::new();
        plan.push(DirPlan { path: usenames, mode: OPEN_DIR_MODE });
        plan.push(DirPlan { path: cryptonames, mode: OPEN_DIR_MODE });
        plan.push(DirPlan { path: truenames, mode: SECRET_DIR_MODE });
        plan.push(DirPlan { path: composted, mode: SECRET_DIR_MODE });
        Some(plan)
    }

    /// Opens the store: fails exactly when no base directory is
    /// resolved.  The directory tree of `open_plan` is established by the
    /// embedding application, best-effort — a failed creation or
    /// permission change does not fail the open — and the application
    /// then initializes the signature primitive, exactly once per process
    /// behind its own guard, before any signing, verification or key
    /// generation.
    pub fn open(unix: UnixenConfig) -> (r: Option<Tome>)
        ensures
            r is Some <==> unix.spec_home() is Some,
            r matches Some(t) ==> t.spec_home() == unix.spec_home(),
    {
        if unix.home.is_none() {
            return None;
        }
        Some(Tome { unix })
    }

    /// Mints a fresh root identity and plans its persistence.  `None`
    /// exactly when the primitive's key generation fails — a fatal
    /// environment condition, not a routine error.  A prior root identity
    /// is overwritten unarchived; the `.composted` area is the intended
    /// place for it, an extension point deliberately left open.
    pub fn reroot(&self) -> (r: Option<RootPlan>)
        ensures
            r matches Some(p) ==> self.spec_home() matches Some(h) && p.path@ == h + "/root"@
                && p.mode == ROOT_FILE_MODE
                && p.record@ == spec_secret_record(
                p.truename.spec_public(),
                p.truename.spec_secret(),
            ),
    {
        let truename = match Truename::generate() {
            None => {
                return None;
            },
            Some(t) => t,
        };
        Some(self.reroot_with(truename))
    }

    /// Plans the persistence of a given root identity: the root file's
    /// path, the owner-only mode to set on it before writing, and the
    /// secret record to write.  An opened store always has a base
    /// directory, so this cannot fail.
    pub fn reroot_with(&self, truename: Truename) -> (p: RootPlan)
        ensures
            self.spec_home() matches Some(h) && p.path@ == h + "/root"@ && p.mode
                == ROOT_FILE_MODE && p.truename == truename
                && p.record@ == spec_secret_record(
                truename.spec_public(),
                truename.spec_secret(),
            ),
    {
        proof {
            use_type_invariant(self);
        }
        let path = match self.unix.root_path() {
            None => vstd::pervasive::unreached(),
            Some(p) => p,
        };
        let record = truename.secretly_write();
        RootPlan { truename, path, mode: ROOT_FILE_MODE, record }
    }
}

} // verus!
