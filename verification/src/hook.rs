//! Hook installation: redirecting the presentation entry point while keeping
//! a callable original.
//!
//! The platform mechanism (an import-table patch on one family, an inline
//! detour on another) runs outside the library; its reply is handed in as a
//! [`PatchOutcome`]. The decisions — whether to attempt a patch at all,
//! what the process-wide hook record becomes, which error is reported — are
//! verified here. Installation is idempotent at the process level: a second
//! attempt is rejected, never double-patched.

use vstd::prelude::*;

verus! {

/// Declares plt_rs::PatchError, the error of the platform patch call, so
/// that the wrapper below can return it; verified code maps it to
/// [`InstallError`] and never looks inside it.
#[verifier::external_type_specification]
#[verifier::external_body]
pub struct ExPatchError(plt_rs::PatchError);

/// Relies on plt_rs::patch: makes the page holding the import-table entry at
/// `entry_addr` writable, replaces the function pointer stored there with
/// `replacement`, and returns the value the entry held before. That value
/// is whatever the live process's memory held, so nothing is assumed of it:
/// the caller decides on every possible reply.
///
/// The replace is a pointer-sized store, so the entry address must be
/// pointer-aligned — a misaligned address could make the store span past the
/// one page the call unprotects. That `entry_addr` really is a live
/// import-table slot of the running image cannot be stated here and remains
/// trusted. An `Err` can also come from restoring the page protection, after
/// the pointer was already replaced.
#[verifier::external_body]
fn patch_plt_entry(entry_addr: usize, replacement: usize) -> (r: Result<usize, plt_rs::PatchError>)
    requires
        entry_addr as int % (vstd::layout::size_of::<usize>() as int) == 0,
{
    plt_rs::patch(entry_addr, replacement)
}

/// Why an installation did not take effect.
#[derive(Clone, Copy, Debug, PartialEq, Eq, Structural)]
pub enum InstallError {
    /// The symbol was absent from the module's table; the hook never installs.
    NotFound,
    /// The target location could not be made writable.
    WriteProtect,
    /// The detour engine could not build a trampoline at the hook site.
    DetourConstruction,
    /// An installation for this symbol already succeeded; it is kept as is.
    AlreadyInstalled,
}

/// The platform's reply to a single patch attempt at a resolved address.
#[derive(Clone, Copy, Debug, PartialEq, Eq, Structural)]
pub enum PatchOutcome {
    /// The redirection is in place; `trampoline` is the callable original
    /// (the old slot value for a table patch, the generated stub for a
    /// detour). A reply of zero is a construction failure: no callable
    /// original exists.
    Patched { trampoline: usize },
    /// A protection change around the write failed. When the failure came
    /// before the write, nothing was changed; for an import-table patch it
    /// can also come while restoring protection afterwards, so the slot may
    /// already carry the redirection when this is reported.
    WriteProtectDenied,
    /// The prologue at the target could not be disassembled; nothing was
    /// changed.
    PrologueUnsupported,
}

/// The mathematical state of the process-wide hook record.
pub struct HookStateV {
    /// The one symbol this process intercepts.
    pub symbol: Seq<u8>,
    /// The callable original once installed, zero before.
    pub original: usize,
    /// Whether the redirection is in place.
    pub installed: bool,
}

impl HookStateV {
    /// Once the installed flag is set, the original pointer is immutable and
    /// non-null.
    pub open spec fn wf(self) -> bool {
        self.installed ==> self.original != 0
    }
}

/// One step of the installation state machine: from the current record and
/// the platform's reply to the new record and the reported result.
pub open spec fn install_step(s: HookStateV, outcome: PatchOutcome) -> (HookStateV, Result<
    usize,
    InstallError,
>) {
    if s.installed {
        (s, Err(InstallError::AlreadyInstalled))
    } else {
        match outcome {
            PatchOutcome::Patched { trampoline } => {
                if trampoline == 0 {
                    (s, Err(InstallError::DetourConstruction))
                } else {
                    (
                        HookStateV { original: trampoline, installed: true, ..s },
                        Ok(trampoline),
                    )
                }
            },
            PatchOutcome::WriteProtectDenied => (s, Err(InstallError::WriteProtect)),
            PatchOutcome::PrologueUnsupported => (s, Err(InstallError::DetourConstruction)),
        }
    }
}

/// The process-wide hook record: created once at bootstrap, written once at
/// installation, read on every intercepted call.
pub struct HookInstaller {
    symbol: Vec<u8>,
    original: usize,
    installed: bool,
}

impl HookInstaller {
    pub closed spec fn view(self) -> HookStateV {
        HookStateV { symbol: self.symbol@, original: self.original, installed: self.installed }
    }

    /// A fresh record for the one symbol this process will intercept:
    /// nothing installed, no original yet.
    pub fn new(symbol: Vec<u8>) -> (r: HookInstaller)
        ensures
            r@ == (HookStateV { symbol: symbol@, original: 0, installed: false }),
            r@.wf(),
    {
        HookInstaller { symbol, original: 0, installed: false }
    }

    /// Whether a patch attempt is still wanted. The caller attempts the
    /// platform patch only when this is true.
    pub fn needs_install(&self) -> (r: bool)
        ensures
            r == !self@.installed,
    {
        !self.installed
    }

    /// The symbol name this record is for.
    pub fn symbol(&self) -> (r: &Vec<u8>)
        ensures
            r@ == self@.symbol,
    {
        &self.symbol
    }

    /// Record the platform's reply to a patch attempt at the resolved target.
    /// Exactly [`install_step`]: a second installation is rejected with
    /// `AlreadyInstalled` and changes nothing; a failed patch leaves the
    /// record uninstalled; a successful one stores the callable original and
    /// reports it.
    pub fn install(&mut self, outcome: PatchOutcome) -> (r: Result<usize, InstallError>)
        requires
            old(self)@.wf(),
        ensures
            (final(self)@, r) == install_step(old(self)@, outcome),
            final(self)@.wf(),
    {
        if self.installed {
            Err(InstallError::AlreadyInstalled)
        } else {
            match outcome {
                PatchOutcome::Patched { trampoline } => {
                    if trampoline == 0 {
                        Err(InstallError::DetourConstruction)
                    } else {
                        self.original = trampoline;
                        self.installed = true;
                        Ok(trampoline)
                    }
                },
                PatchOutcome::WriteProtectDenied => Err(InstallError::WriteProtect),
                PatchOutcome::PrologueUnsupported => Err(InstallError::DetourConstruction),
            }
        }
    }

    /// Performs the platform patch at the resolved import-table entry and
    /// records its reply as one [`install_step`]. A record that is already
    /// installed rejects before anything is patched — and only then; a null
    /// previous value means no callable original exists, and the record
    /// stays uninstalled; a page-protection failure is reported as
    /// `WriteProtect`. On every error the record is exactly what it was —
    /// but a `WriteProtect` failure can come after the redirection went
    /// live (see [`PatchOutcome::WriteProtectDenied`]), so an embedding
    /// must treat any error here as fatal rather than recovered.
    pub fn install_at(&mut self, entry_addr: usize, replacement: usize) -> (r: Result<
        usize,
        InstallError,
    >)
        requires
            old(self)@.wf(),
            entry_addr as int % (vstd::layout::size_of::<usize>() as int) == 0,
        ensures
            final(self)@.wf(),
            final(self)@.symbol == old(self)@.symbol,
            (r == Err::<usize, InstallError>(InstallError::AlreadyInstalled)) == old(
                self,
            )@.installed,
            r != Err::<usize, InstallError>(InstallError::NotFound),
            old(self)@.installed ==> final(self)@ == old(self)@,
            r matches Ok(t) ==> {
                &&& !old(self)@.installed
                &&& t != 0
                &&& final(self)@.installed
                &&& final(self)@.original == t
            },
            r is Err ==> final(self)@ == old(self)@,
    {
        if self.installed {
            return Err(InstallError::AlreadyInstalled);
        }
        match patch_plt_entry(entry_addr, replacement) {
            Ok(previous) => self.install(PatchOutcome::Patched { trampoline: previous }),
            Err(_) => self.install(PatchOutcome::WriteProtectDenied),
        }
    }

    /// The bootstrap decision taken on a resolution result: a miss reports
    /// `NotFound` and never installs, so the host runs unmodified; a hit
    /// records the platform's patch reply as one [`install_step`].
    pub fn install_resolved(&mut self, resolved: Option<usize>, outcome: PatchOutcome) -> (r:
        Result<usize, InstallError>)
        requires
            old(self)@.wf(),
        ensures
            final(self)@.wf(),
            match resolved {
                None => {
                    &&& r == Err::<usize, InstallError>(InstallError::NotFound)
                    &&& final(self)@ == old(self)@
                },
                Some(_) => (final(self)@, r) == install_step(old(self)@, outcome),
            },
    {
        match resolved {
            None => Err(InstallError::NotFound),
            Some(_) => self.install(outcome),
        }
    }

    /// The callable original, present exactly when installation succeeded.
    pub fn trampoline(&self) -> (r: Option<usize>)
        requires
            self@.wf(),
        ensures
            match r {
                Some(a) => self@.installed && a == self@.original && a != 0,
                None => !self@.installed,
            },
    {
        if self.installed {
            Some(self.original)
        } else {
            None
        }
    }
}

/// Every installation step keeps the record well-formed: an installed record
/// always carries a non-null callable original.
pub proof fn lemma_install_preserves_wf(s: HookStateV, o: PatchOutcome)
    requires
        s.wf(),
    ensures
        install_step(s, o).0.wf(),
{
}

/// Idempotent installation: once an installation step has succeeded, every
/// later step rejects with `AlreadyInstalled` and leaves the record exactly
/// as the first step left it — the process never carries two redirections
/// for one symbol.
pub proof fn lemma_install_idempotent(
    s: HookStateV,
    o1: PatchOutcome,
    o2: PatchOutcome,
)
    requires
        install_step(s, o1).1 is Ok,
    ensures
        ({
            let s1 = install_step(s, o1).0;
            &&& install_step(s1, o2).0 == s1
            &&& install_step(s1, o2).1 == Err::<usize, InstallError>(InstallError::AlreadyInstalled)
        }),
{
}

} // verus!
