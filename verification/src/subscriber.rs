//! Composition of the process-wide subscriber: the verbosity filter and the
//! one-shot installation guard.

use vstd::prelude::*;

verus! {

/// The verbosity filter used when the environment supplies no valid
/// directive: informational events for the application itself, debug for the
/// HTTP framework, trace for request-rejection diagnostics.
pub fn default_filter() -> (r: String)
    ensures
        r@ == "axum_otel_tempo=info,tower_http=debug,axum::rejection=trace"@,
{
    "axum_otel_tempo=info,tower_http=debug,axum::rejection=trace".to_owned()
}

/// Chooses the filter the subscriber is built with: the directive the
/// environment supplied, when it held one that parsed, else exactly the
/// documented default.
pub fn effective_filter(env_directive: Option<String>) -> (r: String)
    ensures
        env_directive is Some ==> r@ == env_directive->Some_0@,
        env_directive is None ==> r@
            == "axum_otel_tempo=info,tower_http=debug,axum::rejection=trace"@,
{
    match env_directive {
        Some(directive) => directive,
        None => default_filter(),
    }
}

/// Why installing the subscriber failed.
#[derive(Clone, Copy, Debug, PartialEq, Eq, Structural)]
pub enum InstallError {
    /// A global subscriber was installed before; a duplicate would hide a
    /// startup sequencing error, so it is surfaced, never silently ignored.
    AlreadyInstalled,
}

/// One-shot guard for the single global subscriber of the process.
pub struct SubscriberGuard {
    installed: bool,
}

impl SubscriberGuard {
    /// Whether the global subscriber has been installed.
    pub closed spec fn is_installed(&self) -> bool {
        self.installed
    }

    /// What one installation attempt does: it succeeds exactly when nothing
    /// was installed before, and afterwards a subscriber is installed either
    /// way.
    pub open spec fn install_outcome(
        pre: SubscriberGuard,
        post: SubscriberGuard,
        r: Result<(), InstallError>,
    ) -> bool {
        &&& r is Ok <==> !pre.is_installed()
        &&& r is Err ==> r->Err_0 is AlreadyInstalled
        &&& post.is_installed()
    }

    /// A fresh process: no subscriber installed yet.
    pub fn new() -> (r: SubscriberGuard)
        ensures
            !r.is_installed(),
    {
        SubscriberGuard { installed: false }
    }

    /// Claims the installation slot for the subscriber about to be set.
    pub fn install(&mut self) -> (r: Result<(), InstallError>)
        ensures
            Self::install_outcome(*old(self), *final(self), r),
    {
        if self.installed {
            Err(InstallError::AlreadyInstalled)
        } else {
            self.installed = true;
            Ok(())
        }
    }

    /// Installation is one-shot by design: after any attempt, a further
    /// attempt always fails, never silently succeeds.
    pub proof fn lemma_second_install_fails(
        s0: SubscriberGuard,
        s1: SubscriberGuard,
        s2: SubscriberGuard,
        r1: Result<(), InstallError>,
        r2: Result<(), InstallError>,
    )
        requires
            Self::install_outcome(s0, s1, r1),
            Self::install_outcome(s1, s2, r2),
        ensures
            r2 is Err,
            r2->Err_0 is AlreadyInstalled,
    {
    }
}

} // verus!
