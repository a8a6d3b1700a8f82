//! Privacy mode: when enabled, every remote (Freemium or Premium) AI call is
//! refused and only the local tier may be used. The mode is persisted as the
//! `privacy_mode` preference; the guard caches it so that a router call needs
//! no database round-trip.

use vstd::prelude::*;
use vstd::string::*;
use crate::error::CntrlError;
use crate::text::{concat_str, same_text};

verus! {

/// Preference key under which the mode is persisted.
pub const PREF_PRIVACY_MODE: &'static str = "privacy_mode";

/// The privacy-mode guard: the cached mode that every router call checks,
/// so that no call needs a database round-trip. The application shares one
/// guard between threads and persists each change of mode.
#[derive(Clone, Copy, Debug)]
pub struct PrivacyGuard {
    enabled: bool,
}

/// The message of the error that refuses a remote call at `tier`.
pub open spec fn privacy_block_message(tier: Seq<char>) -> Seq<char> {
    "Privacy mode is active — remote AI calls (tier: "@ + tier + ") are blocked"@
}

/// The answer to a call at `tier` when privacy mode is `privacy_enabled`:
/// a refusal that names the tier exactly when the mode is on and the tier
/// is not `"Local"`, success otherwise.
pub open spec fn privacy_answer(privacy_enabled: bool, tier: Seq<char>, r: Result<(), CntrlError>) -> bool {
    if privacy_enabled && tier != "Local"@ {
        r matches Err(e) && (e matches CntrlError::Ai(m) && m@ == privacy_block_message(tier))
    } else {
        r is Ok
    }
}

/// Whether a call at `tier` is allowed when privacy mode is `privacy_enabled`.
pub fn tier_allowed(privacy_enabled: bool, tier: &str) -> (r: Result<(), CntrlError>)
    ensures
        privacy_answer(privacy_enabled, tier@, r),
{
    if privacy_enabled && !same_text(tier, "Local") {
        let head = concat_str("Privacy mode is active — remote AI calls (tier: ", tier);
        Err(CntrlError::Ai(concat_str(head.as_str(), ") are blocked")))
    } else {
        Ok(())
    }
}

/// The stored text of a privacy-mode preference.
pub open spec fn preference_text(enabled: bool) -> Seq<char> {
    if enabled {
        "true"@
    } else {
        "false"@
    }
}

/// The text stored for the mode `enabled`.
pub fn preference_value(enabled: bool) -> (r: &'static str)
    ensures
        r@ == preference_text(enabled),
{
    if enabled {
        "true"
    } else {
        "false"
    }
}

/// The mode that a stored preference denotes: on exactly when the
/// preference exists and is `"true"`.
pub fn mode_from_preference(value: Option<&str>) -> (r: bool)
    ensures
        r == (match value {
            Some(v) => v@ == "true"@,
            None => false,
        }),
{
    match value {
        Some(v) => same_text(v, "true"),
        None => false,
    }
}

/// Storing a mode and reading it back gives the same mode.
pub proof fn lemma_preference_roundtrip(enabled: bool)
    ensures
        (preference_text(enabled) == "true"@) == enabled,
{
    reveal_strlit("true");
    reveal_strlit("false");
    if !enabled {
        assert(preference_text(enabled)[0] != "true"@[0]);
    }
}

impl PrivacyGuard {
    /// Whether privacy mode is on in this guard.
    pub closed spec fn mode(&self) -> bool {
        self.enabled
    }

    /// A guard whose mode starts as `enabled`.
    pub fn new(enabled: bool) -> (r: Self)
        ensures
            r.mode() == enabled,
    {
        PrivacyGuard { enabled }
    }

    /// A guard initialised from the stored `privacy_mode` preference: on
    /// exactly when the preference exists and is `"true"`.
    pub fn from_preference(value: Option<&str>) -> (r: Self)
        ensures
            r.mode() == (match value {
                Some(v) => v@ == "true"@,
                None => false,
            }),
    {
        Self::new(mode_from_preference(value))
    }

    /// Returns `true` if privacy mode is currently active.
    pub fn is_enabled(&self) -> (r: bool)
        ensures
            r == self.mode(),
    {
        self.enabled
    }

    /// Sets privacy mode to `enabled`; persisting it is the caller's part.
    pub fn set(&mut self, enabled: bool)
        ensures
            final(self).mode() == enabled,
    {
        self.enabled = enabled;
    }

    /// Turns privacy mode on.
    pub fn enable(&mut self)
        ensures
            final(self).mode(),
    {
        self.set(true);
    }

    /// Turns privacy mode off.
    pub fn disable(&mut self)
        ensures
            !final(self).mode(),
    {
        self.set(false);
    }

    /// Refuses a call at `tier` when privacy mode is active and `tier` is
    /// not `"Local"`, with an error that names the tier.
    pub fn check_tier(&self, tier: &str) -> (r: Result<(), CntrlError>)
        ensures
            privacy_answer(self.mode(), tier@, r),
    {
        tier_allowed(self.enabled, tier)
    }
}

/// With privacy mode on, every tier but `"Local"` is refused and `"Local"`
/// is allowed; with it off, every tier is allowed. Enabling then checking,
/// or disabling then checking, therefore gives these answers.
pub proof fn lemma_privacy_blocks_remote_tiers(g: PrivacyGuard, tier: Seq<char>, r: Result<(), CntrlError>)
    requires
        privacy_answer(g.mode(), tier, r),
    ensures
        tier == "Local"@ ==> r is Ok,
        !g.mode() ==> r is Ok,
        g.mode() && tier != "Local"@ ==> r is Err,
{
}

} // verus!
