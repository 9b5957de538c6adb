//! Project-wide gameplay intensity selector.
//!
//! Each game decides what each variant means; the engine just carries the
//! selection and keeps the vocabulary consistent across games.
use vstd::prelude::*;

verus! {

/// Recurring gameplay intensity theme: Normal / Insane / Ridiculous / Insiculous.
#[derive(Debug, Clone, Copy, PartialEq, Eq, Hash, Structural)]
pub enum ChaosMode {
    Normal,
    Insane,
    Ridiculous,
    Insiculous,
}

impl ChaosMode {
    /// True for `Insane` and for the combined `Insiculous`.
    pub open spec fn spec_is_insane(self) -> bool {
        self == ChaosMode::Insane || self == ChaosMode::Insiculous
    }

    /// True for `Ridiculous` and for the combined `Insiculous`.
    pub open spec fn spec_is_ridiculous(self) -> bool {
        self == ChaosMode::Ridiculous || self == ChaosMode::Insiculous
    }

    /// The mode's display name.
    pub open spec fn spec_label(self) -> Seq<char> {
        match self {
            ChaosMode::Normal => "Normal"@,
            ChaosMode::Insane => "Insane"@,
            ChaosMode::Ridiculous => "Ridiculous"@,
            ChaosMode::Insiculous => "Insiculous"@,
        }
    }

    /// Every mode, in order of rising chaos.
    pub const ALL: [ChaosMode; 4] = [
        ChaosMode::Normal,
        ChaosMode::Insane,
        ChaosMode::Ridiculous,
        ChaosMode::Insiculous,
    ];

    pub fn label(self) -> (r: &'static str)
        ensures
            r@ == self.spec_label(),
    {
        match self {
            ChaosMode::Normal => "Normal",
            ChaosMode::Insane => "Insane",
            ChaosMode::Ridiculous => "Ridiculous",
            ChaosMode::Insiculous => "Insiculous",
        }
    }

    pub fn is_insane(self) -> (r: bool)
        ensures
            r == self.spec_is_insane(),
    {
        matches!(self, ChaosMode::Insane | ChaosMode::Insiculous)
    }

    pub fn is_ridiculous(self) -> (r: bool)
        ensures
            r == self.spec_is_ridiculous(),
    {
        matches!(self, ChaosMode::Ridiculous | ChaosMode::Insiculous)
    }

    /// True only for `Insiculous` — the "both at once" combined mode.
    ///
    /// `is_insane()` and `is_ridiculous()` are both true in Insiculous as
    /// well, so games usually branch on those. Use this when a behavior
    /// should fire only in the combined mode.
    pub fn is_insiculous(self) -> (r: bool)
        ensures
            r == (self == ChaosMode::Insiculous),
    {
        matches!(self, ChaosMode::Insiculous)
    }
}

impl Default for ChaosMode {
    /// `Normal`.
    fn default() -> (r: Self)
        ensures
            r == ChaosMode::Normal,
    {
        ChaosMode::Normal
    }
}

/// The HUD banner a mode's default theme shows during gameplay: none for
/// Normal.
pub open spec fn spec_banner_text(mode: ChaosMode) -> Option<Seq<char>> {
    match mode {
        ChaosMode::Normal => None,
        ChaosMode::Insane => Some("!! INSANE !!"@),
        ChaosMode::Ridiculous => Some("~~ RIDICULOUS ~~"@),
        ChaosMode::Insiculous => Some(">>> INSICULOUS <<<"@),
    }
}

/// The HUD banner of a mode's default theme (`None` for Normal).
pub fn banner_text(mode: ChaosMode) -> (r: Option<&'static str>)
    ensures
        match r {
            Some(t) => spec_banner_text(mode) == Some(t@),
            None => spec_banner_text(mode) is None,
        },
{
    match mode {
        ChaosMode::Normal => None,
        ChaosMode::Insane => Some("!! INSANE !!"),
        ChaosMode::Ridiculous => Some("~~ RIDICULOUS ~~"),
        ChaosMode::Insiculous => Some(">>> INSICULOUS <<<"),
    }
}

/// Only Normal play shows no banner.
pub proof fn law_only_normal_has_no_banner(mode: ChaosMode)
    ensures
        spec_banner_text(mode) is None <==> mode == ChaosMode::Normal,
{
}

/// Insiculous is exactly "Insane and Ridiculous at once".
pub proof fn law_insiculous_is_both(mode: ChaosMode)
    ensures
        (mode == ChaosMode::Insiculous) <==> (mode.spec_is_insane() && mode.spec_is_ridiculous()),
        (mode == ChaosMode::Normal) <==> (!mode.spec_is_insane() && !mode.spec_is_ridiculous()),
{
}

/// Every mode has a non-empty label, and different modes have different
/// labels.
pub proof fn law_labels_distinct_and_nonempty(a: ChaosMode, b: ChaosMode)
    ensures
        a.spec_label().len() > 0,
        a != b ==> a.spec_label() != b.spec_label(),
{
    reveal_strlit("Normal");
    reveal_strlit("Insane");
    reveal_strlit("Ridiculous");
    reveal_strlit("Insiculous");
    if a != b {
        assert(a.spec_label().len() != b.spec_label().len() || a.spec_label()[0] != b.spec_label()[0]
            || a.spec_label()[2] != b.spec_label()[2]);
    }
}

} // verus!
