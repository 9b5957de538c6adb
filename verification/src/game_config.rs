//! Defaults of the game configuration fields that older config files may
//! lack.
use vstd::prelude::*;

verus! {

/// Vsync is on unless the config says otherwise.
pub fn default_vsync() -> (r: bool)
    ensures
        r,
{
    true
}

/// The locale a game starts in.
pub fn default_locale() -> (r: String)
    ensures
        r@ == "en"@,
{
    "en".to_string()
}

/// The directory of locale files, relative to the asset base.
pub fn default_locales_dir() -> (r: String)
    ensures
        r@ == "locales"@,
{
    "locales".to_string()
}

} // verus!
