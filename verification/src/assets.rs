//! Asset checks and configuration: validation of raw RGBA texture data
//! before any GPU work, the asset manager's configuration, and resolving
//! asset paths against a base directory.
use vstd::prelude::*;
use crate::text::{decimal, spec_decimal};

verus! {

/// Texture sampling filter.
#[derive(Debug, Clone, Copy, PartialEq, Eq, Structural)]
pub enum TextureFilter {
    /// Smooth (bilinear) sampling.
    Linear,
    /// Blocky (nearest-texel) sampling, for pixel art and tiles.
    Nearest,
}

/// Asset loading errors
#[derive(Debug)]
pub enum AssetError {
    /// A texture could not be loaded; the message comes from the renderer.
    Texture(String),
    NotFound(String),
    NotInitialized,
    InvalidData(String),
}

impl AssetError {
    /// The error's message, as it is displayed.
    pub open spec fn spec_message(&self) -> Seq<char> {
        match self {
            AssetError::Texture(s) => "Texture error: "@ + s@,
            AssetError::NotFound(s) => "Asset not found: "@ + s@,
            AssetError::NotInitialized => "Asset manager not initialized"@,
            AssetError::InvalidData(s) => "Invalid texture data: "@ + s@,
        }
    }

    /// The error's message, as it is displayed.
    pub fn message(&self) -> (r: String)
        ensures
            r@ == self.spec_message(),
    {
        match self {
            AssetError::Texture(s) => {
                let mut m = "Texture error: ".to_string();
                m.append(s.as_str());
                m
            },
            AssetError::NotFound(s) => {
                let mut m = "Asset not found: ".to_string();
                m.append(s.as_str());
                m
            },
            AssetError::NotInitialized => "Asset manager not initialized".to_string(),
            AssetError::InvalidData(s) => {
                let mut m = "Invalid texture data: ".to_string();
                m.append(s.as_str());
                m
            },
        }
    }
}

/// Byte length of `width`×`height` RGBA8 pixels.
pub open spec fn rgba_len(width: u32, height: u32) -> int {
    width * height * 4
}

/// `"texture dimensions must be non-zero (got <w>x<h>)"`.
pub open spec fn zero_dimensions_message(width: u32, height: u32) -> Seq<char> {
    "texture dimensions must be non-zero (got "@ + spec_decimal(width as nat) + "x"@
        + spec_decimal(height as nat) + ")"@
}

/// `"expected <n> bytes for <w>x<h> RGBA, got <len>"`.
pub open spec fn length_mismatch_message(width: u32, height: u32, len: usize) -> Seq<char> {
    "expected "@ + spec_decimal(rgba_len(width, height) as nat) + " bytes for "@ + spec_decimal(
        width as nat,
    ) + "x"@ + spec_decimal(height as nat) + " RGBA, got "@ + spec_decimal(len as nat)
}

/// Validate raw RGBA dimensions/length before any GPU work: both dimensions
/// must be non-zero and the data exactly `width * height * 4` bytes (a size
/// no buffer can have is a length mismatch). Never panics.
pub fn validate_rgba(width: u32, height: u32, len: usize) -> (r: Result<(), AssetError>)
    ensures
        (width == 0 || height == 0) ==> (r matches Err(AssetError::InvalidData(m)) && m@
            == zero_dimensions_message(width, height)),
        (width != 0 && height != 0 && len != rgba_len(width, height)) ==> (r matches Err(
            AssetError::InvalidData(m),
        ) && m@ == length_mismatch_message(width, height, len)),
        (width != 0 && height != 0 && len == rgba_len(width, height)) ==> r is Ok,
{
    if width == 0 || height == 0 {
        let mut m = "texture dimensions must be non-zero (got ".to_string();
        m.append(decimal(width as u128).as_str());
        m.append("x");
        m.append(decimal(height as u128).as_str());
        m.append(")");
        return Err(AssetError::InvalidData(m));
    }
    assert(width as u128 * height as u128 * 4 <= u128::MAX) by (nonlinear_arith)
        requires
            width <= u32::MAX,
            height <= u32::MAX,
    ;
    let expected: u128 = width as u128 * height as u128 * 4;
    if len as u128 != expected {
        let mut m = "expected ".to_string();
        m.append(decimal(expected).as_str());
        m.append(" bytes for ");
        m.append(decimal(width as u128).as_str());
        m.append("x");
        m.append(decimal(height as u128).as_str());
        m.append(" RGBA, got ");
        m.append(decimal(len as u128).as_str());
        return Err(AssetError::InvalidData(m));
    }
    Ok(())
}

/// Configuration for the asset manager
#[derive(Debug)]
pub struct AssetConfig {
    /// Base path for asset loading (relative to the executable)
    pub base_path: String,
    /// Whether to log asset loading operations
    pub log_loading: bool,
    /// Filter applied to textures loaded from files or bytes when the caller
    /// doesn't ask for a specific one.
    pub default_filter: TextureFilter,
}

impl Default for AssetConfig {
    /// Assets under `assets`, logged, linear filtering.
    fn default() -> (r: Self)
        ensures
            r.base_path@ == "assets"@,
            r.log_loading,
            r.default_filter == TextureFilter::Linear,
    {
        AssetConfig {
            base_path: "assets".to_string(),
            log_loading: true,
            default_filter: TextureFilter::Linear,
        }
    }
}

impl AssetConfig {
    /// The configuration the engine runs with for a game: the game's asset
    /// base path (falling back to the default `assets` directory) and its
    /// default texture filter.
    pub fn for_game(texture_filter: TextureFilter, asset_base_path: Option<String>) -> (r: Self)
        ensures
            r.default_filter == texture_filter,
            r.log_loading,
            match asset_base_path {
                Some(p) => r.base_path@ == p@,
                None => r.base_path@ == "assets"@,
            },
    {
        let mut config = AssetConfig::default();
        config.default_filter = texture_filter;
        if let Some(base_path) = asset_base_path {
            config.base_path = base_path;
        }
        config
    }
}

/// Whether a path is relative, as `Path::is_relative` decides it on this
/// platform.
pub uninterp spec fn path_is_relative(path: Seq<char>) -> bool;

/// `base` joined with `path`, as `Path::join` builds it on this platform.
pub uninterp spec fn path_join(base: Seq<char>, path: Seq<char>) -> Seq<char>;

/// `std::path::Path::is_relative` on a path given as text.
#[verifier::external_body]
fn is_relative(path: &str) -> (r: bool)
    ensures
        r == path_is_relative(path@),
{
    std::path::Path::new(path).is_relative()
}

/// `std::path::Path::join` on paths given as text, rendered back to text.
#[verifier::external_body]
pub(crate) fn join(base: &str, path: &str) -> (r: String)
    ensures
        r@ == path_join(base@, path@),
{
    std::path::Path::new(base).join(path).to_string_lossy().to_string()
}

/// `path` resolved against `base`: joined onto it when relative, itself
/// when absolute.
pub open spec fn spec_resolve(base: Seq<char>, path: Seq<char>) -> Seq<char> {
    if path_is_relative(path) {
        path_join(base, path)
    } else {
        path
    }
}

/// Resolve `path` against `base_path`: a relative path is joined onto the
/// base, an absolute path is kept as it is.
pub fn resolve_against(base_path: &str, path: &str) -> (r: String)
    ensures
        r@ == spec_resolve(base_path@, path@),
{
    if is_relative(path) {
        join(base_path, path)
    } else {
        path.to_string()
    }
}

/// Absolute paths ignore the base, so resolving is idempotent once the
/// result is absolute: resolving it again, against any base, gives it back.
pub proof fn law_resolve_keeps_absolute_paths(base: Seq<char>, other: Seq<char>, path: Seq<char>)
    ensures
        !path_is_relative(path) ==> spec_resolve(base, path) == path,
        !path_is_relative(spec_resolve(base, path)) ==> spec_resolve(other, spec_resolve(base, path))
            == spec_resolve(base, path),
{
}

} // verus!
