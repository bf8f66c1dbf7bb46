//! Skin identifiers and the plain configuration values of custom skins.
//!
//! A custom skin appears in the settings under the id `custom:<dir>`, where
//! `<dir>` is a filesystem-safe directory name. The archive handling around
//! these values lives outside the library.

use vstd::prelude::*;

use crate::strtools::str_starts_with;

verus! {

/// The settings id of a custom skin directory.
pub fn custom_skin_settings_id(id: &str) -> (r: String)
    ensures
        r@ == "custom:"@ + id@,
{
    let mut out = String::new();
    out.append("custom:");
    out.append(id);
    out
}

/// The directory name behind a custom-skin settings id, or `None` when the
/// id is not a custom one.
pub fn parse_custom_skin_settings_id<'a>(id: &'a str) -> (r: Option<&'a str>)
    ensures
        r is Some <==> (id@.len() >= "custom:"@.len() && id@.subrange(0, "custom:"@.len() as int)
            == "custom:"@),
        r is Some ==> r->0@ == id@.skip("custom:"@.len() as int),
{
    if !str_starts_with(id, "custom:") {
        return None;
    }
    let plen = "custom:".unicode_len();
    let ilen = id.unicode_len();
    let rest = id.substring_char(plen, ilen);
    proof {
        assert(rest@ =~= id@.skip("custom:"@.len() as int));
    }
    Some(rest)
}

/// A filesystem-safe skin directory name: one to 64 lowercase ASCII
/// letters, digits, underscores or dashes.
pub open spec fn spec_safe_id_char(c: char) -> bool {
    ('a' <= c <= 'z') || ('0' <= c <= '9') || c == '_' || c == '-'
}

/// Whether a skin directory name is filesystem-safe.
pub fn is_safe_id(id: &str) -> (r: bool)
    ensures
        r == (1 <= id@.len() <= 64 && (forall|i: int| 0 <= i < id@.len()
            ==> spec_safe_id_char(#[trigger] id@[i]))),
{
    let n = id.unicode_len();
    if n == 0 || n > 64 {
        return false;
    }
    let mut i: usize = 0;
    while i < n
        invariant
            0 <= i <= n,
            n == id@.len(),
            forall|j: int| 0 <= j < i ==> spec_safe_id_char(#[trigger] id@[j]),
        decreases n - i,
    {
        let c = id.get_char(i);
        let ok = ('a' <= c && c <= 'z') || ('0' <= c && c <= '9') || c == '_' || c == '-';
        if !ok {
            return false;
        }
        i += 1;
    }
    true
}

/// The chroma key color of a sprite skin.
#[derive(Debug, Clone, Copy, PartialEq, Eq, Structural)]
pub struct KeyColorV2 {
    pub r: u8,
    pub g: u8,
    pub b: u8,
}

/// The pet behavior configuration of a sprite skin.
#[derive(Debug)]
pub struct PetConfigV2 {
    pub hit_moods: Option<Vec<String>>,
    pub idle_variants: Option<Vec<String>>,
    pub idle_variant_every_ms: Option<u64>,
    pub idle_variant_duration_ms: Option<u64>,
    pub sleep_after_ms: Option<u64>,
    pub snore_after_ms: Option<u64>,
}

} // verus!
