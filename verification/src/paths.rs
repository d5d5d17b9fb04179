//! Storage-path and lookup-URL construction.
//!
//! A local asset lives at `assets/<skins|cloaks>/<name>`, where the file name
//! is the requested username with the `.png` extension appended unless it is
//! already there. A remote asset is fetched from a fixed templated URL with
//! the username as its final path segment.

use vstd::prelude::*;

use crate::AssetKind;

verus! {

/// The image file extension appended during filename normalization.
pub open spec fn png_ext() -> Seq<char> {
    ".png"@
}

/// The local storage directory for an asset kind, trailing slash included.
pub open spec fn dir_of(kind: AssetKind) -> Seq<char> {
    match kind {
        AssetKind::Skin => "assets/skins/"@,
        AssetKind::Cloak => "assets/cloaks/"@,
    }
}

/// The fixed prefix of the remote texture-lookup URL.
pub open spec fn url_prefix() -> Seq<char> {
    "https://mc-heads.net/download/"@
}

/// `s` already ends in the image extension `.png`.
pub open spec fn has_png_extension(s: Seq<char>) -> bool {
    s.len() >= 4 && s.subrange(s.len() - 4, s.len() as int) == png_ext()
}

/// The file name an identifier is stored under: unchanged when it already
/// ends in `.png`, with `.png` appended otherwise.
pub open spec fn normalized_name(id: Seq<char>) -> Seq<char> {
    if has_png_extension(id) {
        id
    } else {
        id + png_ext()
    }
}

/// The storage path for an asset of `kind` named `id`.
pub open spec fn local_path_of(kind: AssetKind, id: Seq<char>) -> Seq<char> {
    dir_of(kind) + normalized_name(id)
}

/// The remote lookup URL for the username `id`, used verbatim as the final
/// path segment.
pub open spec fn remote_url_of(id: Seq<char>) -> Seq<char> {
    url_prefix() + id
}

/// Tests whether `s` ends in `.png`.
pub fn ends_with_png(s: &str) -> (r: bool)
    ensures
        r == has_png_extension(s@),
{
    proof {
        reveal_strlit(".png");
    }
    let n: usize = s.unicode_len();
    if n < 4 {
        return false;
    }
    let c0 = s.get_char(n - 4);
    let c1 = s.get_char(n - 3);
    let c2 = s.get_char(n - 2);
    let c3 = s.get_char(n - 1);
    let r = c0 == '.' && c1 == 'p' && c2 == 'n' && c3 == 'g';
    proof {
        let tail = s@.subrange(s@.len() - 4, s@.len() as int);
        if r {
            assert(tail =~= png_ext());
        } else if tail == png_ext() {
            assert(c0 == tail[0] && c1 == tail[1] && c2 == tail[2] && c3 == tail[3]);
        }
    }
    r
}

/// Builds the storage path `assets/<skins|cloaks>/<name>` for an asset of
/// `kind` requested under the (already validated) username `name`.
pub fn local_path(kind: AssetKind, name: &str) -> (r: String)
    ensures
        r@ == local_path_of(kind, name@),
{
    let mut p = match kind {
        AssetKind::Skin => "assets/skins/".to_owned(),
        AssetKind::Cloak => "assets/cloaks/".to_owned(),
    };
    p.append(name);
    if !ends_with_png(name) {
        p.append(".png");
    }
    p
}

/// Filename normalization is idempotent: a name that has been normalized
/// once is left unchanged by normalizing it again.
pub proof fn lemma_normalization_idempotent(id: Seq<char>)
    ensures
        normalized_name(normalized_name(id)) == normalized_name(id),
{
    reveal_strlit(".png");
    if !has_png_extension(id) {
        let n = id + png_ext();
        assert(n.subrange(n.len() - 4, n.len() as int) =~= png_ext());
    }
}

/// A bare username and the same username with `.png` already appended are
/// stored under the same path, for either asset kind.
pub proof fn lemma_same_path_with_extension(kind: AssetKind, id: Seq<char>)
    requires
        !has_png_extension(id),
    ensures
        local_path_of(kind, id + png_ext()) == local_path_of(kind, id),
{
    reveal_strlit(".png");
    let n = id + png_ext();
    assert(n.subrange(n.len() - 4, n.len() as int) =~= png_ext());
}

/// Builds the remote lookup URL for the username `name`.
pub fn remote_url(name: &str) -> (r: String)
    ensures
        r@ == remote_url_of(name@),
{
    let mut u = "https://mc-heads.net/download/".to_owned();
    u.append(name);
    u
}

} // verus!
