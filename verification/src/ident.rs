//! The textual forms that cross the boundary: stored-image ids, gallery
//! credentials and public gallery tokens.

use crate::format::Extension;
use vstd::prelude::*;
use vstd::string::StrSliceExecFns;
use vstd::string::StringExecFns;

verus! {

/// Number of letters and digits in a stored image's name.
pub const STEM_LEN: usize = 10;

/// Length of a stored image's id: `e/`, the stem, a dot and the extension.
pub const ID_LEN: usize = 16;

pub open spec fn is_alpha(c: char) -> bool {
    ('a' <= c && c <= 'z') || ('A' <= c && c <= 'Z')
}

pub open spec fn is_alnum(c: char) -> bool {
    is_alpha(c) || ('0' <= c && c <= '9')
}

/// Printable ASCII other than the space.
pub open spec fn is_graphic(c: char) -> bool {
    '!' <= c && c <= '~'
}

pub open spec fn all_alnum(s: Seq<char>) -> bool {
    forall|i: int| 0 <= i < s.len() ==> is_alnum(#[trigger] s[i])
}

/// The id made of a stem and an extension: `e/<stem>.<ext>`.
pub open spec fn id_text(stem: Seq<char>, ext: Extension) -> Seq<char> {
    seq!['e', '/'] + stem + seq!['.'] + ext.text()
}

/// Ids of stored images: `e/`, ten ASCII letters or digits, a dot, and one
/// of `png`, `jpg`, `gif`; nothing before and nothing after.
pub open spec fn image_id(s: Seq<char>) -> bool {
    exists|stem: Seq<char>, ext: Extension|
        stem.len() == STEM_LEN && all_alnum(stem) && s == #[trigger] id_text(stem, ext)
}

fn alpha(c: char) -> (b: bool)
    ensures
        b == is_alpha(c),
{
    ('a' <= c && c <= 'z') || ('A' <= c && c <= 'Z')
}

fn alnum(c: char) -> (b: bool)
    ensures
        b == is_alnum(c),
{
    alpha(c) || ('0' <= c && c <= '9')
}

fn extension_of(s: &str) -> (r: Option<Extension>)
    requires
        s@.len() == ID_LEN,
    ensures
        match r {
            Some(ext) => s@.subrange(13, 16) == ext.text(),
            None => forall|ext: Extension| s@.subrange(13, 16) != ext.text(),
        },
{
    let a = s.get_char(13);
    let b = s.get_char(14);
    let c = s.get_char(15);
    let ghost tail = s@.subrange(13, 16);
    if a == 'p' && b == 'n' && c == 'g' {
        Some(Extension::Png)
    } else if a == 'j' && b == 'p' && c == 'g' {
        Some(Extension::Jpg)
    } else if a == 'g' && b == 'i' && c == 'f' {
        Some(Extension::Gif)
    } else {
        assert forall|ext: Extension| tail != ext.text() by {
            let t = ext.text();
            assert(t[0] != a || t[1] != b || t[2] != c);
        }
        None
    }
}

/// Whether `s` is the id of a stored image.
pub fn is_image_id(s: &str) -> (b: bool)
    ensures
        b == image_id(s@),
{
    if s.unicode_len() != ID_LEN {
        assert forall|stem: Seq<char>, ext: Extension| stem.len() == STEM_LEN implies s@
            != #[trigger] id_text(stem, ext) by {
            assert(id_text(stem, ext).len() == ID_LEN);
        }
        return false;
    }
    if s.get_char(0) != 'e' || s.get_char(1) != '/' || s.get_char(12) != '.' {
        assert forall|stem: Seq<char>, ext: Extension| stem.len() == STEM_LEN implies s@
            != #[trigger] id_text(stem, ext) by {
            let t = id_text(stem, ext);
            assert(t[0] == 'e' && t[1] == '/' && t[12] == '.');
        }
        return false;
    }
    let mut i: usize = 2;
    while i < 12
        invariant
            2 <= i <= 12,
            s@.len() == ID_LEN,
            forall|k: int| 2 <= k < i ==> is_alnum(#[trigger] s@[k]),
        decreases 12 - i,
    {
        if !alnum(s.get_char(i)) {
            assert forall|stem: Seq<char>, ext: Extension|
                stem.len() == STEM_LEN && all_alnum(stem) implies s@ != #[trigger] id_text(
                stem,
                ext,
            ) by {
                let t = id_text(stem, ext);
                assert(t[i as int] == stem[i - 2]);
            }
            return false;
        }
        i += 1;
    }
    let ghost stem = s@.subrange(2, 12);
    match extension_of(s) {
        Some(ext) => {
            assert(s@ =~= id_text(stem, ext));
            true
        },
        None => {
            assert forall|other: Seq<char>, ext: Extension| other.len() == STEM_LEN implies s@
                != #[trigger] id_text(other, ext) by {
                let t = id_text(other, ext);
                assert(t.subrange(13, 16) =~= ext.text());
            }
            false
        },
    }
}

/// Builds the id `e/<stem>.<ext>`.
pub fn make_id(stem: &str, ext: Extension) -> (id: String)
    ensures
        id@ == id_text(stem@, ext),
{
    proof {
        reveal_strlit("e/");
        reveal_strlit(".");
    }
    let mut id = String::from_str("e/");
    id.append(stem);
    id.append(".");
    id.append(ext.as_str());
    id
}

/// Names a gallery may have: an ASCII letter, then three to nine ASCII
/// letters or digits.
pub open spec fn gallery_name(name: Seq<char>) -> bool {
    &&& 4 <= name.len() <= 10
    &&& is_alpha(name[0])
    &&& all_alnum(name)
}

/// Passphrases a gallery may have: four to 99 characters, none a line feed.
pub open spec fn passphrase(pass: Seq<char>) -> bool {
    &&& 4 <= pass.len() <= 99
    &&& forall|i: int| 0 <= i < pass.len() ==> #[trigger] pass[i] != '\n'
}

/// `spec` is `name!passphrase` for an admissible name and passphrase.
pub open spec fn credentials(spec: Seq<char>, name: Seq<char>, pass: Seq<char>) -> bool {
    spec == name + seq!['!'] + pass && gallery_name(name) && passphrase(pass)
}

/// In `name!passphrase` the name ends at the first character that is no
/// letter or digit: that is the `!`, and what follows it is the passphrase.
proof fn name_ends_at_mark(spec: Seq<char>, name: Seq<char>, pass: Seq<char>, cut: int)
    requires
        credentials(spec, name, pass),
        0 <= cut <= spec.len(),
        forall|k: int| 0 <= k < cut ==> is_alnum(#[trigger] spec[k]),
        cut < spec.len() && cut <= 10 ==> !is_alnum(spec[cut]),
    ensures
        name.len() == cut,
        spec.len() == cut + 1 + pass.len(),
        spec[cut] == '!',
        spec[0] == name[0],
        forall|i: int| 0 <= i < pass.len() ==> #[trigger] pass[i] == spec[cut + 1 + i],
{
    let joined = name + seq!['!'] + pass;
    assert(joined.len() == name.len() + 1 + pass.len());
    assert(joined[name.len() as int] == '!');
    assert(!is_alnum('!'));
    if name.len() > cut {
        assert(joined[cut] == name[cut]);
    }
    assert(joined[0] == name[0]);
    assert forall|i: int| 0 <= i < pass.len() implies #[trigger] pass[i] == spec[cut + 1 + i] by {
        assert(joined[name.len() + 1 + i] == pass[i]);
    }
}

/// Splits `name!passphrase` into its two parts, where both are admissible.
/// The name holds no `!`, so there is at most one way to split.
pub fn parse_gallery_spec(spec: &str) -> (r: Option<(String, String)>)
    ensures
        match r {
            Some((name, pass)) => credentials(spec@, name@, pass@),
            None => forall|name: Seq<char>, pass: Seq<char>|
                !credentials(spec@, name, pass),
        },
{
    let len = spec.unicode_len();
    let mut cut: usize = 0;
    while cut < 11 && cut < len && alnum(spec.get_char(cut))
        invariant
            cut <= 11,
            cut <= len,
            len == spec@.len(),
            forall|k: int| 0 <= k < cut ==> is_alnum(#[trigger] spec@[k]),
        decreases 11 - cut,
    {
        cut += 1;
    }
    if cut < 4 || cut > 10 || cut >= len || spec.get_char(cut) != '!' || !alpha(spec.get_char(0))
        || len - cut - 1 < 4 || len - cut - 1 > 99 {
        assert forall|name: Seq<char>, pass: Seq<char>| !credentials(spec@, name, pass) by {
            if credentials(spec@, name, pass) {
                name_ends_at_mark(spec@, name, pass, cut as int);
            }
        }
        return None;
    }
    let mut at: usize = cut + 1;
    while at < len
        invariant
            cut + 1 <= at <= len,
            len == spec@.len(),
            forall|k: int| cut + 1 <= k < at ==> #[trigger] spec@[k] != '\n',
        decreases len - at,
    {
        if spec.get_char(at) == '\n' {
            assert forall|name: Seq<char>, pass: Seq<char>| !credentials(spec@, name, pass) by {
                if credentials(spec@, name, pass) {
                    name_ends_at_mark(spec@, name, pass, cut as int);
                    assert(pass[at - cut - 1] == spec@[at as int]);
                }
            }
            return None;
        }
        at += 1;
    }
    let name = String::from_str(spec.substring_char(0, cut));
    let pass = String::from_str(spec.substring_char(cut + 1, len));
    proof {
        assert(spec@ =~= name@ + seq!['!'] + pass@);
        assert forall|i: int| 0 <= i < pass@.len() implies #[trigger] pass@[i] != '\n' by {
            assert(pass@[i] == spec@[cut + 1 + i]);
        }
    }
    Some((name, pass))
}

/// Public tokens as they may be asked for: at most 32 characters, each of
/// them printable ASCII and no space.
pub open spec fn token_shape(token: Seq<char>) -> bool {
    token.len() <= 32 && forall|i: int| 0 <= i < token.len() ==> is_graphic(#[trigger] token[i])
}

/// Whether a string can be a gallery's public token at all.
pub fn is_gallery_token(token: &str) -> (b: bool)
    ensures
        b == token_shape(token@),
{
    let len = token.unicode_len();
    if len > 32 {
        return false;
    }
    let mut i: usize = 0;
    while i < len
        invariant
            i <= len,
            len == token@.len(),
            forall|k: int| 0 <= k < i ==> is_graphic(#[trigger] token@[k]),
        decreases len - i,
    {
        let c = token.get_char(i);
        if !('!' <= c && c <= '~') {
            return false;
        }
        i += 1;
    }
    true
}

} // verus!
