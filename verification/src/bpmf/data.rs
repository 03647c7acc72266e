//! The fixed lookup tables of the Pinyin orthography: the letter map
//! for initials and the two longest-match dictionaries of Pinyin
//! finals, one keyed with tone diacritics baked in and one without.
//! Each table is built afresh by its getter and never changes after.
use super::enums::{Init, Med, Rime};
use super::spell_tree::SpellTree;
use vstd::prelude::*;

verus! {

/// The Bopomofo initial written with the given single Pinyin letter,
/// if any; the letters of zh, ch and sh map to z, c and s here, and a
/// trailing h upgrades them during parsing.
pub open spec fn pinyin_letter_init(c: char) -> Option<Init> {
    if c == 'b' {
        Some(Init::Bo)
    } else if c == 'p' {
        Some(Init::Po)
    } else if c == 'm' {
        Some(Init::Mo)
    } else if c == 'f' {
        Some(Init::Fo)
    } else if c == 'd' {
        Some(Init::De)
    } else if c == 't' {
        Some(Init::Te)
    } else if c == 'n' {
        Some(Init::Ne)
    } else if c == 'l' {
        Some(Init::Le)
    } else if c == 'g' {
        Some(Init::Ge)
    } else if c == 'k' {
        Some(Init::Ke)
    } else if c == 'h' {
        Some(Init::He)
    } else if c == 'j' {
        Some(Init::Ji)
    } else if c == 'q' {
        Some(Init::Qi)
    } else if c == 'x' {
        Some(Init::Xi)
    } else if c == 'r' {
        Some(Init::Ri)
    } else if c == 'z' {
        Some(Init::Zi)
    } else if c == 'c' {
        Some(Init::Ci)
    } else if c == 's' {
        Some(Init::Si)
    } else {
        None
    }
}

/// The initial written with the given single Pinyin letter.
pub fn pinyin_letter_to_init(c: char) -> (r: Option<Init>)
    ensures
        r == pinyin_letter_init(c),
{
    match c {
        'b' => Some(Init::Bo),
        'p' => Some(Init::Po),
        'm' => Some(Init::Mo),
        'f' => Some(Init::Fo),
        'd' => Some(Init::De),
        't' => Some(Init::Te),
        'n' => Some(Init::Ne),
        'l' => Some(Init::Le),
        'g' => Some(Init::Ge),
        'k' => Some(Init::Ke),
        'h' => Some(Init::He),
        'j' => Some(Init::Ji),
        'q' => Some(Init::Qi),
        'x' => Some(Init::Xi),
        'r' => Some(Init::Ri),
        'z' => Some(Init::Zi),
        'c' => Some(Init::Ci),
        's' => Some(Init::Si),
        _ => None,
    }
}

/// The largest `m` not above `k` such that the first `m` characters of
/// the query are a prefix of a registered toned final.
pub open spec fn toned_depth_upto(u: Seq<char>, k: int) -> int
    decreases k,
{
    if k <= 0 {
        0
    } else if toned_rime_path(u.take(k)) {
        k
    } else {
        toned_depth_upto(u, k - 1)
    }
}

/// What the greedy longest-match lookup yields on the toned-final
/// dictionary: the meaning at the deepest reachable prefix, beside the
/// unconsumed rest of the query.
pub open spec fn toned_find(u: Seq<char>) -> Option<((Med, Rime, u8), Seq<char>)> {
    let d = toned_depth_upto(u, u.len() as int);
    match toned_rime_val(u.take(d)) {
        Some(v) => Some((v, u.skip(d))),
        None => None,
    }
}

/// The largest `m` not above `k` such that the first `m` characters of
/// the query are a prefix of a registered untoned final.
pub open spec fn untoned_depth_upto(u: Seq<char>, k: int) -> int
    decreases k,
{
    if k <= 0 {
        0
    } else if untoned_rime_path(u.take(k)) {
        k
    } else {
        untoned_depth_upto(u, k - 1)
    }
}

/// What the greedy longest-match lookup yields on the untoned-final
/// dictionary.
pub open spec fn untoned_find(u: Seq<char>) -> Option<((Med, Rime), Seq<char>)> {
    let d = untoned_depth_upto(u, u.len() as int);
    match untoned_rime_val(u.take(d)) {
        Some(v) => Some((v, u.skip(d))),
        None => None,
    }
}

/// The (medial, rime) meaning of an untoned Pinyin final, for exactly
/// the spellings the dictionary registers.
pub open spec fn untoned_rime_val(s: Seq<char>) -> Option<(Med, Rime)> {
    if s == "ün"@ {
        Some((Med::Yu, Rime::En))
    } else
    if s == "üan"@ {
        Some((Med::Yu, Rime::An))
    } else
    if s == "ue"@ {
        Some((Med::Yu, Rime::Eh))
    } else
    if s == "üe"@ {
        Some((Med::Yu, Rime::Eh))
    } else
    if s == "ü"@ {
        Some((Med::Yu, Rime::NoRime))
    } else
    if s == "iong"@ {
        Some((Med::Yu, Rime::Eng))
    } else
    if s == "vn"@ {
        Some((Med::Yu, Rime::En))
    } else
    if s == "van"@ {
        Some((Med::Yu, Rime::An))
    } else
    if s == "ve"@ {
        Some((Med::Yu, Rime::Eh))
    } else
    if s == "v"@ {
        Some((Med::Yu, Rime::NoRime))
    } else
    if s == "ong"@ {
        Some((Med::Wu, Rime::Eng))
    } else
    if s == "uang"@ {
        Some((Med::Wu, Rime::Ang))
    } else
    if s == "un"@ {
        Some((Med::Wu, Rime::En))
    } else
    if s == "uan"@ {
        Some((Med::Wu, Rime::An))
    } else
    if s == "uei"@ {
        Some((Med::Wu, Rime::Ei))
    } else
    if s == "ui"@ {
        Some((Med::Wu, Rime::Ei))
    } else
    if s == "uai"@ {
        Some((Med::Wu, Rime::Ai))
    } else
    if s == "uo"@ {
        Some((Med::Wu, Rime::O))
    } else
    if s == "ua"@ {
        Some((Med::Wu, Rime::A))
    } else
    if s == "u"@ {
        Some((Med::Wu, Rime::NoRime))
    } else
    if s == "ing"@ {
        Some((Med::Yi, Rime::Eng))
    } else
    if s == "iang"@ {
        Some((Med::Yi, Rime::Ang))
    } else
    if s == "in"@ {
        Some((Med::Yi, Rime::En))
    } else
    if s == "ian"@ {
        Some((Med::Yi, Rime::An))
    } else
    if s == "iou"@ {
        Some((Med::Yi, Rime::Ou))
    } else
    if s == "iu"@ {
        Some((Med::Yi, Rime::Ou))
    } else
    if s == "iao"@ {
        Some((Med::Yi, Rime::Ao))
    } else
    if s == "iai"@ {
        Some((Med::Yi, Rime::Ai))
    } else
    if s == "ie"@ {
        Some((Med::Yi, Rime::Eh))
    } else
    if s == "io"@ {
        Some((Med::Yi, Rime::O))
    } else
    if s == "ia"@ {
        Some((Med::Yi, Rime::A))
    } else
    if s == "i"@ {
        Some((Med::Yi, Rime::NoRime))
    } else
    if s == "eng"@ {
        Some((Med::NoMed, Rime::Eng))
    } else
    if s == "ang"@ {
        Some((Med::NoMed, Rime::Ang))
    } else
    if s == "en"@ {
        Some((Med::NoMed, Rime::En))
    } else
    if s == "an"@ {
        Some((Med::NoMed, Rime::An))
    } else
    if s == "ou"@ {
        Some((Med::NoMed, Rime::Ou))
    } else
    if s == "ao"@ {
        Some((Med::NoMed, Rime::Ao))
    } else
    if s == "er"@ {
        Some((Med::NoMed, Rime::Er))
    } else
    if s == "ei"@ {
        Some((Med::NoMed, Rime::Ei))
    } else
    if s == "ai"@ {
        Some((Med::NoMed, Rime::Ai))
    } else
    if s == "eh"@ {
        Some((Med::NoMed, Rime::Eh))
    } else
    if s == "ê"@ {
        Some((Med::NoMed, Rime::Eh))
    } else
    if s == "e"@ {
        Some((Med::NoMed, Rime::E))
    } else
    if s == "o"@ {
        Some((Med::NoMed, Rime::O))
    } else
    if s == "a"@ {
        Some((Med::NoMed, Rime::A))
    } else {
        None
    }
}

/// True when `p` is a prefix of some registered untoned final.
pub open spec fn untoned_rime_path(p: Seq<char>) -> bool {
    ||| p.len() == 0
    ||| p.is_prefix_of("a"@)
    ||| p.is_prefix_of("o"@)
    ||| p.is_prefix_of("e"@)
    ||| p.is_prefix_of("ê"@)
    ||| p.is_prefix_of("eh"@)
    ||| p.is_prefix_of("ai"@)
    ||| p.is_prefix_of("ei"@)
    ||| p.is_prefix_of("er"@)
    ||| p.is_prefix_of("ao"@)
    ||| p.is_prefix_of("ou"@)
    ||| p.is_prefix_of("an"@)
    ||| p.is_prefix_of("en"@)
    ||| p.is_prefix_of("ang"@)
    ||| p.is_prefix_of("eng"@)
    ||| p.is_prefix_of("i"@)
    ||| p.is_prefix_of("ia"@)
    ||| p.is_prefix_of("io"@)
    ||| p.is_prefix_of("ie"@)
    ||| p.is_prefix_of("iai"@)
    ||| p.is_prefix_of("iao"@)
    ||| p.is_prefix_of("iu"@)
    ||| p.is_prefix_of("iou"@)
    ||| p.is_prefix_of("ian"@)
    ||| p.is_prefix_of("in"@)
    ||| p.is_prefix_of("iang"@)
    ||| p.is_prefix_of("ing"@)
    ||| p.is_prefix_of("u"@)
    ||| p.is_prefix_of("ua"@)
    ||| p.is_prefix_of("uo"@)
    ||| p.is_prefix_of("uai"@)
    ||| p.is_prefix_of("ui"@)
    ||| p.is_prefix_of("uei"@)
    ||| p.is_prefix_of("uan"@)
    ||| p.is_prefix_of("un"@)
    ||| p.is_prefix_of("uang"@)
    ||| p.is_prefix_of("ong"@)
    ||| p.is_prefix_of("v"@)
    ||| p.is_prefix_of("ve"@)
    ||| p.is_prefix_of("van"@)
    ||| p.is_prefix_of("vn"@)
    ||| p.is_prefix_of("iong"@)
    ||| p.is_prefix_of("ü"@)
    ||| p.is_prefix_of("üe"@)
    ||| p.is_prefix_of("ue"@)
    ||| p.is_prefix_of("üan"@)
    ||| p.is_prefix_of("ün"@)
}

/// One stretch of the toned-final table (see [`toned_rime_val`]).
pub open spec fn toned_rime_val_one(s: Seq<char>) -> Option<(Med, Rime, u8)> {
    if s == "ei"@ {
        Some((Med::NoMed, Rime::Ei, 5u8))
    } else
    if s == "èi"@ {
        Some((Med::NoMed, Rime::Ei, 4u8))
    } else
    if s == "ěi"@ {
        Some((Med::NoMed, Rime::Ei, 3u8))
    } else
    if s == "éi"@ {
        Some((Med::NoMed, Rime::Ei, 2u8))
    } else
    if s == "ēi"@ {
        Some((Med::NoMed, Rime::Ei, 1u8))
    } else
    if s == "eh"@ {
        Some((Med::NoMed, Rime::Eh, 5u8))
    } else
    if s == "èh"@ {
        Some((Med::NoMed, Rime::Eh, 4u8))
    } else
    if s == "ěh"@ {
        Some((Med::NoMed, Rime::Eh, 3u8))
    } else
    if s == "éh"@ {
        Some((Med::NoMed, Rime::Eh, 2u8))
    } else
    if s == "ēh"@ {
        Some((Med::NoMed, Rime::Eh, 1u8))
    } else
    if s == "e"@ {
        Some((Med::NoMed, Rime::E, 5u8))
    } else
    if s == "è"@ {
        Some((Med::NoMed, Rime::E, 4u8))
    } else
    if s == "ě"@ {
        Some((Med::NoMed, Rime::E, 3u8))
    } else
    if s == "é"@ {
        Some((Med::NoMed, Rime::E, 2u8))
    } else
    if s == "ē"@ {
        Some((Med::NoMed, Rime::E, 1u8))
    } else
    if s == "ao"@ {
        Some((Med::NoMed, Rime::Ao, 5u8))
    } else
    if s == "ào"@ {
        Some((Med::NoMed, Rime::Ao, 4u8))
    } else
    if s == "ǎo"@ {
        Some((Med::NoMed, Rime::Ao, 3u8))
    } else
    if s == "áo"@ {
        Some((Med::NoMed, Rime::Ao, 2u8))
    } else
    if s == "āo"@ {
        Some((Med::NoMed, Rime::Ao, 1u8))
    } else
    if s == "ang"@ {
        Some((Med::NoMed, Rime::Ang, 5u8))
    } else
    if s == "àng"@ {
        Some((Med::NoMed, Rime::Ang, 4u8))
    } else
    if s == "ǎng"@ {
        Some((Med::NoMed, Rime::Ang, 3u8))
    } else
    if s == "áng"@ {
        Some((Med::NoMed, Rime::Ang, 2u8))
    } else
    if s == "āng"@ {
        Some((Med::NoMed, Rime::Ang, 1u8))
    } else
    if s == "an"@ {
        Some((Med::NoMed, Rime::An, 5u8))
    } else
    if s == "àn"@ {
        Some((Med::NoMed, Rime::An, 4u8))
    } else
    if s == "ǎn"@ {
        Some((Med::NoMed, Rime::An, 3u8))
    } else
    if s == "án"@ {
        Some((Med::NoMed, Rime::An, 2u8))
    } else
    if s == "ān"@ {
        Some((Med::NoMed, Rime::An, 1u8))
    } else
    if s == "ai"@ {
        Some((Med::NoMed, Rime::Ai, 5u8))
    } else
    if s == "ài"@ {
        Some((Med::NoMed, Rime::Ai, 4u8))
    } else
    if s == "ǎi"@ {
        Some((Med::NoMed, Rime::Ai, 3u8))
    } else
    if s == "ái"@ {
        Some((Med::NoMed, Rime::Ai, 2u8))
    } else
    if s == "āi"@ {
        Some((Med::NoMed, Rime::Ai, 1u8))
    } else
    if s == "a"@ {
        Some((Med::NoMed, Rime::A, 5u8))
    } else
    if s == "à"@ {
        Some((Med::NoMed, Rime::A, 4u8))
    } else
    if s == "ǎ"@ {
        Some((Med::NoMed, Rime::A, 3u8))
    } else
    if s == "á"@ {
        Some((Med::NoMed, Rime::A, 2u8))
    } else
    if s == "ā"@ {
        Some((Med::NoMed, Rime::A, 1u8))
    } else {
        None
    }
}

/// One stretch of the toned-final prefixes (see [`toned_rime_path`]).
pub open spec fn toned_rime_path_one(p: Seq<char>) -> bool {
    ||| p.len() == 0
    ||| p.is_prefix_of("ā"@)
    ||| p.is_prefix_of("á"@)
    ||| p.is_prefix_of("ǎ"@)
    ||| p.is_prefix_of("à"@)
    ||| p.is_prefix_of("a"@)
    ||| p.is_prefix_of("āi"@)
    ||| p.is_prefix_of("ái"@)
    ||| p.is_prefix_of("ǎi"@)
    ||| p.is_prefix_of("ài"@)
    ||| p.is_prefix_of("ai"@)
    ||| p.is_prefix_of("ān"@)
    ||| p.is_prefix_of("án"@)
    ||| p.is_prefix_of("ǎn"@)
    ||| p.is_prefix_of("àn"@)
    ||| p.is_prefix_of("an"@)
    ||| p.is_prefix_of("āng"@)
    ||| p.is_prefix_of("áng"@)
    ||| p.is_prefix_of("ǎng"@)
    ||| p.is_prefix_of("àng"@)
    ||| p.is_prefix_of("ang"@)
    ||| p.is_prefix_of("āo"@)
    ||| p.is_prefix_of("áo"@)
    ||| p.is_prefix_of("ǎo"@)
    ||| p.is_prefix_of("ào"@)
    ||| p.is_prefix_of("ao"@)
    ||| p.is_prefix_of("ē"@)
    ||| p.is_prefix_of("é"@)
    ||| p.is_prefix_of("ě"@)
    ||| p.is_prefix_of("è"@)
    ||| p.is_prefix_of("e"@)
    ||| p.is_prefix_of("ēh"@)
    ||| p.is_prefix_of("éh"@)
    ||| p.is_prefix_of("ěh"@)
    ||| p.is_prefix_of("èh"@)
    ||| p.is_prefix_of("eh"@)
    ||| p.is_prefix_of("ēi"@)
    ||| p.is_prefix_of("éi"@)
    ||| p.is_prefix_of("ěi"@)
    ||| p.is_prefix_of("èi"@)
    ||| p.is_prefix_of("ei"@)
}

/// One stretch of the toned-final table (see [`toned_rime_val`]).
pub open spec fn toned_rime_val_two(s: Seq<char>) -> Option<(Med, Rime, u8)> {
    if s == "ian"@ {
        Some((Med::Yi, Rime::An, 5u8))
    } else
    if s == "iàn"@ {
        Some((Med::Yi, Rime::An, 4u8))
    } else
    if s == "iǎn"@ {
        Some((Med::Yi, Rime::An, 3u8))
    } else
    if s == "ián"@ {
        Some((Med::Yi, Rime::An, 2u8))
    } else
    if s == "iān"@ {
        Some((Med::Yi, Rime::An, 1u8))
    } else
    if s == "ia"@ {
        Some((Med::Yi, Rime::A, 5u8))
    } else
    if s == "ià"@ {
        Some((Med::Yi, Rime::A, 4u8))
    } else
    if s == "iǎ"@ {
        Some((Med::Yi, Rime::A, 3u8))
    } else
    if s == "iá"@ {
        Some((Med::Yi, Rime::A, 2u8))
    } else
    if s == "iā"@ {
        Some((Med::Yi, Rime::A, 1u8))
    } else
    if s == "i"@ {
        Some((Med::Yi, Rime::NoRime, 5u8))
    } else
    if s == "ì"@ {
        Some((Med::Yi, Rime::NoRime, 4u8))
    } else
    if s == "ǐ"@ {
        Some((Med::Yi, Rime::NoRime, 3u8))
    } else
    if s == "í"@ {
        Some((Med::Yi, Rime::NoRime, 2u8))
    } else
    if s == "ī"@ {
        Some((Med::Yi, Rime::NoRime, 1u8))
    } else
    if s == "ou"@ {
        Some((Med::NoMed, Rime::Ou, 5u8))
    } else
    if s == "òu"@ {
        Some((Med::NoMed, Rime::Ou, 4u8))
    } else
    if s == "ǒu"@ {
        Some((Med::NoMed, Rime::Ou, 3u8))
    } else
    if s == "óu"@ {
        Some((Med::NoMed, Rime::Ou, 2u8))
    } else
    if s == "ōu"@ {
        Some((Med::NoMed, Rime::Ou, 1u8))
    } else
    if s == "o"@ {
        Some((Med::NoMed, Rime::O, 5u8))
    } else
    if s == "ò"@ {
        Some((Med::NoMed, Rime::O, 4u8))
    } else
    if s == "ǒ"@ {
        Some((Med::NoMed, Rime::O, 3u8))
    } else
    if s == "ó"@ {
        Some((Med::NoMed, Rime::O, 2u8))
    } else
    if s == "ō"@ {
        Some((Med::NoMed, Rime::O, 1u8))
    } else
    if s == "er"@ {
        Some((Med::NoMed, Rime::Er, 5u8))
    } else
    if s == "èr"@ {
        Some((Med::NoMed, Rime::Er, 4u8))
    } else
    if s == "ěr"@ {
        Some((Med::NoMed, Rime::Er, 3u8))
    } else
    if s == "ér"@ {
        Some((Med::NoMed, Rime::Er, 2u8))
    } else
    if s == "ēr"@ {
        Some((Med::NoMed, Rime::Er, 1u8))
    } else
    if s == "eng"@ {
        Some((Med::NoMed, Rime::Eng, 5u8))
    } else
    if s == "èng"@ {
        Some((Med::NoMed, Rime::Eng, 4u8))
    } else
    if s == "ěng"@ {
        Some((Med::NoMed, Rime::Eng, 3u8))
    } else
    if s == "éng"@ {
        Some((Med::NoMed, Rime::Eng, 2u8))
    } else
    if s == "ēng"@ {
        Some((Med::NoMed, Rime::Eng, 1u8))
    } else
    if s == "en"@ {
        Some((Med::NoMed, Rime::En, 5u8))
    } else
    if s == "èn"@ {
        Some((Med::NoMed, Rime::En, 4u8))
    } else
    if s == "ěn"@ {
        Some((Med::NoMed, Rime::En, 3u8))
    } else
    if s == "én"@ {
        Some((Med::NoMed, Rime::En, 2u8))
    } else
    if s == "ēn"@ {
        Some((Med::NoMed, Rime::En, 1u8))
    } else {
        toned_rime_val_one(s)
    }
}

/// One stretch of the toned-final prefixes (see [`toned_rime_path`]).
pub open spec fn toned_rime_path_two(p: Seq<char>) -> bool {
    ||| toned_rime_path_one(p)
    ||| p.is_prefix_of("ēn"@)
    ||| p.is_prefix_of("én"@)
    ||| p.is_prefix_of("ěn"@)
    ||| p.is_prefix_of("èn"@)
    ||| p.is_prefix_of("en"@)
    ||| p.is_prefix_of("ēng"@)
    ||| p.is_prefix_of("éng"@)
    ||| p.is_prefix_of("ěng"@)
    ||| p.is_prefix_of("èng"@)
    ||| p.is_prefix_of("eng"@)
    ||| p.is_prefix_of("ēr"@)
    ||| p.is_prefix_of("ér"@)
    ||| p.is_prefix_of("ěr"@)
    ||| p.is_prefix_of("èr"@)
    ||| p.is_prefix_of("er"@)
    ||| p.is_prefix_of("ō"@)
    ||| p.is_prefix_of("ó"@)
    ||| p.is_prefix_of("ǒ"@)
    ||| p.is_prefix_of("ò"@)
    ||| p.is_prefix_of("o"@)
    ||| p.is_prefix_of("ōu"@)
    ||| p.is_prefix_of("óu"@)
    ||| p.is_prefix_of("ǒu"@)
    ||| p.is_prefix_of("òu"@)
    ||| p.is_prefix_of("ou"@)
    ||| p.is_prefix_of("ī"@)
    ||| p.is_prefix_of("í"@)
    ||| p.is_prefix_of("ǐ"@)
    ||| p.is_prefix_of("ì"@)
    ||| p.is_prefix_of("i"@)
    ||| p.is_prefix_of("iā"@)
    ||| p.is_prefix_of("iá"@)
    ||| p.is_prefix_of("iǎ"@)
    ||| p.is_prefix_of("ià"@)
    ||| p.is_prefix_of("ia"@)
    ||| p.is_prefix_of("iān"@)
    ||| p.is_prefix_of("ián"@)
    ||| p.is_prefix_of("iǎn"@)
    ||| p.is_prefix_of("iàn"@)
    ||| p.is_prefix_of("ian"@)
}

/// One stretch of the toned-final table (see [`toned_rime_val`]).
pub open spec fn toned_rime_val_three(s: Seq<char>) -> Option<(Med, Rime, u8)> {
    if s == "u"@ {
        Some((Med::Wu, Rime::NoRime, 5u8))
    } else
    if s == "ù"@ {
        Some((Med::Wu, Rime::NoRime, 4u8))
    } else
    if s == "ǔ"@ {
        Some((Med::Wu, Rime::NoRime, 3u8))
    } else
    if s == "ú"@ {
        Some((Med::Wu, Rime::NoRime, 2u8))
    } else
    if s == "ū"@ {
        Some((Med::Wu, Rime::NoRime, 1u8))
    } else
    if s == "iou"@ {
        Some((Med::Yi, Rime::Ou, 5u8))
    } else
    if s == "iu"@ {
        Some((Med::Yi, Rime::Ou, 5u8))
    } else
    if s == "iòu"@ {
        Some((Med::Yi, Rime::Ou, 4u8))
    } else
    if s == "iù"@ {
        Some((Med::Yi, Rime::Ou, 4u8))
    } else
    if s == "iǒu"@ {
        Some((Med::Yi, Rime::Ou, 3u8))
    } else
    if s == "iǔ"@ {
        Some((Med::Yi, Rime::Ou, 3u8))
    } else
    if s == "ióu"@ {
        Some((Med::Yi, Rime::Ou, 2u8))
    } else
    if s == "iú"@ {
        Some((Med::Yi, Rime::Ou, 2u8))
    } else
    if s == "iōu"@ {
        Some((Med::Yi, Rime::Ou, 1u8))
    } else
    if s == "iū"@ {
        Some((Med::Yi, Rime::Ou, 1u8))
    } else
    if s == "ing"@ {
        Some((Med::Yi, Rime::Eng, 5u8))
    } else
    if s == "ìng"@ {
        Some((Med::Yi, Rime::Eng, 4u8))
    } else
    if s == "ǐng"@ {
        Some((Med::Yi, Rime::Eng, 3u8))
    } else
    if s == "íng"@ {
        Some((Med::Yi, Rime::Eng, 2u8))
    } else
    if s == "īng"@ {
        Some((Med::Yi, Rime::Eng, 1u8))
    } else
    if s == "in"@ {
        Some((Med::Yi, Rime::En, 5u8))
    } else
    if s == "ìn"@ {
        Some((Med::Yi, Rime::En, 4u8))
    } else
    if s == "ǐn"@ {
        Some((Med::Yi, Rime::En, 3u8))
    } else
    if s == "ín"@ {
        Some((Med::Yi, Rime::En, 2u8))
    } else
    if s == "īn"@ {
        Some((Med::Yi, Rime::En, 1u8))
    } else
    if s == "ie"@ {
        Some((Med::Yi, Rime::Eh, 5u8))
    } else
    if s == "iè"@ {
        Some((Med::Yi, Rime::Eh, 4u8))
    } else
    if s == "iě"@ {
        Some((Med::Yi, Rime::Eh, 3u8))
    } else
    if s == "ié"@ {
        Some((Med::Yi, Rime::Eh, 2u8))
    } else
    if s == "iē"@ {
        Some((Med::Yi, Rime::Eh, 1u8))
    } else
    if s == "iao"@ {
        Some((Med::Yi, Rime::Ao, 5u8))
    } else
    if s == "iào"@ {
        Some((Med::Yi, Rime::Ao, 4u8))
    } else
    if s == "iǎo"@ {
        Some((Med::Yi, Rime::Ao, 3u8))
    } else
    if s == "iáo"@ {
        Some((Med::Yi, Rime::Ao, 2u8))
    } else
    if s == "iāo"@ {
        Some((Med::Yi, Rime::Ao, 1u8))
    } else
    if s == "iang"@ {
        Some((Med::Yi, Rime::Ang, 5u8))
    } else
    if s == "iàng"@ {
        Some((Med::Yi, Rime::Ang, 4u8))
    } else
    if s == "iǎng"@ {
        Some((Med::Yi, Rime::Ang, 3u8))
    } else
    if s == "iáng"@ {
        Some((Med::Yi, Rime::Ang, 2u8))
    } else
    if s == "iāng"@ {
        Some((Med::Yi, Rime::Ang, 1u8))
    } else {
        toned_rime_val_two(s)
    }
}

/// One stretch of the toned-final prefixes (see [`toned_rime_path`]).
pub open spec fn toned_rime_path_three(p: Seq<char>) -> bool {
    ||| toned_rime_path_two(p)
    ||| p.is_prefix_of("iāng"@)
    ||| p.is_prefix_of("iáng"@)
    ||| p.is_prefix_of("iǎng"@)
    ||| p.is_prefix_of("iàng"@)
    ||| p.is_prefix_of("iang"@)
    ||| p.is_prefix_of("iāo"@)
    ||| p.is_prefix_of("iáo"@)
    ||| p.is_prefix_of("iǎo"@)
    ||| p.is_prefix_of("iào"@)
    ||| p.is_prefix_of("iao"@)
    ||| p.is_prefix_of("iē"@)
    ||| p.is_prefix_of("ié"@)
    ||| p.is_prefix_of("iě"@)
    ||| p.is_prefix_of("iè"@)
    ||| p.is_prefix_of("ie"@)
    ||| p.is_prefix_of("īn"@)
    ||| p.is_prefix_of("ín"@)
    ||| p.is_prefix_of("ǐn"@)
    ||| p.is_prefix_of("ìn"@)
    ||| p.is_prefix_of("in"@)
    ||| p.is_prefix_of("īng"@)
    ||| p.is_prefix_of("íng"@)
    ||| p.is_prefix_of("ǐng"@)
    ||| p.is_prefix_of("ìng"@)
    ||| p.is_prefix_of("ing"@)
    ||| p.is_prefix_of("iū"@)
    ||| p.is_prefix_of("iōu"@)
    ||| p.is_prefix_of("iú"@)
    ||| p.is_prefix_of("ióu"@)
    ||| p.is_prefix_of("iǔ"@)
    ||| p.is_prefix_of("iǒu"@)
    ||| p.is_prefix_of("iù"@)
    ||| p.is_prefix_of("iòu"@)
    ||| p.is_prefix_of("iu"@)
    ||| p.is_prefix_of("iou"@)
    ||| p.is_prefix_of("ū"@)
    ||| p.is_prefix_of("ú"@)
    ||| p.is_prefix_of("ǔ"@)
    ||| p.is_prefix_of("ù"@)
    ||| p.is_prefix_of("u"@)
}

/// One stretch of the toned-final table (see [`toned_rime_val`]).
pub open spec fn toned_rime_val_four(s: Seq<char>) -> Option<(Med, Rime, u8)> {
    if s == "ong"@ {
        Some((Med::Wu, Rime::Eng, 5u8))
    } else
    if s == "òng"@ {
        Some((Med::Wu, Rime::Eng, 4u8))
    } else
    if s == "ǒng"@ {
        Some((Med::Wu, Rime::Eng, 3u8))
    } else
    if s == "óng"@ {
        Some((Med::Wu, Rime::Eng, 2u8))
    } else
    if s == "ōng"@ {
        Some((Med::Wu, Rime::Eng, 1u8))
    } else
    if s == "un"@ {
        Some((Med::Wu, Rime::En, 5u8))
    } else
    if s == "ùn"@ {
        Some((Med::Wu, Rime::En, 4u8))
    } else
    if s == "ǔn"@ {
        Some((Med::Wu, Rime::En, 3u8))
    } else
    if s == "ún"@ {
        Some((Med::Wu, Rime::En, 2u8))
    } else
    if s == "ūn"@ {
        Some((Med::Wu, Rime::En, 1u8))
    } else
    if s == "uei"@ {
        Some((Med::Wu, Rime::Ei, 5u8))
    } else
    if s == "ui"@ {
        Some((Med::Wu, Rime::Ei, 5u8))
    } else
    if s == "uèi"@ {
        Some((Med::Wu, Rime::Ei, 4u8))
    } else
    if s == "uì"@ {
        Some((Med::Wu, Rime::Ei, 4u8))
    } else
    if s == "uěi"@ {
        Some((Med::Wu, Rime::Ei, 3u8))
    } else
    if s == "uǐ"@ {
        Some((Med::Wu, Rime::Ei, 3u8))
    } else
    if s == "uéi"@ {
        Some((Med::Wu, Rime::Ei, 2u8))
    } else
    if s == "uí"@ {
        Some((Med::Wu, Rime::Ei, 2u8))
    } else
    if s == "uēi"@ {
        Some((Med::Wu, Rime::Ei, 1u8))
    } else
    if s == "uī"@ {
        Some((Med::Wu, Rime::Ei, 1u8))
    } else
    if s == "uang"@ {
        Some((Med::Wu, Rime::Ang, 5u8))
    } else
    if s == "uàng"@ {
        Some((Med::Wu, Rime::Ang, 4u8))
    } else
    if s == "uǎng"@ {
        Some((Med::Wu, Rime::Ang, 3u8))
    } else
    if s == "uáng"@ {
        Some((Med::Wu, Rime::Ang, 2u8))
    } else
    if s == "uāng"@ {
        Some((Med::Wu, Rime::Ang, 1u8))
    } else
    if s == "uan"@ {
        Some((Med::Wu, Rime::An, 5u8))
    } else
    if s == "uàn"@ {
        Some((Med::Wu, Rime::An, 4u8))
    } else
    if s == "uǎn"@ {
        Some((Med::Wu, Rime::An, 3u8))
    } else
    if s == "uán"@ {
        Some((Med::Wu, Rime::An, 2u8))
    } else
    if s == "uān"@ {
        Some((Med::Wu, Rime::An, 1u8))
    } else
    if s == "uai"@ {
        Some((Med::Wu, Rime::Ai, 5u8))
    } else
    if s == "uài"@ {
        Some((Med::Wu, Rime::Ai, 4u8))
    } else
    if s == "uǎi"@ {
        Some((Med::Wu, Rime::Ai, 3u8))
    } else
    if s == "uái"@ {
        Some((Med::Wu, Rime::Ai, 2u8))
    } else
    if s == "uāi"@ {
        Some((Med::Wu, Rime::Ai, 1u8))
    } else
    if s == "ua"@ {
        Some((Med::Wu, Rime::A, 5u8))
    } else
    if s == "uà"@ {
        Some((Med::Wu, Rime::A, 4u8))
    } else
    if s == "uǎ"@ {
        Some((Med::Wu, Rime::A, 3u8))
    } else
    if s == "uá"@ {
        Some((Med::Wu, Rime::A, 2u8))
    } else
    if s == "uā"@ {
        Some((Med::Wu, Rime::A, 1u8))
    } else {
        toned_rime_val_three(s)
    }
}

/// One stretch of the toned-final prefixes (see [`toned_rime_path`]).
pub open spec fn toned_rime_path_four(p: Seq<char>) -> bool {
    ||| toned_rime_path_three(p)
    ||| p.is_prefix_of("uā"@)
    ||| p.is_prefix_of("uá"@)
    ||| p.is_prefix_of("uǎ"@)
    ||| p.is_prefix_of("uà"@)
    ||| p.is_prefix_of("ua"@)
    ||| p.is_prefix_of("uāi"@)
    ||| p.is_prefix_of("uái"@)
    ||| p.is_prefix_of("uǎi"@)
    ||| p.is_prefix_of("uài"@)
    ||| p.is_prefix_of("uai"@)
    ||| p.is_prefix_of("uān"@)
    ||| p.is_prefix_of("uán"@)
    ||| p.is_prefix_of("uǎn"@)
    ||| p.is_prefix_of("uàn"@)
    ||| p.is_prefix_of("uan"@)
    ||| p.is_prefix_of("uāng"@)
    ||| p.is_prefix_of("uáng"@)
    ||| p.is_prefix_of("uǎng"@)
    ||| p.is_prefix_of("uàng"@)
    ||| p.is_prefix_of("uang"@)
    ||| p.is_prefix_of("uī"@)
    ||| p.is_prefix_of("uēi"@)
    ||| p.is_prefix_of("uí"@)
    ||| p.is_prefix_of("uéi"@)
    ||| p.is_prefix_of("uǐ"@)
    ||| p.is_prefix_of("uěi"@)
    ||| p.is_prefix_of("uì"@)
    ||| p.is_prefix_of("uèi"@)
    ||| p.is_prefix_of("ui"@)
    ||| p.is_prefix_of("uei"@)
    ||| p.is_prefix_of("ūn"@)
    ||| p.is_prefix_of("ún"@)
    ||| p.is_prefix_of("ǔn"@)
    ||| p.is_prefix_of("ùn"@)
    ||| p.is_prefix_of("un"@)
    ||| p.is_prefix_of("ōng"@)
    ||| p.is_prefix_of("óng"@)
    ||| p.is_prefix_of("ǒng"@)
    ||| p.is_prefix_of("òng"@)
    ||| p.is_prefix_of("ong"@)
}

/// One stretch of the toned-final table (see [`toned_rime_val`]).
pub open spec fn toned_rime_val_five(s: Seq<char>) -> Option<(Med, Rime, u8)> {
    if s == "iong"@ {
        Some((Med::Yu, Rime::Eng, 5u8))
    } else
    if s == "iòng"@ {
        Some((Med::Yu, Rime::Eng, 4u8))
    } else
    if s == "iǒng"@ {
        Some((Med::Yu, Rime::Eng, 3u8))
    } else
    if s == "ióng"@ {
        Some((Med::Yu, Rime::Eng, 2u8))
    } else
    if s == "iōng"@ {
        Some((Med::Yu, Rime::Eng, 1u8))
    } else
    if s == "üe"@ {
        Some((Med::Yu, Rime::Eh, 5u8))
    } else
    if s == "ue"@ {
        Some((Med::Yu, Rime::Eh, 5u8))
    } else
    if s == "üè"@ {
        Some((Med::Yu, Rime::Eh, 4u8))
    } else
    if s == "uè"@ {
        Some((Med::Yu, Rime::Eh, 4u8))
    } else
    if s == "üě"@ {
        Some((Med::Yu, Rime::Eh, 3u8))
    } else
    if s == "uě"@ {
        Some((Med::Yu, Rime::Eh, 3u8))
    } else
    if s == "üé"@ {
        Some((Med::Yu, Rime::Eh, 2u8))
    } else
    if s == "ué"@ {
        Some((Med::Yu, Rime::Eh, 2u8))
    } else
    if s == "üē"@ {
        Some((Med::Yu, Rime::Eh, 1u8))
    } else
    if s == "uē"@ {
        Some((Med::Yu, Rime::Eh, 1u8))
    } else
    if s == "üan"@ {
        Some((Med::Yu, Rime::An, 5u8))
    } else
    if s == "üàn"@ {
        Some((Med::Yu, Rime::An, 4u8))
    } else
    if s == "üǎn"@ {
        Some((Med::Yu, Rime::An, 3u8))
    } else
    if s == "üán"@ {
        Some((Med::Yu, Rime::An, 2u8))
    } else
    if s == "üān"@ {
        Some((Med::Yu, Rime::An, 1u8))
    } else
    if s == "ü"@ {
        Some((Med::Yu, Rime::NoRime, 5u8))
    } else
    if s == "ǜ"@ {
        Some((Med::Yu, Rime::NoRime, 4u8))
    } else
    if s == "ǚ"@ {
        Some((Med::Yu, Rime::NoRime, 3u8))
    } else
    if s == "ǘ"@ {
        Some((Med::Yu, Rime::NoRime, 2u8))
    } else
    if s == "ǖ"@ {
        Some((Med::Yu, Rime::NoRime, 1u8))
    } else
    if s == "uo"@ {
        Some((Med::Wu, Rime::O, 5u8))
    } else
    if s == "uò"@ {
        Some((Med::Wu, Rime::O, 4u8))
    } else
    if s == "uǒ"@ {
        Some((Med::Wu, Rime::O, 3u8))
    } else
    if s == "uó"@ {
        Some((Med::Wu, Rime::O, 2u8))
    } else
    if s == "uō"@ {
        Some((Med::Wu, Rime::O, 1u8))
    } else {
        toned_rime_val_four(s)
    }
}

/// One stretch of the toned-final prefixes (see [`toned_rime_path`]).
pub open spec fn toned_rime_path_five(p: Seq<char>) -> bool {
    ||| toned_rime_path_four(p)
    ||| p.is_prefix_of("uō"@)
    ||| p.is_prefix_of("uó"@)
    ||| p.is_prefix_of("uǒ"@)
    ||| p.is_prefix_of("uò"@)
    ||| p.is_prefix_of("uo"@)
    ||| p.is_prefix_of("ǖ"@)
    ||| p.is_prefix_of("ǘ"@)
    ||| p.is_prefix_of("ǚ"@)
    ||| p.is_prefix_of("ǜ"@)
    ||| p.is_prefix_of("ü"@)
    ||| p.is_prefix_of("üān"@)
    ||| p.is_prefix_of("üán"@)
    ||| p.is_prefix_of("üǎn"@)
    ||| p.is_prefix_of("üàn"@)
    ||| p.is_prefix_of("üan"@)
    ||| p.is_prefix_of("uē"@)
    ||| p.is_prefix_of("üē"@)
    ||| p.is_prefix_of("ué"@)
    ||| p.is_prefix_of("üé"@)
    ||| p.is_prefix_of("uě"@)
    ||| p.is_prefix_of("üě"@)
    ||| p.is_prefix_of("uè"@)
    ||| p.is_prefix_of("üè"@)
    ||| p.is_prefix_of("ue"@)
    ||| p.is_prefix_of("üe"@)
    ||| p.is_prefix_of("iōng"@)
    ||| p.is_prefix_of("ióng"@)
    ||| p.is_prefix_of("iǒng"@)
    ||| p.is_prefix_of("iòng"@)
    ||| p.is_prefix_of("iong"@)
}

/// The (medial, rime, tone) meaning of a toned Pinyin final, for
/// exactly the spellings the dictionary registers.
pub open spec fn toned_rime_val(s: Seq<char>) -> Option<(Med, Rime, u8)> {
    toned_rime_val_five(s)
}

/// True when `p` is a prefix of some registered toned final.
pub open spec fn toned_rime_path(p: Seq<char>) -> bool {
    toned_rime_path_five(p)
}

/// Builds the dictionary of untoned Pinyin finals: medial and rime are
/// keyed by the bare letters, `v` standing in for the letter ü.
#[verifier::rlimit(100)]
pub fn get_pinyin_untoned_rime_tree() -> (r: SpellTree<(Med, Rime)>)
    ensures
        r.wf(),
        forall|s: Seq<char>| #[trigger] r.val_at(s) == untoned_rime_val(s),
        forall|p: Seq<char>| #[trigger] r.has_path(p) <==> untoned_rime_path(p),
{
    let mut t: SpellTree<(Med, Rime)> = SpellTree::new();
    t.insert("a", (Med::NoMed, Rime::A));
    t.insert("o", (Med::NoMed, Rime::O));
    t.insert("e", (Med::NoMed, Rime::E));
    t.insert("ê", (Med::NoMed, Rime::Eh));
    t.insert("eh", (Med::NoMed, Rime::Eh));
    t.insert("ai", (Med::NoMed, Rime::Ai));
    t.insert("ei", (Med::NoMed, Rime::Ei));
    t.insert("er", (Med::NoMed, Rime::Er));
    t.insert("ao", (Med::NoMed, Rime::Ao));
    t.insert("ou", (Med::NoMed, Rime::Ou));
    t.insert("an", (Med::NoMed, Rime::An));
    t.insert("en", (Med::NoMed, Rime::En));
    t.insert("ang", (Med::NoMed, Rime::Ang));
    t.insert("eng", (Med::NoMed, Rime::Eng));
    t.insert("i", (Med::Yi, Rime::NoRime));
    t.insert("ia", (Med::Yi, Rime::A));
    t.insert("io", (Med::Yi, Rime::O));
    t.insert("ie", (Med::Yi, Rime::Eh));
    t.insert("iai", (Med::Yi, Rime::Ai));
    t.insert("iao", (Med::Yi, Rime::Ao));
    t.insert("iu", (Med::Yi, Rime::Ou));
    t.insert("iou", (Med::Yi, Rime::Ou));
    t.insert("ian", (Med::Yi, Rime::An));
    t.insert("in", (Med::Yi, Rime::En));
    t.insert("iang", (Med::Yi, Rime::Ang));
    t.insert("ing", (Med::Yi, Rime::Eng));
    t.insert("u", (Med::Wu, Rime::NoRime));
    t.insert("ua", (Med::Wu, Rime::A));
    t.insert("uo", (Med::Wu, Rime::O));
    t.insert("uai", (Med::Wu, Rime::Ai));
    t.insert("ui", (Med::Wu, Rime::Ei));
    t.insert("uei", (Med::Wu, Rime::Ei));
    t.insert("uan", (Med::Wu, Rime::An));
    t.insert("un", (Med::Wu, Rime::En));
    t.insert("uang", (Med::Wu, Rime::Ang));
    t.insert("ong", (Med::Wu, Rime::Eng));
    t.insert("v", (Med::Yu, Rime::NoRime));
    t.insert("ve", (Med::Yu, Rime::Eh));
    t.insert("van", (Med::Yu, Rime::An));
    t.insert("vn", (Med::Yu, Rime::En));
    t.insert("iong", (Med::Yu, Rime::Eng));
    t.insert("ü", (Med::Yu, Rime::NoRime));
    t.insert("üe", (Med::Yu, Rime::Eh));
    t.insert("ue", (Med::Yu, Rime::Eh));
    t.insert("üan", (Med::Yu, Rime::An));
    t.insert("ün", (Med::Yu, Rime::En));
    t
}

/// Builds the dictionary of toned Pinyin finals: each spelling carries
/// its tone diacritic (or none, for the neutral tone) and maps to
/// medial, rime and tone code.
#[verifier::rlimit(100)]
pub fn get_pinyin_toned_rime_tree() -> (r: SpellTree<(Med, Rime, u8)>)
    ensures
        r.wf(),
        forall|s: Seq<char>| #[trigger] r.val_at(s) == toned_rime_val(s),
        forall|p: Seq<char>| #[trigger] r.has_path(p) <==> toned_rime_path(p),
{
    let mut t: SpellTree<(Med, Rime, u8)> = SpellTree::new();
    t.insert("ā", (Med::NoMed, Rime::A, 1));
    t.insert("á", (Med::NoMed, Rime::A, 2));
    t.insert("ǎ", (Med::NoMed, Rime::A, 3));
    t.insert("à", (Med::NoMed, Rime::A, 4));
    t.insert("a", (Med::NoMed, Rime::A, 5));
    t.insert("āi", (Med::NoMed, Rime::Ai, 1));
    t.insert("ái", (Med::NoMed, Rime::Ai, 2));
    t.insert("ǎi", (Med::NoMed, Rime::Ai, 3));
    t.insert("ài", (Med::NoMed, Rime::Ai, 4));
    t.insert("ai", (Med::NoMed, Rime::Ai, 5));
    t.insert("ān", (Med::NoMed, Rime::An, 1));
    t.insert("án", (Med::NoMed, Rime::An, 2));
    t.insert("ǎn", (Med::NoMed, Rime::An, 3));
    t.insert("àn", (Med::NoMed, Rime::An, 4));
    t.insert("an", (Med::NoMed, Rime::An, 5));
    t.insert("āng", (Med::NoMed, Rime::Ang, 1));
    t.insert("áng", (Med::NoMed, Rime::Ang, 2));
    t.insert("ǎng", (Med::NoMed, Rime::Ang, 3));
    t.insert("àng", (Med::NoMed, Rime::Ang, 4));
    t.insert("ang", (Med::NoMed, Rime::Ang, 5));
    t.insert("āo", (Med::NoMed, Rime::Ao, 1));
    t.insert("áo", (Med::NoMed, Rime::Ao, 2));
    t.insert("ǎo", (Med::NoMed, Rime::Ao, 3));
    t.insert("ào", (Med::NoMed, Rime::Ao, 4));
    t.insert("ao", (Med::NoMed, Rime::Ao, 5));
    t.insert("ē", (Med::NoMed, Rime::E, 1));
    t.insert("é", (Med::NoMed, Rime::E, 2));
    t.insert("ě", (Med::NoMed, Rime::E, 3));
    t.insert("è", (Med::NoMed, Rime::E, 4));
    t.insert("e", (Med::NoMed, Rime::E, 5));
    t.insert("ēh", (Med::NoMed, Rime::Eh, 1));
    t.insert("éh", (Med::NoMed, Rime::Eh, 2));
    t.insert("ěh", (Med::NoMed, Rime::Eh, 3));
    t.insert("èh", (Med::NoMed, Rime::Eh, 4));
    t.insert("eh", (Med::NoMed, Rime::Eh, 5));
    t.insert("ēi", (Med::NoMed, Rime::Ei, 1));
    t.insert("éi", (Med::NoMed, Rime::Ei, 2));
    t.insert("ěi", (Med::NoMed, Rime::Ei, 3));
    t.insert("èi", (Med::NoMed, Rime::Ei, 4));
    t.insert("ei", (Med::NoMed, Rime::Ei, 5));
    proof {
        assert(forall|s: Seq<char>| #[trigger] t.val_at(s) == toned_rime_val_one(s));
        assert(forall|p: Seq<char>| #[trigger] t.has_path(p) <==> toned_rime_path_one(p));
    }
    t.insert("ēn", (Med::NoMed, Rime::En, 1));
    t.insert("én", (Med::NoMed, Rime::En, 2));
    t.insert("ěn", (Med::NoMed, Rime::En, 3));
    t.insert("èn", (Med::NoMed, Rime::En, 4));
    t.insert("en", (Med::NoMed, Rime::En, 5));
    t.insert("ēng", (Med::NoMed, Rime::Eng, 1));
    t.insert("éng", (Med::NoMed, Rime::Eng, 2));
    t.insert("ěng", (Med::NoMed, Rime::Eng, 3));
    t.insert("èng", (Med::NoMed, Rime::Eng, 4));
    t.insert("eng", (Med::NoMed, Rime::Eng, 5));
    t.insert("ēr", (Med::NoMed, Rime::Er, 1));
    t.insert("ér", (Med::NoMed, Rime::Er, 2));
    t.insert("ěr", (Med::NoMed, Rime::Er, 3));
    t.insert("èr", (Med::NoMed, Rime::Er, 4));
    t.insert("er", (Med::NoMed, Rime::Er, 5));
    t.insert("ō", (Med::NoMed, Rime::O, 1));
    t.insert("ó", (Med::NoMed, Rime::O, 2));
    t.insert("ǒ", (Med::NoMed, Rime::O, 3));
    t.insert("ò", (Med::NoMed, Rime::O, 4));
    t.insert("o", (Med::NoMed, Rime::O, 5));
    t.insert("ōu", (Med::NoMed, Rime::Ou, 1));
    t.insert("óu", (Med::NoMed, Rime::Ou, 2));
    t.insert("ǒu", (Med::NoMed, Rime::Ou, 3));
    t.insert("òu", (Med::NoMed, Rime::Ou, 4));
    t.insert("ou", (Med::NoMed, Rime::Ou, 5));
    t.insert("ī", (Med::Yi, Rime::NoRime, 1));
    t.insert("í", (Med::Yi, Rime::NoRime, 2));
    t.insert("ǐ", (Med::Yi, Rime::NoRime, 3));
    t.insert("ì", (Med::Yi, Rime::NoRime, 4));
    t.insert("i", (Med::Yi, Rime::NoRime, 5));
    t.insert("iā", (Med::Yi, Rime::A, 1));
    t.insert("iá", (Med::Yi, Rime::A, 2));
    t.insert("iǎ", (Med::Yi, Rime::A, 3));
    t.insert("ià", (Med::Yi, Rime::A, 4));
    t.insert("ia", (Med::Yi, Rime::A, 5));
    t.insert("iān", (Med::Yi, Rime::An, 1));
    t.insert("ián", (Med::Yi, Rime::An, 2));
    t.insert("iǎn", (Med::Yi, Rime::An, 3));
    t.insert("iàn", (Med::Yi, Rime::An, 4));
    t.insert("ian", (Med::Yi, Rime::An, 5));
    proof {
        assert(forall|s: Seq<char>| #[trigger] t.val_at(s) == toned_rime_val_two(s));
        assert(forall|p: Seq<char>| #[trigger] t.has_path(p) <==> toned_rime_path_two(p));
    }
    t.insert("iāng", (Med::Yi, Rime::Ang, 1));
    t.insert("iáng", (Med::Yi, Rime::Ang, 2));
    t.insert("iǎng", (Med::Yi, Rime::Ang, 3));
    t.insert("iàng", (Med::Yi, Rime::Ang, 4));
    t.insert("iang", (Med::Yi, Rime::Ang, 5));
    t.insert("iāo", (Med::Yi, Rime::Ao, 1));
    t.insert("iáo", (Med::Yi, Rime::Ao, 2));
    t.insert("iǎo", (Med::Yi, Rime::Ao, 3));
    t.insert("iào", (Med::Yi, Rime::Ao, 4));
    t.insert("iao", (Med::Yi, Rime::Ao, 5));
    t.insert("iē", (Med::Yi, Rime::Eh, 1));
    t.insert("ié", (Med::Yi, Rime::Eh, 2));
    t.insert("iě", (Med::Yi, Rime::Eh, 3));
    t.insert("iè", (Med::Yi, Rime::Eh, 4));
    t.insert("ie", (Med::Yi, Rime::Eh, 5));
    t.insert("īn", (Med::Yi, Rime::En, 1));
    t.insert("ín", (Med::Yi, Rime::En, 2));
    t.insert("ǐn", (Med::Yi, Rime::En, 3));
    t.insert("ìn", (Med::Yi, Rime::En, 4));
    t.insert("in", (Med::Yi, Rime::En, 5));
    t.insert("īng", (Med::Yi, Rime::Eng, 1));
    t.insert("íng", (Med::Yi, Rime::Eng, 2));
    t.insert("ǐng", (Med::Yi, Rime::Eng, 3));
    t.insert("ìng", (Med::Yi, Rime::Eng, 4));
    t.insert("ing", (Med::Yi, Rime::Eng, 5));
    t.insert("iū", (Med::Yi, Rime::Ou, 1));
    t.insert("iōu", (Med::Yi, Rime::Ou, 1));
    t.insert("iú", (Med::Yi, Rime::Ou, 2));
    t.insert("ióu", (Med::Yi, Rime::Ou, 2));
    t.insert("iǔ", (Med::Yi, Rime::Ou, 3));
    t.insert("iǒu", (Med::Yi, Rime::Ou, 3));
    t.insert("iù", (Med::Yi, Rime::Ou, 4));
    t.insert("iòu", (Med::Yi, Rime::Ou, 4));
    t.insert("iu", (Med::Yi, Rime::Ou, 5));
    t.insert("iou", (Med::Yi, Rime::Ou, 5));
    t.insert("ū", (Med::Wu, Rime::NoRime, 1));
    t.insert("ú", (Med::Wu, Rime::NoRime, 2));
    t.insert("ǔ", (Med::Wu, Rime::NoRime, 3));
    t.insert("ù", (Med::Wu, Rime::NoRime, 4));
    t.insert("u", (Med::Wu, Rime::NoRime, 5));
    proof {
        assert(forall|s: Seq<char>| #[trigger] t.val_at(s) == toned_rime_val_three(s));
        assert(forall|p: Seq<char>| #[trigger] t.has_path(p) <==> toned_rime_path_three(p));
    }
    t.insert("uā", (Med::Wu, Rime::A, 1));
    t.insert("uá", (Med::Wu, Rime::A, 2));
    t.insert("uǎ", (Med::Wu, Rime::A, 3));
    t.insert("uà", (Med::Wu, Rime::A, 4));
    t.insert("ua", (Med::Wu, Rime::A, 5));
    t.insert("uāi", (Med::Wu, Rime::Ai, 1));
    t.insert("uái", (Med::Wu, Rime::Ai, 2));
    t.insert("uǎi", (Med::Wu, Rime::Ai, 3));
    t.insert("uài", (Med::Wu, Rime::Ai, 4));
    t.insert("uai", (Med::Wu, Rime::Ai, 5));
    t.insert("uān", (Med::Wu, Rime::An, 1));
    t.insert("uán", (Med::Wu, Rime::An, 2));
    t.insert("uǎn", (Med::Wu, Rime::An, 3));
    t.insert("uàn", (Med::Wu, Rime::An, 4));
    t.insert("uan", (Med::Wu, Rime::An, 5));
    t.insert("uāng", (Med::Wu, Rime::Ang, 1));
    t.insert("uáng", (Med::Wu, Rime::Ang, 2));
    t.insert("uǎng", (Med::Wu, Rime::Ang, 3));
    t.insert("uàng", (Med::Wu, Rime::Ang, 4));
    t.insert("uang", (Med::Wu, Rime::Ang, 5));
    t.insert("uī", (Med::Wu, Rime::Ei, 1));
    t.insert("uēi", (Med::Wu, Rime::Ei, 1));
    t.insert("uí", (Med::Wu, Rime::Ei, 2));
    t.insert("uéi", (Med::Wu, Rime::Ei, 2));
    t.insert("uǐ", (Med::Wu, Rime::Ei, 3));
    t.insert("uěi", (Med::Wu, Rime::Ei, 3));
    t.insert("uì", (Med::Wu, Rime::Ei, 4));
    t.insert("uèi", (Med::Wu, Rime::Ei, 4));
    t.insert("ui", (Med::Wu, Rime::Ei, 5));
    t.insert("uei", (Med::Wu, Rime::Ei, 5));
    t.insert("ūn", (Med::Wu, Rime::En, 1));
    t.insert("ún", (Med::Wu, Rime::En, 2));
    t.insert("ǔn", (Med::Wu, Rime::En, 3));
    t.insert("ùn", (Med::Wu, Rime::En, 4));
    t.insert("un", (Med::Wu, Rime::En, 5));
    t.insert("ōng", (Med::Wu, Rime::Eng, 1));
    t.insert("óng", (Med::Wu, Rime::Eng, 2));
    t.insert("ǒng", (Med::Wu, Rime::Eng, 3));
    t.insert("òng", (Med::Wu, Rime::Eng, 4));
    t.insert("ong", (Med::Wu, Rime::Eng, 5));
    proof {
        assert(forall|s: Seq<char>| #[trigger] t.val_at(s) == toned_rime_val_four(s));
        assert(forall|p: Seq<char>| #[trigger] t.has_path(p) <==> toned_rime_path_four(p));
    }
    t.insert("uō", (Med::Wu, Rime::O, 1));
    t.insert("uó", (Med::Wu, Rime::O, 2));
    t.insert("uǒ", (Med::Wu, Rime::O, 3));
    t.insert("uò", (Med::Wu, Rime::O, 4));
    t.insert("uo", (Med::Wu, Rime::O, 5));
    t.insert("ǖ", (Med::Yu, Rime::NoRime, 1));
    t.insert("ǘ", (Med::Yu, Rime::NoRime, 2));
    t.insert("ǚ", (Med::Yu, Rime::NoRime, 3));
    t.insert("ǜ", (Med::Yu, Rime::NoRime, 4));
    t.insert("ü", (Med::Yu, Rime::NoRime, 5));
    t.insert("üān", (Med::Yu, Rime::An, 1));
    t.insert("üán", (Med::Yu, Rime::An, 2));
    t.insert("üǎn", (Med::Yu, Rime::An, 3));
    t.insert("üàn", (Med::Yu, Rime::An, 4));
    t.insert("üan", (Med::Yu, Rime::An, 5));
    t.insert("uē", (Med::Yu, Rime::Eh, 1));
    t.insert("üē", (Med::Yu, Rime::Eh, 1));
    t.insert("ué", (Med::Yu, Rime::Eh, 2));
    t.insert("üé", (Med::Yu, Rime::Eh, 2));
    t.insert("uě", (Med::Yu, Rime::Eh, 3));
    t.insert("üě", (Med::Yu, Rime::Eh, 3));
    t.insert("uè", (Med::Yu, Rime::Eh, 4));
    t.insert("üè", (Med::Yu, Rime::Eh, 4));
    t.insert("ue", (Med::Yu, Rime::Eh, 5));
    t.insert("üe", (Med::Yu, Rime::Eh, 5));
    t.insert("iōng", (Med::Yu, Rime::Eng, 1));
    t.insert("ióng", (Med::Yu, Rime::Eng, 2));
    t.insert("iǒng", (Med::Yu, Rime::Eng, 3));
    t.insert("iòng", (Med::Yu, Rime::Eng, 4));
    t.insert("iong", (Med::Yu, Rime::Eng, 5));
    proof {
        assert(forall|s: Seq<char>| #[trigger] t.val_at(s) == toned_rime_val_five(s));
        assert(forall|p: Seq<char>| #[trigger] t.has_path(p) <==> toned_rime_path_five(p));
    }
    t
}

/// Every meaning in the toned-final table carries a tone code in the
/// tone range and a medial or a rime.
pub proof fn lemma_toned_val_shape(s: Seq<char>)
    ensures
        toned_rime_val(s) matches Some(v) ==> 1 <= v.2 <= 5 && (v.0 != Med::NoMed || v.1
            != Rime::NoRime),
{
}

/// Every meaning in the untoned-final table carries a medial or a
/// rime.
pub proof fn lemma_untoned_val_shape(s: Seq<char>)
    ensures
        untoned_rime_val(s) matches Some(v) ==> (v.0 != Med::NoMed || v.1 != Rime::NoRime),
{
}

proof fn lemma_toned_depth_congruence(t: SpellTree<(Med, Rime, u8)>, u: Seq<char>, k: int)
    requires
        forall|p: Seq<char>| #[trigger] t.has_path(p) <==> toned_rime_path(p),
    ensures
        super::spell_tree::walk_depth_upto(t, u, k) == toned_depth_upto(u, k),
    decreases k,
{
    if k > 0 {
        lemma_toned_depth_congruence(t, u, k - 1);
    }
}

/// On a tree that holds exactly the toned-final table, the greedy
/// lookup behaves as [`toned_find`] says.
pub proof fn lemma_toned_tree_find(t: SpellTree<(Med, Rime, u8)>, u: Seq<char>)
    requires
        t.wf(),
        forall|s: Seq<char>| #[trigger] t.val_at(s) == toned_rime_val(s),
        forall|p: Seq<char>| #[trigger] t.has_path(p) <==> toned_rime_path(p),
    ensures
        t.find_spec(u) == toned_find(u),
{
    super::spell_tree::lemma_find_spec_by_paths(t, u);
    lemma_toned_depth_congruence(t, u, u.len() as int);
}

proof fn lemma_untoned_depth_congruence(t: SpellTree<(Med, Rime)>, u: Seq<char>, k: int)
    requires
        forall|p: Seq<char>| #[trigger] t.has_path(p) <==> untoned_rime_path(p),
    ensures
        super::spell_tree::walk_depth_upto(t, u, k) == untoned_depth_upto(u, k),
    decreases k,
{
    if k > 0 {
        lemma_untoned_depth_congruence(t, u, k - 1);
    }
}

/// On a tree that holds exactly the untoned-final table, the greedy
/// lookup behaves as [`untoned_find`] says.
pub proof fn lemma_untoned_tree_find(t: SpellTree<(Med, Rime)>, u: Seq<char>)
    requires
        t.wf(),
        forall|s: Seq<char>| #[trigger] t.val_at(s) == untoned_rime_val(s),
        forall|p: Seq<char>| #[trigger] t.has_path(p) <==> untoned_rime_path(p),
    ensures
        t.find_spec(u) == untoned_find(u),
{
    super::spell_tree::lemma_find_spec_by_paths(t, u);
    lemma_untoned_depth_congruence(t, u, u.len() as int);
}

/// The table behind [`get_init_pinyin_to_bopomofo_map`], as pairs of
/// a single Pinyin initial letter and its Bopomofo initial character.
pub open spec fn init_pinyin_to_bopomofo_entries() -> Seq<(char, char)> {
    seq![
        ('b', 'ㄅ'),
        ('p', 'ㄆ'),
        ('m', 'ㄇ'),
        ('f', 'ㄈ'),
        ('d', 'ㄉ'),
        ('t', 'ㄊ'),
        ('n', 'ㄋ'),
        ('l', 'ㄌ'),
        ('g', 'ㄍ'),
        ('k', 'ㄎ'),
        ('h', 'ㄏ'),
        ('j', 'ㄐ'),
        ('q', 'ㄑ'),
        ('x', 'ㄒ'),
        ('r', 'ㄖ'),
        ('z', 'ㄗ'),
        ('c', 'ㄘ'),
        ('s', 'ㄙ')
    ]
}

/// The map from a single Pinyin initial letter to its Bopomofo
/// initial; the two-letter initials zh, ch and sh are recognized from
/// z, c and s plus a trailing h and so have no entry of their own.
pub fn get_init_pinyin_to_bopomofo_map() -> (r: Vec<(char, char)>)
    ensures
        r@ == init_pinyin_to_bopomofo_entries(),
{
    let r: Vec<(char, char)> = vec![
        ('b', 'ㄅ'),
        ('p', 'ㄆ'),
        ('m', 'ㄇ'),
        ('f', 'ㄈ'),
        ('d', 'ㄉ'),
        ('t', 'ㄊ'),
        ('n', 'ㄋ'),
        ('l', 'ㄌ'),
        ('g', 'ㄍ'),
        ('k', 'ㄎ'),
        ('h', 'ㄏ'),
        ('j', 'ㄐ'),
        ('q', 'ㄑ'),
        ('x', 'ㄒ'),
        ('r', 'ㄖ'),
        ('z', 'ㄗ'),
        ('c', 'ㄘ'),
        ('s', 'ㄙ')
    ];
    proof {
        assert(r@ =~= init_pinyin_to_bopomofo_entries());
    }
    r
}

/// The table behind [`get_init_bopomofo_to_pinyin_map`]: each Bopomofo
/// initial character beside its Pinyin letters, the sentinel beside
/// the empty string.
pub open spec fn init_bopomofo_to_pinyin_entries() -> Seq<(char, Seq<char>)> {
    seq![
        ('\0', ""@),
        ('ㄅ', "b"@),
        ('ㄆ', "p"@),
        ('ㄇ', "m"@),
        ('ㄈ', "f"@),
        ('ㄉ', "d"@),
        ('ㄊ', "t"@),
        ('ㄋ', "n"@),
        ('ㄌ', "l"@),
        ('ㄍ', "g"@),
        ('ㄎ', "k"@),
        ('ㄏ', "h"@),
        ('ㄐ', "j"@),
        ('ㄑ', "q"@),
        ('ㄒ', "x"@),
        ('ㄓ', "zh"@),
        ('ㄔ', "ch"@),
        ('ㄕ', "sh"@),
        ('ㄖ', "r"@),
        ('ㄗ', "z"@),
        ('ㄘ', "c"@),
        ('ㄙ', "s"@)
    ]
}

/// The map from a Bopomofo initial character to its Pinyin letter or
/// letter pair.
pub fn get_init_bopomofo_to_pinyin_map() -> (r: Vec<(char, &'static str)>)
    ensures
        r@.map_values(|e: (char, &'static str)| (e.0, e.1@)) == init_bopomofo_to_pinyin_entries(),
{
    let r: Vec<(char, &'static str)> = vec![
        ('\0', ""),
        ('ㄅ', "b"),
        ('ㄆ', "p"),
        ('ㄇ', "m"),
        ('ㄈ', "f"),
        ('ㄉ', "d"),
        ('ㄊ', "t"),
        ('ㄋ', "n"),
        ('ㄌ', "l"),
        ('ㄍ', "g"),
        ('ㄎ', "k"),
        ('ㄏ', "h"),
        ('ㄐ', "j"),
        ('ㄑ', "q"),
        ('ㄒ', "x"),
        ('ㄓ', "zh"),
        ('ㄔ', "ch"),
        ('ㄕ', "sh"),
        ('ㄖ', "r"),
        ('ㄗ', "z"),
        ('ㄘ', "c"),
        ('ㄙ', "s")
    ];
    proof {
        assert(r@.map_values(|e: (char, &'static str)| (e.0, e.1@))
            =~= init_bopomofo_to_pinyin_entries());
    }
    r
}

} // verus!
