//! The four closed phonetic categories of a Mandarin syllable: initial,
//! medial, rime and tone.  Each category maps to exactly one Bopomofo
//! character; the absent variant maps to the null sentinel character.
use vstd::prelude::*;

verus! {

/// Consonantal initial of a syllable, ordered by the conventional
/// Bopomofo table position (b p m f d t n l g k h j q x zh ch sh r z c s).
#[derive(Debug, Clone, Copy, PartialEq, Eq, Structural)]
pub enum Init {
    NoInit,
    Bo,
    Po,
    Mo,
    Fo,
    De,
    Te,
    Ne,
    Le,
    Ge,
    Ke,
    He,
    Ji,
    Qi,
    Xi,
    Zhi,
    Chi,
    Shi,
    Ri,
    Zi,
    Ci,
    Si,
}

/// Semivowel glide between initial and rime: i, u or ü.
#[derive(Debug, Clone, Copy, PartialEq, Eq, Structural)]
pub enum Med {
    NoMed,
    Yi,
    Wu,
    Yu,
}

/// Vowel nucleus plus optional coda.  `NoRime` is the empty rime, used by
/// syllables that end in the bare medial or in the apical buzz.
#[derive(Debug, Clone, Copy, PartialEq, Eq, Structural)]
pub enum Rime {
    NoRime,
    A,
    O,
    E,
    Eh,
    Ai,
    Ei,
    Ao,
    Ou,
    An,
    En,
    Ang,
    Eng,
    Er,
}

/// Pitch contour: unspecified, the four numbered tones, or neutral.
#[derive(Debug, Clone, Copy, PartialEq, Eq, Structural)]
pub enum Tone {
    NoTone,
    Level,
    Rise,
    Dip,
    Fall,
    Neut,
}

/// Raised by the checked integer-to-category conversions when the integer
/// lies outside the category's valid range.
#[derive(Debug, Clone, Copy, PartialEq, Eq, Structural)]
pub struct InvalidRangeError;

/// Integer code of an initial: 0 for absent, then table order up to 21.
pub open spec fn init_code(i: Init) -> int {
    match i {
        Init::NoInit => 0,
        Init::Bo => 1,
        Init::Po => 2,
        Init::Mo => 3,
        Init::Fo => 4,
        Init::De => 5,
        Init::Te => 6,
        Init::Ne => 7,
        Init::Le => 8,
        Init::Ge => 9,
        Init::Ke => 10,
        Init::He => 11,
        Init::Ji => 12,
        Init::Qi => 13,
        Init::Xi => 14,
        Init::Zhi => 15,
        Init::Chi => 16,
        Init::Shi => 17,
        Init::Ri => 18,
        Init::Zi => 19,
        Init::Ci => 20,
        Init::Si => 21,
    }
}

/// Integer code of a medial: 0 for absent, 1 i, 2 u, 3 ü.
pub open spec fn med_code(m: Med) -> int {
    match m {
        Med::NoMed => 0,
        Med::Yi => 1,
        Med::Wu => 2,
        Med::Yu => 3,
    }
}

/// Integer code of a rime: 0 for absent, then table order up to 13.
pub open spec fn rime_code(r: Rime) -> int {
    match r {
        Rime::NoRime => 0,
        Rime::A => 1,
        Rime::O => 2,
        Rime::E => 3,
        Rime::Eh => 4,
        Rime::Ai => 5,
        Rime::Ei => 6,
        Rime::Ao => 7,
        Rime::Ou => 8,
        Rime::An => 9,
        Rime::En => 10,
        Rime::Ang => 11,
        Rime::Eng => 12,
        Rime::Er => 13,
    }
}

/// Integer code of a tone: 0 unspecified, 1 level, 2 rising, 3 dipping,
/// 4 falling, 5 neutral.
pub open spec fn tone_code(t: Tone) -> int {
    match t {
        Tone::NoTone => 0,
        Tone::Level => 1,
        Tone::Rise => 2,
        Tone::Dip => 3,
        Tone::Fall => 4,
        Tone::Neut => 5,
    }
}

/// Canonical Bopomofo character of an initial; the sentinel for absent.
pub open spec fn init_char_spec(i: Init) -> char {
    match i {
        Init::NoInit => '\0',
        Init::Bo => 'ㄅ',
        Init::Po => 'ㄆ',
        Init::Mo => 'ㄇ',
        Init::Fo => 'ㄈ',
        Init::De => 'ㄉ',
        Init::Te => 'ㄊ',
        Init::Ne => 'ㄋ',
        Init::Le => 'ㄌ',
        Init::Ge => 'ㄍ',
        Init::Ke => 'ㄎ',
        Init::He => 'ㄏ',
        Init::Ji => 'ㄐ',
        Init::Qi => 'ㄑ',
        Init::Xi => 'ㄒ',
        Init::Zhi => 'ㄓ',
        Init::Chi => 'ㄔ',
        Init::Shi => 'ㄕ',
        Init::Ri => 'ㄖ',
        Init::Zi => 'ㄗ',
        Init::Ci => 'ㄘ',
        Init::Si => 'ㄙ',
    }
}

/// Canonical Bopomofo character of a medial; the sentinel for absent.
pub open spec fn med_char_spec(m: Med) -> char {
    match m {
        Med::NoMed => '\0',
        Med::Yi => 'ㄧ',
        Med::Wu => 'ㄨ',
        Med::Yu => 'ㄩ',
    }
}

/// Canonical Bopomofo character of a rime; the sentinel for absent.
pub open spec fn rime_char_spec(r: Rime) -> char {
    match r {
        Rime::NoRime => '\0',
        Rime::A => 'ㄚ',
        Rime::O => 'ㄛ',
        Rime::E => 'ㄜ',
        Rime::Eh => 'ㄝ',
        Rime::Ai => 'ㄞ',
        Rime::Ei => 'ㄟ',
        Rime::Ao => 'ㄠ',
        Rime::Ou => 'ㄡ',
        Rime::An => 'ㄢ',
        Rime::En => 'ㄣ',
        Rime::Ang => 'ㄤ',
        Rime::Eng => 'ㄥ',
        Rime::Er => 'ㄦ',
    }
}

/// Canonical tone-mark character; the sentinel for an unspecified tone.
pub open spec fn tone_char_spec(t: Tone) -> char {
    match t {
        Tone::NoTone => '\0',
        Tone::Level => 'ˉ',
        Tone::Rise => 'ˊ',
        Tone::Dip => 'ˇ',
        Tone::Fall => 'ˋ',
        Tone::Neut => '˙',
    }
}

/// The initial denoted by a character of the Bopomofo initials block,
/// if any.
pub open spec fn char_init(c: char) -> Option<Init> {
    if c == 'ㄅ' {
        Some(Init::Bo)
    } else if c == 'ㄆ' {
        Some(Init::Po)
    } else if c == 'ㄇ' {
        Some(Init::Mo)
    } else if c == 'ㄈ' {
        Some(Init::Fo)
    } else if c == 'ㄉ' {
        Some(Init::De)
    } else if c == 'ㄊ' {
        Some(Init::Te)
    } else if c == 'ㄋ' {
        Some(Init::Ne)
    } else if c == 'ㄌ' {
        Some(Init::Le)
    } else if c == 'ㄍ' {
        Some(Init::Ge)
    } else if c == 'ㄎ' {
        Some(Init::Ke)
    } else if c == 'ㄏ' {
        Some(Init::He)
    } else if c == 'ㄐ' {
        Some(Init::Ji)
    } else if c == 'ㄑ' {
        Some(Init::Qi)
    } else if c == 'ㄒ' {
        Some(Init::Xi)
    } else if c == 'ㄓ' {
        Some(Init::Zhi)
    } else if c == 'ㄔ' {
        Some(Init::Chi)
    } else if c == 'ㄕ' {
        Some(Init::Shi)
    } else if c == 'ㄖ' {
        Some(Init::Ri)
    } else if c == 'ㄗ' {
        Some(Init::Zi)
    } else if c == 'ㄘ' {
        Some(Init::Ci)
    } else if c == 'ㄙ' {
        Some(Init::Si)
    } else {
        None
    }
}

/// The medial denoted by a character of the Bopomofo medials block,
/// if any.
pub open spec fn char_med(c: char) -> Option<Med> {
    if c == 'ㄧ' {
        Some(Med::Yi)
    } else if c == 'ㄨ' {
        Some(Med::Wu)
    } else if c == 'ㄩ' {
        Some(Med::Yu)
    } else {
        None
    }
}

/// The rime denoted by a character of the Bopomofo rimes block, if any.
pub open spec fn char_rime(c: char) -> Option<Rime> {
    if c == 'ㄚ' {
        Some(Rime::A)
    } else if c == 'ㄛ' {
        Some(Rime::O)
    } else if c == 'ㄜ' {
        Some(Rime::E)
    } else if c == 'ㄝ' {
        Some(Rime::Eh)
    } else if c == 'ㄞ' {
        Some(Rime::Ai)
    } else if c == 'ㄟ' {
        Some(Rime::Ei)
    } else if c == 'ㄠ' {
        Some(Rime::Ao)
    } else if c == 'ㄡ' {
        Some(Rime::Ou)
    } else if c == 'ㄢ' {
        Some(Rime::An)
    } else if c == 'ㄣ' {
        Some(Rime::En)
    } else if c == 'ㄤ' {
        Some(Rime::Ang)
    } else if c == 'ㄥ' {
        Some(Rime::Eng)
    } else if c == 'ㄦ' {
        Some(Rime::Er)
    } else {
        None
    }
}

/// The tone denoted by a tone-mark character, if any.
pub open spec fn char_tone(c: char) -> Option<Tone> {
    if c == 'ˉ' {
        Some(Tone::Level)
    } else if c == 'ˊ' {
        Some(Tone::Rise)
    } else if c == 'ˇ' {
        Some(Tone::Dip)
    } else if c == 'ˋ' {
        Some(Tone::Fall)
    } else if c == '˙' {
        Some(Tone::Neut)
    } else {
        None
    }
}

impl Init {
    /// The initial denoted by a character of the Bopomofo initials block.
    pub fn from_bopomofo_char(c: char) -> (r: Option<Init>)
        ensures
            r == char_init(c),
    {
        match c {
            'ㄅ' => Some(Init::Bo),
            'ㄆ' => Some(Init::Po),
            'ㄇ' => Some(Init::Mo),
            'ㄈ' => Some(Init::Fo),
            'ㄉ' => Some(Init::De),
            'ㄊ' => Some(Init::Te),
            'ㄋ' => Some(Init::Ne),
            'ㄌ' => Some(Init::Le),
            'ㄍ' => Some(Init::Ge),
            'ㄎ' => Some(Init::Ke),
            'ㄏ' => Some(Init::He),
            'ㄐ' => Some(Init::Ji),
            'ㄑ' => Some(Init::Qi),
            'ㄒ' => Some(Init::Xi),
            'ㄓ' => Some(Init::Zhi),
            'ㄔ' => Some(Init::Chi),
            'ㄕ' => Some(Init::Shi),
            'ㄖ' => Some(Init::Ri),
            'ㄗ' => Some(Init::Zi),
            'ㄘ' => Some(Init::Ci),
            'ㄙ' => Some(Init::Si),
            _ => None,
        }
    }

    /// Code of this initial as a machine integer.
    pub fn code(self) -> (r: u8)
        ensures
            r == init_code(self),
    {
        match self {
            Init::NoInit => 0,
            Init::Bo => 1,
            Init::Po => 2,
            Init::Mo => 3,
            Init::Fo => 4,
            Init::De => 5,
            Init::Te => 6,
            Init::Ne => 7,
            Init::Le => 8,
            Init::Ge => 9,
            Init::Ke => 10,
            Init::He => 11,
            Init::Ji => 12,
            Init::Qi => 13,
            Init::Xi => 14,
            Init::Zhi => 15,
            Init::Chi => 16,
            Init::Shi => 17,
            Init::Ri => 18,
            Init::Zi => 19,
            Init::Ci => 20,
            Init::Si => 21,
        }
    }

    /// Checked conversion from an integer code; an integer outside the
    /// valid range 0..=21 is reported as an invalid-range error.
    pub fn from_code(v: u8) -> (r: Result<Init, InvalidRangeError>)
        ensures
            v <= 21 ==> (r matches Ok(i) && init_code(i) == v),
            v > 21 ==> r is Err,
    {
        match v {
            0 => Ok(Init::NoInit),
            1 => Ok(Init::Bo),
            2 => Ok(Init::Po),
            3 => Ok(Init::Mo),
            4 => Ok(Init::Fo),
            5 => Ok(Init::De),
            6 => Ok(Init::Te),
            7 => Ok(Init::Ne),
            8 => Ok(Init::Le),
            9 => Ok(Init::Ge),
            10 => Ok(Init::Ke),
            11 => Ok(Init::He),
            12 => Ok(Init::Ji),
            13 => Ok(Init::Qi),
            14 => Ok(Init::Xi),
            15 => Ok(Init::Zhi),
            16 => Ok(Init::Chi),
            17 => Ok(Init::Shi),
            18 => Ok(Init::Ri),
            19 => Ok(Init::Zi),
            20 => Ok(Init::Ci),
            21 => Ok(Init::Si),
            _ => Err(InvalidRangeError),
        }
    }

    /// Canonical Bopomofo character of this initial.
    pub fn to_char(self) -> (r: char)
        ensures
            r == init_char_spec(self),
    {
        match self {
            Init::NoInit => '\0',
            Init::Bo => 'ㄅ',
            Init::Po => 'ㄆ',
            Init::Mo => 'ㄇ',
            Init::Fo => 'ㄈ',
            Init::De => 'ㄉ',
            Init::Te => 'ㄊ',
            Init::Ne => 'ㄋ',
            Init::Le => 'ㄌ',
            Init::Ge => 'ㄍ',
            Init::Ke => 'ㄎ',
            Init::He => 'ㄏ',
            Init::Ji => 'ㄐ',
            Init::Qi => 'ㄑ',
            Init::Xi => 'ㄒ',
            Init::Zhi => 'ㄓ',
            Init::Chi => 'ㄔ',
            Init::Shi => 'ㄕ',
            Init::Ri => 'ㄖ',
            Init::Zi => 'ㄗ',
            Init::Ci => 'ㄘ',
            Init::Si => 'ㄙ',
        }
    }
}

impl Med {
    /// The medial denoted by a character of the Bopomofo medials block.
    pub fn from_bopomofo_char(c: char) -> (r: Option<Med>)
        ensures
            r == char_med(c),
    {
        match c {
            'ㄧ' => Some(Med::Yi),
            'ㄨ' => Some(Med::Wu),
            'ㄩ' => Some(Med::Yu),
            _ => None,
        }
    }

    /// Code of this medial as a machine integer.
    pub fn code(self) -> (r: u8)
        ensures
            r == med_code(self),
    {
        match self {
            Med::NoMed => 0,
            Med::Yi => 1,
            Med::Wu => 2,
            Med::Yu => 3,
        }
    }

    /// Checked conversion from an integer code; an integer outside the
    /// valid range 0..=3 is reported as an invalid-range error.
    pub fn from_code(v: u8) -> (r: Result<Med, InvalidRangeError>)
        ensures
            v <= 3 ==> (r matches Ok(m) && med_code(m) == v),
            v > 3 ==> r is Err,
    {
        match v {
            0 => Ok(Med::NoMed),
            1 => Ok(Med::Yi),
            2 => Ok(Med::Wu),
            3 => Ok(Med::Yu),
            _ => Err(InvalidRangeError),
        }
    }

    /// Canonical Bopomofo character of this medial.
    pub fn to_char(self) -> (r: char)
        ensures
            r == med_char_spec(self),
    {
        match self {
            Med::NoMed => '\0',
            Med::Yi => 'ㄧ',
            Med::Wu => 'ㄨ',
            Med::Yu => 'ㄩ',
        }
    }
}

impl Rime {
    /// The rime denoted by a character of the Bopomofo rimes block.
    pub fn from_bopomofo_char(c: char) -> (r: Option<Rime>)
        ensures
            r == char_rime(c),
    {
        match c {
            'ㄚ' => Some(Rime::A),
            'ㄛ' => Some(Rime::O),
            'ㄜ' => Some(Rime::E),
            'ㄝ' => Some(Rime::Eh),
            'ㄞ' => Some(Rime::Ai),
            'ㄟ' => Some(Rime::Ei),
            'ㄠ' => Some(Rime::Ao),
            'ㄡ' => Some(Rime::Ou),
            'ㄢ' => Some(Rime::An),
            'ㄣ' => Some(Rime::En),
            'ㄤ' => Some(Rime::Ang),
            'ㄥ' => Some(Rime::Eng),
            'ㄦ' => Some(Rime::Er),
            _ => None,
        }
    }

    /// Code of this rime as a machine integer.
    pub fn code(self) -> (r: u8)
        ensures
            r == rime_code(self),
    {
        match self {
            Rime::NoRime => 0,
            Rime::A => 1,
            Rime::O => 2,
            Rime::E => 3,
            Rime::Eh => 4,
            Rime::Ai => 5,
            Rime::Ei => 6,
            Rime::Ao => 7,
            Rime::Ou => 8,
            Rime::An => 9,
            Rime::En => 10,
            Rime::Ang => 11,
            Rime::Eng => 12,
            Rime::Er => 13,
        }
    }

    /// Checked conversion from an integer code; an integer outside the
    /// valid range 0..=13 is reported as an invalid-range error.
    pub fn from_code(v: u8) -> (r: Result<Rime, InvalidRangeError>)
        ensures
            v <= 13 ==> (r matches Ok(x) && rime_code(x) == v),
            v > 13 ==> r is Err,
    {
        match v {
            0 => Ok(Rime::NoRime),
            1 => Ok(Rime::A),
            2 => Ok(Rime::O),
            3 => Ok(Rime::E),
            4 => Ok(Rime::Eh),
            5 => Ok(Rime::Ai),
            6 => Ok(Rime::Ei),
            7 => Ok(Rime::Ao),
            8 => Ok(Rime::Ou),
            9 => Ok(Rime::An),
            10 => Ok(Rime::En),
            11 => Ok(Rime::Ang),
            12 => Ok(Rime::Eng),
            13 => Ok(Rime::Er),
            _ => Err(InvalidRangeError),
        }
    }

    /// Canonical Bopomofo character of this rime.
    pub fn to_char(self) -> (r: char)
        ensures
            r == rime_char_spec(self),
    {
        match self {
            Rime::NoRime => '\0',
            Rime::A => 'ㄚ',
            Rime::O => 'ㄛ',
            Rime::E => 'ㄜ',
            Rime::Eh => 'ㄝ',
            Rime::Ai => 'ㄞ',
            Rime::Ei => 'ㄟ',
            Rime::Ao => 'ㄠ',
            Rime::Ou => 'ㄡ',
            Rime::An => 'ㄢ',
            Rime::En => 'ㄣ',
            Rime::Ang => 'ㄤ',
            Rime::Eng => 'ㄥ',
            Rime::Er => 'ㄦ',
        }
    }
}

impl Tone {
    /// The tone denoted by a tone-mark character.
    pub fn from_mark_char(c: char) -> (r: Option<Tone>)
        ensures
            r == char_tone(c),
    {
        match c {
            'ˉ' => Some(Tone::Level),
            'ˊ' => Some(Tone::Rise),
            'ˇ' => Some(Tone::Dip),
            'ˋ' => Some(Tone::Fall),
            '˙' => Some(Tone::Neut),
            _ => None,
        }
    }

    /// Code of this tone as a machine integer.
    pub fn code(self) -> (r: u8)
        ensures
            r == tone_code(self),
    {
        match self {
            Tone::NoTone => 0,
            Tone::Level => 1,
            Tone::Rise => 2,
            Tone::Dip => 3,
            Tone::Fall => 4,
            Tone::Neut => 5,
        }
    }

    /// Checked conversion from an integer code; an integer outside the
    /// valid range 0..=5 is reported as an invalid-range error.
    pub fn from_code(v: u8) -> (r: Result<Tone, InvalidRangeError>)
        ensures
            v <= 5 ==> (r matches Ok(t) && tone_code(t) == v),
            v > 5 ==> r is Err,
    {
        match v {
            0 => Ok(Tone::NoTone),
            1 => Ok(Tone::Level),
            2 => Ok(Tone::Rise),
            3 => Ok(Tone::Dip),
            4 => Ok(Tone::Fall),
            5 => Ok(Tone::Neut),
            _ => Err(InvalidRangeError),
        }
    }

    /// Canonical tone-mark character of this tone.
    pub fn to_char(self) -> (r: char)
        ensures
            r == tone_char_spec(self),
    {
        match self {
            Tone::NoTone => '\0',
            Tone::Level => 'ˉ',
            Tone::Rise => 'ˊ',
            Tone::Dip => 'ˇ',
            Tone::Fall => 'ˋ',
            Tone::Neut => '˙',
        }
    }
}

} // verus!
