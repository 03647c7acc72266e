//! The compact syllable value type, its three parsers and its renderers.
pub mod data;
pub mod enums;
pub mod spell_tree;

pub use enums::{Init, Med, Rime, Tone, InvalidRangeError};
pub use enums::{init_code, med_code, rime_code, tone_code};
pub use enums::{init_char_spec, med_char_spec, rime_char_spec, tone_char_spec};
pub use enums::{char_init, char_med, char_rime, char_tone};

use vstd::prelude::*;
use vstd::string::StringExecFns;

verus! {

/// Raised by all three parsers when no syllable can be read from the
/// front of the input.
#[derive(Debug, Clone, Copy, PartialEq, Eq, Structural)]
pub struct ParseBopomofoError;

/// One Mandarin syllable: an initial, a medial, a rime and a tone.
/// Every value of this type is structurally valid, because each field is
/// a value of its closed category; the parsers additionally guarantee
/// the phonotactic acceptance condition (see [`parse_acceptable`]).
#[derive(Debug, Clone, Copy, PartialEq, Eq, Structural)]
pub struct Syllable {
    pub init: Init,
    pub med: Med,
    pub rime: Rime,
    pub tone: Tone,
}

/// The total-order key of a syllable: tone is least significant, then
/// rime, then medial; a zero initial sorts after all real initials.
pub open spec fn ord_spec(s: Syllable) -> int {
    tone_code(s.tone) + rime_code(s.rime) * 41 + med_code(s.med) * 41 * 41 + (
    if s.init == Init::NoInit {
        40
    } else {
        init_code(s.init)
    }) * 41 * 41 * 41
}

/// The Bopomofo rendering of a syllable: a leading neutral-tone mark,
/// the present parts in initial-medial-rime order, then a trailing mark
/// for the rising, dipping or falling tone.  An empty syllable renders
/// as the empty string.
pub open spec fn display_spec(s: Syllable) -> Seq<char> {
    if s == (Syllable { init: Init::NoInit, med: Med::NoMed, rime: Rime::NoRime, tone: Tone::NoTone }) {
        Seq::empty()
    } else {
        (if s.tone == Tone::Neut {
            seq!['˙']
        } else {
            Seq::empty()
        }) + (if s.init != Init::NoInit {
            seq![init_char_spec(s.init)]
        } else {
            Seq::empty()
        }) + (if s.med != Med::NoMed {
            seq![med_char_spec(s.med)]
        } else {
            Seq::empty()
        }) + (if s.rime != Rime::NoRime {
            seq![rime_char_spec(s.rime)]
        } else {
            Seq::empty()
        }) + (if s.tone == Tone::Rise || s.tone == Tone::Dip || s.tone == Tone::Fall {
            seq![tone_char_spec(s.tone)]
        } else {
            Seq::empty()
        })
    }
}

/// The Unicode White_Space property, written out code point by code
/// point: the characters the parsers skip between syllables.
pub open spec fn is_space_char(c: char) -> bool {
    ||| c == '\u{9}'
    ||| c == '\u{a}'
    ||| c == '\u{b}'
    ||| c == '\u{c}'
    ||| c == '\u{d}'
    ||| c == ' '
    ||| c == '\u{85}'
    ||| c == '\u{a0}'
    ||| c == '\u{1680}'
    ||| ('\u{2000}' as u32) <= (c as u32) <= ('\u{200a}' as u32)
    ||| c == '\u{2028}'
    ||| c == '\u{2029}'
    ||| c == '\u{202f}'
    ||| c == '\u{205f}'
    ||| c == '\u{3000}'
}

/// A character the parsers pass over before a syllable: whitespace or
/// the syllable-separator apostrophe.
pub open spec fn is_separator_char(c: char) -> bool {
    is_space_char(c) || c == '\''
}

/// The input with its maximal run of leading separators removed.
pub open spec fn skip_separators_spec(t: Seq<char>) -> Seq<char>
    decreases t.len(),
{
    if t.len() > 0 && is_separator_char(t[0]) {
        skip_separators_spec(t.drop_first())
    } else {
        t
    }
}

/// True for a syllable that some successful Bopomofo parse can produce:
/// the tone is set and the acceptance condition holds (a medial or a
/// rime is present, or the initial is one of the seven apicals
/// zh ch sh r z c s, which may stand alone with the empty rime).
pub open spec fn parse_acceptable(s: Syllable) -> bool {
    &&& (s.med != Med::NoMed || s.rime != Rime::NoRime || 15 <= init_code(s.init) <= 21)
    &&& 1 <= tone_code(s.tone) <= 5
}

/// What parsing Bopomofo from the front of `t` yields: the parsed
/// syllable and the unconsumed remainder, or nothing when the text is
/// ill-formed.  After the separators, each part is read in the fixed
/// order neutral-tone mark, initial, medial, rime, trailing tone mark;
/// every step is optional, a missing trailing mark means the level
/// tone, and the result stands only under the acceptance condition.
pub open spec fn parse_bopomofo_spec(t: Seq<char>) -> Option<(Syllable, Seq<char>)> {
    let u = skip_separators_spec(t);
    let neut = u.len() > 0 && u[0] == '˙';
    let u1 = if neut {
        u.drop_first()
    } else {
        u
    };
    let oi = if u1.len() > 0 {
        char_init(u1[0])
    } else {
        None
    };
    let u2 = if oi is Some {
        u1.drop_first()
    } else {
        u1
    };
    let om = if u2.len() > 0 {
        char_med(u2[0])
    } else {
        None
    };
    let u3 = if om is Some {
        u2.drop_first()
    } else {
        u2
    };
    let orr = if u3.len() > 0 {
        char_rime(u3[0])
    } else {
        None
    };
    let u4 = if orr is Some {
        u3.drop_first()
    } else {
        u3
    };
    let ot = if !neut && u4.len() > 0 {
        char_tone(u4[0])
    } else {
        None
    };
    let u5 = if ot is Some {
        u4.drop_first()
    } else {
        u4
    };
    let s = Syllable {
        init: match oi {
            Some(i) => i,
            None => Init::NoInit,
        },
        med: match om {
            Some(m) => m,
            None => Med::NoMed,
        },
        rime: match orr {
            Some(x) => x,
            None => Rime::NoRime,
        },
        tone: if neut {
            Tone::Neut
        } else {
            match ot {
                Some(t) => t,
                None => Tone::Level,
            }
        },
    };
    if parse_acceptable(s) {
        Some((s, u5))
    } else {
        None
    }
}

/// True when the given character is whitespace or the apostrophe.
fn is_separator(c: char) -> (r: bool)
    ensures
        r == is_separator_char(c),
{
    let u = c as u32;
    (u == 0x9 || u == 0xa || u == 0xb || u == 0xc || u == 0xd || u == 0x20 || u == 0x85 || u == 0xa0
        || u == 0x1680 || (0x2000 <= u && u <= 0x200a) || u == 0x2028 || u == 0x2029 || u == 0x202f
        || u == 0x205f || u == 0x3000) || c == '\''
}

/// Relies on String::push: appends exactly the given character.
#[verifier::external_body]
fn push_char(s: &mut String, c: char)
    ensures
        final(s)@ == old(s)@.push(c),
{
    s.push(c);
}

impl Syllable {
    /// Builds a syllable from its four parts.  Total: any combination is
    /// stored, whether or not the parsers would accept it.
    pub fn new(init: Init, med: Med, rime: Rime, tone: Tone) -> (r: Syllable)
        ensures
            r == (Syllable { init, med, rime, tone }),
    {
        Syllable { init, med, rime, tone }
    }

    /// The initial of this syllable.
    pub fn init(&self) -> (r: Init)
        ensures
            r == self.init,
    {
        self.init
    }

    /// The medial of this syllable.
    pub fn med(&self) -> (r: Med)
        ensures
            r == self.med,
    {
        self.med
    }

    /// The rime of this syllable.
    pub fn rime(&self) -> (r: Rime)
        ensures
            r == self.rime,
    {
        self.rime
    }

    /// The tone of this syllable.
    pub fn tone(&self) -> (r: Tone)
        ensures
            r == self.tone,
    {
        self.tone
    }

    /// Bopomofo character of the initial; the sentinel if absent.
    pub fn init_char(&self) -> (r: char)
        ensures
            r == init_char_spec(self.init),
    {
        self.init.to_char()
    }

    /// Bopomofo character of the medial; the sentinel if absent.
    pub fn med_char(&self) -> (r: char)
        ensures
            r == med_char_spec(self.med),
    {
        self.med.to_char()
    }

    /// Bopomofo character of the rime; the sentinel if absent.
    pub fn rime_char(&self) -> (r: char)
        ensures
            r == rime_char_spec(self.rime),
    {
        self.rime.to_char()
    }

    /// Tone-mark character of the tone; the sentinel if unspecified.
    pub fn tone_char(&self) -> (r: char)
        ensures
            r == tone_char_spec(self.tone),
    {
        self.tone.to_char()
    }

    /// The strictly monotonic 32-bit ordering key: two syllables are
    /// equal exactly when their keys are (see [`lemma_ord_total_order`]).
    pub fn ord(&self) -> (r: u32)
        ensures
            r == ord_spec(*self),
    {
        let t: u32 = self.tone.code() as u32;
        let rm: u32 = self.rime.code() as u32;
        let m: u32 = self.med.code() as u32;
        let i: u32 = if matches!(self.init, Init::NoInit) {
            40
        } else {
            self.init.code() as u32
        };
        t + rm * 41 + m * 41 * 41 + i * 41 * 41 * 41
    }

    /// True exactly when all four parts are absent.
    pub fn is_empty(&self) -> (r: bool)
        ensures
            r == (*self == (Syllable {
                init: Init::NoInit,
                med: Med::NoMed,
                rime: Rime::NoRime,
                tone: Tone::NoTone,
            })),
    {
        matches!(self.init, Init::NoInit) && matches!(self.med, Med::NoMed) && matches!(
            self.rime,
            Rime::NoRime,
        ) && matches!(self.tone, Tone::NoTone)
    }

    /// Buffer-sizing hint: the byte width of the Bopomofo rendering,
    /// counting three bytes per present part and two for a tone mark
    /// above the level tone.  Not a semantic property of the syllable.
    pub fn byte_len(&self) -> (r: usize)
        ensures
            r == (if self.init != Init::NoInit { 3int } else { 0int })
                + (if self.med != Med::NoMed { 3int } else { 0int })
                + (if self.rime != Rime::NoRime { 3int } else { 0int })
                + (if tone_code(self.tone) > 1 { 2int } else { 0int }),
    {
        let a: usize = if matches!(self.init, Init::NoInit) { 0 } else { 3 };
        let b: usize = if matches!(self.med, Med::NoMed) { 0 } else { 3 };
        let c: usize = if matches!(self.rime, Rime::NoRime) { 0 } else { 3 };
        let d: usize = if self.tone.code() > 1 { 2 } else { 0 };
        a + b + c + d
    }

    /// Renders this syllable as Bopomofo text.
    pub fn display(&self) -> (r: String)
        ensures
            r@ == display_spec(*self),
    {
        let mut s = String::new();
        if self.is_empty() {
            return s;
        }
        if matches!(self.tone, Tone::Neut) {
            push_char(&mut s, '˙');
        }
        if !matches!(self.init, Init::NoInit) {
            push_char(&mut s, self.init.to_char());
        }
        if !matches!(self.med, Med::NoMed) {
            push_char(&mut s, self.med.to_char());
        }
        if !matches!(self.rime, Rime::NoRime) {
            push_char(&mut s, self.rime.to_char());
        }
        if matches!(self.tone, Tone::Rise | Tone::Dip | Tone::Fall) {
            push_char(&mut s, self.tone.to_char());
        }
        assert(s@ =~= display_spec(*self));
        s
    }

    /// The input with its leading whitespace and syllable separators
    /// removed.
    fn skip_separators(slice: &str) -> (r: &str)
        ensures
            r@ == skip_separators_spec(slice@),
    {
        let n = slice.unicode_len();
        let mut i: usize = 0;
        proof {
            assert(slice@.skip(0) =~= slice@);
        }
        while i < n && is_separator(slice.get_char(i))
            invariant
                i <= n,
                n == slice@.len(),
                skip_separators_spec(slice@) == skip_separators_spec(slice@.skip(i as int)),
            decreases n - i,
        {
            proof {
                assert(slice@.skip(i as int).drop_first() =~= slice@.skip(i + 1));
            }
            i = i + 1;
        }
        proof {
            assert(slice@.skip(i as int) =~= slice@.subrange(i as int, n as int));
        }
        slice.substring_char(i, n)
    }

    /// Parses one Bopomofo syllable from the front of the text.  On
    /// success the syllable and the unconsumed remainder come back; on
    /// an ill-formed syllable the parse fails and consumes nothing.
    #[verifier::rlimit(60)]
    pub fn parse_bopomofo(slice: &str) -> (r: Result<(Syllable, &str), ParseBopomofoError>)
        ensures
            r matches Ok(p) ==> parse_bopomofo_spec(slice@) == Some((p.0, p.1@)),
            r is Err ==> parse_bopomofo_spec(slice@) is None,
    {
        let u = Self::skip_separators(slice);
        let n = u.unicode_len();
        let ghost uv = u@;
        let mut i: usize = 0;
        let mut neut = false;
        if n > 0 && u.get_char(0) == '˙' {
            neut = true;
            i = 1;
        }
        proof {
            assert((if neut { uv.drop_first() } else { uv }) =~= uv.skip(i as int));
        }
        let ghost v1 = uv.skip(i as int);
        let mut init = Init::NoInit;
        let mut got_init = false;
        if i < n {
            match Init::from_bopomofo_char(u.get_char(i)) {
                Some(x) => {
                    init = x;
                    got_init = true;
                    i = i + 1;
                },
                None => {},
            }
        }
        proof {
            assert((if got_init { v1.drop_first() } else { v1 }) =~= uv.skip(i as int));
        }
        let ghost v2 = uv.skip(i as int);
        let mut med = Med::NoMed;
        let mut got_med = false;
        if i < n {
            match Med::from_bopomofo_char(u.get_char(i)) {
                Some(x) => {
                    med = x;
                    got_med = true;
                    i = i + 1;
                },
                None => {},
            }
        }
        proof {
            assert((if got_med { v2.drop_first() } else { v2 }) =~= uv.skip(i as int));
        }
        let ghost v3 = uv.skip(i as int);
        let mut rime = Rime::NoRime;
        let mut got_rime = false;
        if i < n {
            match Rime::from_bopomofo_char(u.get_char(i)) {
                Some(x) => {
                    rime = x;
                    got_rime = true;
                    i = i + 1;
                },
                None => {},
            }
        }
        proof {
            assert((if got_rime { v3.drop_first() } else { v3 }) =~= uv.skip(i as int));
        }
        let ghost v4 = uv.skip(i as int);
        let mut tone = Tone::Level;
        let mut got_tone = false;
        if neut {
            tone = Tone::Neut;
        } else if i < n {
            match Tone::from_mark_char(u.get_char(i)) {
                Some(t) => {
                    tone = t;
                    got_tone = true;
                    i = i + 1;
                },
                None => {},
            }
        }
        proof {
            assert((if got_tone { v4.drop_first() } else { v4 }) =~= uv.skip(i as int));
        }
        let apical = init.code() >= 15 && init.code() <= 21;
        if got_med || got_rime || apical {
            let rest = u.substring_char(i, n);
            let syl = Syllable { init, med, rime, tone };
            proof {
                assert(uv.skip(i as int) =~= uv.subrange(i as int, n as int));
                assert(parse_bopomofo_spec(slice@) == Some((syl, rest@)));
            }
            Ok((syl, rest))
        } else {
            Err(ParseBopomofoError)
        }
    }

    /// Reads the Pinyin initial letters from the front of the text.
    /// Never fails: when no initial letter is found, nothing is
    /// consumed and no mark comes back.
    fn parse_pinyin_initial(txt: &str) -> (r: (InitMark, &str))
        ensures
            pinyin_initial_spec(txt@) == (r.0, r.1@),
    {
        let u = Self::skip_separators(txt);
        let n = u.unicode_len();
        if n == 0 {
            return (InitMark::NoMark, u);
        }
        let c = u.get_char(0);
        match data::pinyin_letter_to_init(c) {
            Some(i) => {
                let zcs = matches!(i, Init::Zi | Init::Ci | Init::Si);
                if zcs && n >= 2 && u.get_char(1) == 'h' {
                    let up = match i {
                        Init::Zi => Init::Zhi,
                        Init::Ci => Init::Chi,
                        _ => Init::Shi,
                    };
                    (InitMark::Real(up), u.substring_char(2, n))
                } else {
                    proof {
                        assert(u@.drop_first() =~= u@.subrange(1, n as int));
                    }
                    (InitMark::Real(i), u.substring_char(1, n))
                }
            },
            None => {
                if c == 'w' {
                    proof {
                        assert(u@.drop_first() =~= u@.subrange(1, n as int));
                    }
                    (InitMark::WMark, u.substring_char(1, n))
                } else if c == 'y' {
                    proof {
                        assert(u@.drop_first() =~= u@.subrange(1, n as int));
                    }
                    (InitMark::YMark, u.substring_char(1, n))
                } else {
                    (InitMark::NoMark, u)
                }
            },
        }
    }

    /// The adjustment pass of the Pinyin parsers (see
    /// [`adjust_pinyin_parts`]).
    fn adjust_parts(mark: InitMark, med: Med, rime: Rime) -> (r: (Init, Med))
        ensures
            r == adjust_pinyin_parts(mark, med, rime),
    {
        let init = match mark {
            InitMark::Real(i) => i,
            _ => Init::NoInit,
        };
        let is_w = matches!(mark, InitMark::WMark);
        let is_y = matches!(mark, InitMark::YMark);
        let code = init.code();
        if matches!(med, Med::Wu) && (12 <= code && code <= 14 || is_y) {
            (init, Med::Yu)
        } else if matches!(med, Med::Yi) && 15 <= code && code <= 21 && matches!(
            rime,
            Rime::NoRime,
        ) {
            (init, Med::NoMed)
        } else if (is_w || is_y) && !matches!(med, Med::Yu) {
            (init, if is_w {
                Med::Wu
            } else {
                Med::Yi
            })
        } else {
            (init, med)
        }
    }

    /// Parses one standard Pinyin syllable, with its tone diacritics,
    /// from the front of the text.  On success the syllable and the
    /// unconsumed remainder come back.
    pub fn parse_pinyin(txt: &str) -> (r: Result<(Syllable, &str), ParseBopomofoError>)
        ensures
            r matches Ok(p) ==> parse_pinyin_spec(txt@) == Some((p.0, p.1@)),
            r is Err ==> parse_pinyin_spec(txt@) is None,
    {
        let (mark, rest) = Self::parse_pinyin_initial(txt);
        if rest.is_empty() {
            return Err(ParseBopomofoError);
        }
        let tree = data::get_pinyin_toned_rime_tree();
        proof {
            data::lemma_toned_tree_find(tree, rest@);
        }
        match tree.find(rest) {
            Some((v, remainder)) => {
                let (med, rime, tn) = v;
                let im = Self::adjust_parts(mark, med, rime);
                let tone = tone_of_code(tn);
                Ok((Syllable { init: im.0, med: im.1, rime, tone }, remainder))
            },
            None => Err(ParseBopomofoError),
        }
    }

    /// Parses one ASCII Pinyin syllable, `v` standing for ü and an
    /// optional trailing digit giving the tone, from the front of the
    /// text.  On success the syllable and the unconsumed remainder
    /// come back.
    pub fn parse_ascii_pinyin(txt: &str) -> (r: Result<(Syllable, &str), ParseBopomofoError>)
        ensures
            r matches Ok(p) ==> parse_ascii_pinyin_spec(txt@) == Some((p.0, p.1@)),
            r is Err ==> parse_ascii_pinyin_spec(txt@) is None,
    {
        let (mark, rest) = Self::parse_pinyin_initial(txt);
        if rest.is_empty() {
            return Err(ParseBopomofoError);
        }
        let tree = data::get_pinyin_untoned_rime_tree();
        proof {
            data::lemma_untoned_tree_find(tree, rest@);
        }
        match tree.find(rest) {
            Some((v, remainder)) => {
                let (med, rime) = v;
                let im = Self::adjust_parts(mark, med, rime);
                let m = remainder.unicode_len();
                let mut tone = Tone::NoTone;
                let mut rem2 = remainder;
                if m > 0 {
                    let d = remainder.get_char(0);
                    let du = d as u32;
                    if 0x31 <= du && du <= 0x35 {
                        tone = tone_of_code((du - 0x30) as u8);
                        proof {
                            assert(remainder@.drop_first() =~= remainder@.subrange(1, m as int));
                        }
                        rem2 = remainder.substring_char(1, m);
                    }
                }
                Ok((Syllable { init: im.0, med: im.1, rime, tone }, rem2))
            },
            None => Err(ParseBopomofoError),
        }
    }

    /// The Pinyin initial letters of this syllable (see
    /// [`pinyin_initial_letters`]).
    fn pinyin_initial_str(&self) -> (r: &'static str)
        ensures
            r@ == pinyin_initial_letters(*self),
    {
        if matches!(self.init, Init::NoInit) && !matches!(self.med, Med::NoMed) {
            match self.med {
                Med::Wu => "w",
                _ => "y",
            }
        } else {
            match self.init {
                Init::NoInit => "",
                Init::Bo => "b",
                Init::Po => "p",
                Init::Mo => "m",
                Init::Fo => "f",
                Init::De => "d",
                Init::Te => "t",
                Init::Ne => "n",
                Init::Le => "l",
                Init::Ge => "g",
                Init::Ke => "k",
                Init::He => "h",
                Init::Ji => "j",
                Init::Qi => "q",
                Init::Xi => "x",
                Init::Zhi => "zh",
                Init::Chi => "ch",
                Init::Shi => "sh",
                Init::Ri => "r",
                Init::Zi => "z",
                Init::Ci => "c",
                Init::Si => "s",
            }
        }
    }

    /// The resolved Pinyin spelling parts of this syllable's final
    /// (see [`rime_parts_spec`]).
    fn rime_parts(&self) -> (r: (char, char, &'static str))
        ensures
            rime_parts_spec(*self) == (r.0, r.1, r.2@),
    {
        let mut med: char = match self.med {
            Med::Yi => 'i',
            Med::Wu => 'u',
            Med::Yu => 'ü',
            Med::NoMed => '\0',
        };
        let mut nuc: char;
        let mut coda: &'static str;
        if matches!(self.rime, Rime::NoRime) && !matches!(self.med, Med::NoMed) {
            let p = match self.med {
                Med::Yi => ('i', ""),
                Med::Wu => ('u', ""),
                _ => ('ü', ""),
            };
            nuc = p.0;
            coda = p.1;
        } else {
            let p = match self.rime {
                Rime::NoRime => ('i', ""),
                Rime::A => ('a', ""),
                Rime::O => ('o', ""),
                Rime::E => ('e', ""),
                Rime::Eh => ('e', ""),
                Rime::Ai => ('a', "i"),
                Rime::Ei => ('e', "i"),
                Rime::Ao => ('a', "o"),
                Rime::Ou => ('o', "u"),
                Rime::An => ('a', "n"),
                Rime::En => ('e', "n"),
                Rime::Ang => ('a', "ng"),
                Rime::Eng => ('e', "ng"),
                Rime::Er => ('e', "r"),
            };
            nuc = p.0;
            coda = p.1;
        }
        if med == nuc {
            med = '\0';
        }
        let is_w = matches!(self.init, Init::NoInit) && matches!(self.med, Med::Wu);
        let is_y = matches!(self.init, Init::NoInit) && !matches!(self.med, Med::NoMed) && !is_w;
        if !is_w && matches!(self.med, Med::Wu) && matches!(self.rime, Rime::Ei) {
            nuc = 'i';
            coda = "";
        } else if !is_y && matches!(self.med, Med::Yi) && matches!(self.rime, Rime::Ou) {
            nuc = 'u';
            coda = "";
        }
        if !is_w && !matches!(self.med, Med::NoMed) && matches!(self.rime, Rime::En | Rime::Eng) {
            med = '\0';
            match self.med {
                Med::Yi => {
                    nuc = 'i';
                },
                Med::Wu => {
                    nuc = if matches!(self.rime, Rime::Eng) {
                        'o'
                    } else {
                        'u'
                    };
                },
                _ => {
                    if matches!(self.rime, Rime::Eng) {
                        med = 'i';
                        nuc = 'o';
                    } else {
                        nuc = 'ü';
                    }
                },
            }
        }
        let code = self.init.code();
        let jqx = 12 <= code && code <= 14;
        if is_y || jqx {
            if matches!(self.med, Med::Yu) {
                if nuc == 'ü' || matches!(self.rime, Rime::En) {
                    nuc = 'u';
                } else if !matches!(self.rime, Rime::Eng) {
                    med = 'u';
                }
            }
            if is_y && (matches!(self.med, Med::Yi) || med == 'i') {
                med = '\0';
            }
        } else if is_w {
            med = '\0';
        }
        (med, nuc, coda)
    }

    /// The nucleus letter carrying the mark of the given tone.
    fn toned_nucleus_letter(nuc: char, t: Tone) -> (r: char)
        ensures
            r == toned_nucleus(nuc, t),
    {
        match nuc {
            'a' => match t {
                Tone::Level => 'ā',
                Tone::Rise => 'á',
                Tone::Dip => 'ǎ',
                Tone::Fall => 'à',
                _ => 'a',
            },
            'e' => match t {
                Tone::Level => 'ē',
                Tone::Rise => 'é',
                Tone::Dip => 'ě',
                Tone::Fall => 'è',
                _ => 'e',
            },
            'i' => match t {
                Tone::Level => 'ī',
                Tone::Rise => 'í',
                Tone::Dip => 'ǐ',
                Tone::Fall => 'ì',
                _ => 'i',
            },
            'o' => match t {
                Tone::Level => 'ō',
                Tone::Rise => 'ó',
                Tone::Dip => 'ǒ',
                Tone::Fall => 'ò',
                _ => 'o',
            },
            'u' => match t {
                Tone::Level => 'ū',
                Tone::Rise => 'ú',
                Tone::Dip => 'ǔ',
                Tone::Fall => 'ù',
                _ => 'u',
            },
            'ü' => match t {
                Tone::Level => 'ǖ',
                Tone::Rise => 'ǘ',
                Tone::Dip => 'ǚ',
                Tone::Fall => 'ǜ',
                _ => 'ü',
            },
            _ => nuc,
        }
    }

    /// Renders this syllable as standard Pinyin with tone diacritics.
    /// Total: any syllable renders, and the empty one renders as the
    /// empty string.
    pub fn to_pinyin(&self) -> (r: String)
        ensures
            r@ == to_pinyin_spec(*self),
    {
        let mut out = String::new();
        if self.is_empty() {
            return out;
        }
        out.append(self.pinyin_initial_str());
        let (med, nuc, coda) = self.rime_parts();
        if med != '\0' {
            push_char(&mut out, med);
        }
        push_char(&mut out, Self::toned_nucleus_letter(nuc, self.tone));
        out.append(coda);
        assert(out@ =~= to_pinyin_spec(*self));
        out
    }

    /// Renders this syllable as ASCII Pinyin, ü written v and the tone
    /// as a trailing digit.  Total: any syllable renders, and the
    /// empty one renders as the empty string.
    pub fn to_ascii_pinyin(&self) -> (r: String)
        ensures
            r@ == to_ascii_pinyin_spec(*self),
    {
        let mut out = String::new();
        if self.is_empty() {
            return out;
        }
        out.append(self.pinyin_initial_str());
        let (med, nuc, coda) = self.rime_parts();
        if med != '\0' {
            push_char(&mut out, med);
        }
        push_char(&mut out, if nuc == 'ü' {
            'v'
        } else {
            nuc
        });
        out.append(coda);
        if !matches!(self.tone, Tone::NoTone) {
            let d = match self.tone {
                Tone::Level => '1',
                Tone::Rise => '2',
                Tone::Dip => '3',
                Tone::Fall => '4',
                _ => '5',
            };
            push_char(&mut out, d);
        }
        assert(out@ =~= to_ascii_pinyin_spec(*self));
        out
    }

    /// Reads one syllable from the text: Bopomofo is tried first, then
    /// standard Pinyin; the remainder after the syllable is dropped.
    pub fn from_text(text: &str) -> (r: Result<Syllable, ParseBopomofoError>)
        ensures
            match parse_bopomofo_spec(text@) {
                Some(p) => r == Ok::<Syllable, ParseBopomofoError>(p.0),
                None => match parse_pinyin_spec(text@) {
                    Some(q) => r == Ok::<Syllable, ParseBopomofoError>(q.0),
                    None => r is Err,
                },
            },
    {
        match Self::parse_bopomofo(text) {
            Ok((syl, _)) => Ok(syl),
            Err(_) => match Self::parse_pinyin(text) {
                Ok((syl, _)) => Ok(syl),
                Err(e) => Err(e),
            },
        }
    }
}

/// What the shared first step of the Pinyin parsers reads: a true
/// initial, the zero-consonant letter w or y, or nothing.
#[derive(Debug, Clone, Copy, PartialEq, Eq, Structural)]
pub enum InitMark {
    NoMark,
    Real(Init),
    WMark,
    YMark,
}

/// Reading the Pinyin initial letters from the front of the text,
/// after the separators: one letter from the initial table, with a
/// trailing h turning z, c and s into zh, ch and sh; the letters w and
/// y are recorded as zero-consonant markers.  Nothing is consumed when
/// no initial letter is found.
pub open spec fn pinyin_initial_spec(t: Seq<char>) -> (InitMark, Seq<char>) {
    let u = skip_separators_spec(t);
    if u.len() == 0 {
        (InitMark::NoMark, u)
    } else {
        match data::pinyin_letter_init(u[0]) {
            Some(i) => {
                if (i == Init::Zi || i == Init::Ci || i == Init::Si) && u.len() >= 2 && u[1]
                    == 'h' {
                    (
                        InitMark::Real(
                            match i {
                                Init::Zi => Init::Zhi,
                                Init::Ci => Init::Chi,
                                _ => Init::Shi,
                            },
                        ),
                        u.skip(2),
                    )
                } else {
                    (InitMark::Real(i), u.drop_first())
                }
            },
            None => {
                if u[0] == 'w' {
                    (InitMark::WMark, u.drop_first())
                } else if u[0] == 'y' {
                    (InitMark::YMark, u.drop_first())
                } else {
                    (InitMark::NoMark, u)
                }
            },
        }
    }
}

/// The adjustment pass that reconciles Pinyin spelling with the
/// four-slot Bopomofo model: the zero-consonant markers w and y are
/// cleared; u after j, q, x or y is read as the medial ü; i after an
/// apical initial with no rime is the rime-less buzz, not the medial;
/// and a remaining w or y reconstructs its implicit medial u or i.
pub open spec fn adjust_pinyin_parts(mark: InitMark, med: Med, rime: Rime) -> (Init, Med) {
    let init = match mark {
        InitMark::Real(i) => i,
        _ => Init::NoInit,
    };
    let is_w = mark == InitMark::WMark;
    let is_y = mark == InitMark::YMark;
    if med == Med::Wu && (12 <= init_code(init) <= 14 || is_y) {
        (init, Med::Yu)
    } else if med == Med::Yi && 15 <= init_code(init) <= 21 && rime == Rime::NoRime {
        (init, Med::NoMed)
    } else if (is_w || is_y) && med != Med::Yu {
        (init, if is_w {
            Med::Wu
        } else {
            Med::Yi
        })
    } else {
        (init, med)
    }
}

/// The tone with the given code, the unspecified tone for any integer
/// outside the tone range.
pub open spec fn tone_from_int(n: int) -> Tone {
    if n == 1 {
        Tone::Level
    } else if n == 2 {
        Tone::Rise
    } else if n == 3 {
        Tone::Dip
    } else if n == 4 {
        Tone::Fall
    } else if n == 5 {
        Tone::Neut
    } else {
        Tone::NoTone
    }
}

/// What parsing standard Pinyin from the front of `t` yields: the
/// initial letters, then the longest match in the toned-final
/// dictionary, then the adjustment pass.  The parse fails when no
/// final can be matched after the initial.
pub open spec fn parse_pinyin_spec(t: Seq<char>) -> Option<(Syllable, Seq<char>)> {
    let mu = pinyin_initial_spec(t);
    let u = mu.1;
    if u.len() == 0 {
        None
    } else {
        match data::toned_find(u) {
            Some(vr) => {
                let im = adjust_pinyin_parts(mu.0, vr.0.0, vr.0.1);
                Some(
                    (
                        Syllable {
                            init: im.0,
                            med: im.1,
                            rime: vr.0.1,
                            tone: tone_from_int(vr.0.2 as int),
                        },
                        vr.1,
                    ),
                )
            },
            None => None,
        }
    }
}

/// What parsing ASCII Pinyin from the front of `t` yields: as with
/// standard Pinyin but over the untoned finals, with a digit 1 to 5
/// right after the matched final read as the tone, and the tone left
/// unspecified when no digit follows.
pub open spec fn parse_ascii_pinyin_spec(t: Seq<char>) -> Option<(Syllable, Seq<char>)> {
    let mu = pinyin_initial_spec(t);
    let u = mu.1;
    if u.len() == 0 {
        None
    } else {
        match data::untoned_find(u) {
            Some(vr) => {
                let im = adjust_pinyin_parts(mu.0, vr.0.0, vr.0.1);
                let rem = vr.1;
                let digit = rem.len() > 0 && ('1' as u32) <= (rem[0] as u32) <= ('5' as u32);
                Some(
                    (
                        Syllable {
                            init: im.0,
                            med: im.1,
                            rime: vr.0.1,
                            tone: if digit {
                                tone_from_int(rem[0] as u32 - '0' as u32)
                            } else {
                                Tone::NoTone
                            },
                        },
                        if digit {
                            rem.drop_first()
                        } else {
                            rem
                        },
                    ),
                )
            },
            None => None,
        }
    }
}

/// The Pinyin initial letters of a syllable: the letters of its
/// initial, or — for a zero initial with a medial present — the
/// zero-consonant letter y or w that Pinyin writes before the medial.
pub open spec fn pinyin_initial_letters(s: Syllable) -> Seq<char> {
    if s.init == Init::NoInit && s.med != Med::NoMed {
        match s.med {
            Med::Wu => "w"@,
            _ => "y"@,
        }
    } else {
        match s.init {
            Init::NoInit => ""@,
            Init::Bo => "b"@,
            Init::Po => "p"@,
            Init::Mo => "m"@,
            Init::Fo => "f"@,
            Init::De => "d"@,
            Init::Te => "t"@,
            Init::Ne => "n"@,
            Init::Le => "l"@,
            Init::Ge => "g"@,
            Init::Ke => "k"@,
            Init::He => "h"@,
            Init::Ji => "j"@,
            Init::Qi => "q"@,
            Init::Xi => "x"@,
            Init::Zhi => "zh"@,
            Init::Chi => "ch"@,
            Init::Shi => "sh"@,
            Init::Ri => "r"@,
            Init::Zi => "z"@,
            Init::Ci => "c"@,
            Init::Si => "s"@,
        }
    }
}

/// The resolved Pinyin spelling parts of a syllable's final: the
/// medial letter (or the sentinel), the nucleus letter that carries
/// any tone mark, and the coda letters.  Applies, in order: the rime's
/// letter pair (or the medial's own bare vowel when the rime is
/// absent), doubled-vowel elision, the uei-to-ui and iou-to-iu
/// contractions, medial absorption before the nasal codas, the ü
/// simplification after j, q, x and y, and the bare-medial elisions
/// after the zero-consonant w and y.
pub open spec fn rime_parts_spec(s: Syllable) -> (char, char, Seq<char>) {
    let med0: char = match s.med {
        Med::Yi => 'i',
        Med::Wu => 'u',
        Med::Yu => 'ü',
        Med::NoMed => '\0',
    };
    let nc: (char, Seq<char>) = if s.rime == Rime::NoRime && s.med != Med::NoMed {
        match s.med {
            Med::Yi => ('i', ""@),
            Med::Wu => ('u', ""@),
            _ => ('ü', ""@),
        }
    } else {
        match s.rime {
            Rime::NoRime => ('i', ""@),
            Rime::A => ('a', ""@),
            Rime::O => ('o', ""@),
            Rime::E => ('e', ""@),
            Rime::Eh => ('e', ""@),
            Rime::Ai => ('a', "i"@),
            Rime::Ei => ('e', "i"@),
            Rime::Ao => ('a', "o"@),
            Rime::Ou => ('o', "u"@),
            Rime::An => ('a', "n"@),
            Rime::En => ('e', "n"@),
            Rime::Ang => ('a', "ng"@),
            Rime::Eng => ('e', "ng"@),
            Rime::Er => ('e', "r"@),
        }
    };
    let med1 = if med0 == nc.0 {
        '\0'
    } else {
        med0
    };
    let is_w = s.init == Init::NoInit && s.med == Med::Wu;
    let is_y = s.init == Init::NoInit && s.med != Med::NoMed && !is_w;
    let nc1: (char, Seq<char>) = if !is_w && s.med == Med::Wu && s.rime == Rime::Ei {
        ('i', ""@)
    } else if !is_y && s.med == Med::Yi && s.rime == Rime::Ou {
        ('u', ""@)
    } else {
        nc
    };
    let mn: (char, char) = if !is_w && s.med != Med::NoMed && (s.rime == Rime::En || s.rime
        == Rime::Eng) {
        match s.med {
            Med::Yi => ('\0', 'i'),
            Med::Wu => (
                '\0',
                if s.rime == Rime::Eng {
                    'o'
                } else {
                    'u'
                },
            ),
            _ => if s.rime == Rime::Eng {
                ('i', 'o')
            } else {
                ('\0', 'ü')
            },
        }
    } else {
        (med1, nc1.0)
    };
    let jqx = 12 <= init_code(s.init) <= 14;
    let mn1: (char, char) = if (is_y || jqx) && s.med == Med::Yu {
        if mn.1 == 'ü' || s.rime == Rime::En {
            (mn.0, 'u')
        } else if s.rime != Rime::Eng {
            ('u', mn.1)
        } else {
            mn
        }
    } else {
        mn
    };
    let medf: char = if is_y || jqx {
        if is_y && (s.med == Med::Yi || mn1.0 == 'i') {
            '\0'
        } else {
            mn1.0
        }
    } else if is_w {
        '\0'
    } else {
        mn1.0
    };
    (medf, mn1.1, nc1.1)
}

/// The nucleus letter carrying the mark of the given tone; the level
/// tone takes the macron, the neutral and unspecified tones the bare
/// letter.
pub open spec fn toned_nucleus(nuc: char, t: Tone) -> char {
    if nuc == 'a' {
        match t {
            Tone::Level => 'ā',
            Tone::Rise => 'á',
            Tone::Dip => 'ǎ',
            Tone::Fall => 'à',
            _ => 'a',
        }
    } else if nuc == 'e' {
        match t {
            Tone::Level => 'ē',
            Tone::Rise => 'é',
            Tone::Dip => 'ě',
            Tone::Fall => 'è',
            _ => 'e',
        }
    } else if nuc == 'i' {
        match t {
            Tone::Level => 'ī',
            Tone::Rise => 'í',
            Tone::Dip => 'ǐ',
            Tone::Fall => 'ì',
            _ => 'i',
        }
    } else if nuc == 'o' {
        match t {
            Tone::Level => 'ō',
            Tone::Rise => 'ó',
            Tone::Dip => 'ǒ',
            Tone::Fall => 'ò',
            _ => 'o',
        }
    } else if nuc == 'u' {
        match t {
            Tone::Level => 'ū',
            Tone::Rise => 'ú',
            Tone::Dip => 'ǔ',
            Tone::Fall => 'ù',
            _ => 'u',
        }
    } else if nuc == 'ü' {
        match t {
            Tone::Level => 'ǖ',
            Tone::Rise => 'ǘ',
            Tone::Dip => 'ǚ',
            Tone::Fall => 'ǜ',
            _ => 'ü',
        }
    } else {
        nuc
    }
}

/// The digit character of a tone code, for the ASCII notation.
pub open spec fn tone_digit(t: Tone) -> char {
    match t {
        Tone::NoTone => '\0',
        Tone::Level => '1',
        Tone::Rise => '2',
        Tone::Dip => '3',
        Tone::Fall => '4',
        Tone::Neut => '5',
    }
}

/// The standard Pinyin rendering of a syllable: initial letters,
/// medial letter if one remains after the adjustments, the nucleus
/// letter carrying the tone mark, and the coda.  An empty syllable
/// renders as the empty string.
pub open spec fn to_pinyin_spec(s: Syllable) -> Seq<char> {
    if s == (Syllable { init: Init::NoInit, med: Med::NoMed, rime: Rime::NoRime, tone: Tone::NoTone }) {
        Seq::empty()
    } else {
        let parts = rime_parts_spec(s);
        pinyin_initial_letters(s) + (if parts.0 != '\0' {
            seq![parts.0]
        } else {
            Seq::empty()
        }) + seq![toned_nucleus(parts.1, s.tone)] + parts.2
    }
}

/// The ASCII Pinyin rendering of a syllable: as the standard one, but
/// the bare nucleus letter with ü written v, and the tone written as
/// a trailing digit, or not at all when unspecified.  An empty
/// syllable renders as the empty string.
pub open spec fn to_ascii_pinyin_spec(s: Syllable) -> Seq<char> {
    if s == (Syllable { init: Init::NoInit, med: Med::NoMed, rime: Rime::NoRime, tone: Tone::NoTone }) {
        Seq::empty()
    } else {
        let parts = rime_parts_spec(s);
        pinyin_initial_letters(s) + (if parts.0 != '\0' {
            seq![parts.0]
        } else {
            Seq::empty()
        }) + seq![
            if parts.1 == 'ü' {
                'v'
            } else {
                parts.1
            },
        ] + parts.2 + (if s.tone != Tone::NoTone {
            seq![tone_digit(s.tone)]
        } else {
            Seq::empty()
        })
    }
}

/// The tone with the given code; any integer outside the tone range
/// is read as the unspecified tone.
fn tone_of_code(v: u8) -> (r: Tone)
    ensures
        r == tone_from_int(v as int),
{
    match v {
        1 => Tone::Level,
        2 => Tone::Rise,
        3 => Tone::Dip,
        4 => Tone::Fall,
        5 => Tone::Neut,
        _ => Tone::NoTone,
    }
}

/// Law: the ordering key orders the syllables totally and agrees with
/// equality — for any two syllables exactly one of key-below, equal and
/// key-above holds, so sorting by the key never conflates distinct
/// syllables.
pub proof fn lemma_ord_total_order(a: Syllable, b: Syllable)
    ensures
        (a == b) <==> (ord_spec(a) == ord_spec(b)),
        ord_spec(a) < ord_spec(b) || a == b || ord_spec(a) > ord_spec(b),
{
    if ord_spec(a) == ord_spec(b) {
        let ta = tone_code(a.tone);
        let tb = tone_code(b.tone);
        let ra = rime_code(a.rime);
        let rb = rime_code(b.rime);
        let ma = med_code(a.med);
        let mb = med_code(b.med);
        let ia: int = if a.init == Init::NoInit {
            40
        } else {
            init_code(a.init)
        };
        let ib: int = if b.init == Init::NoInit {
            40
        } else {
            init_code(b.init)
        };
        assert(0 <= ta <= 5 && 0 <= tb <= 5);
        assert(0 <= ra <= 13 && 0 <= rb <= 13);
        assert(0 <= ma <= 3 && 0 <= mb <= 3);
        assert(1 <= ia <= 40 && 1 <= ib <= 40);
        let xa = ra + ma * 41 + ia * 41 * 41;
        let xb = rb + mb * 41 + ib * 41 * 41;
        assert(ta + xa * 41 == tb + xb * 41);
        assert(ta == tb && xa == xb);
        let ya = ma + ia * 41;
        let yb = mb + ib * 41;
        assert(ra + ya * 41 == rb + yb * 41);
        assert(ra == rb && ya == yb);
        assert(ma == mb && ia == ib);
        assert(a.tone == b.tone);
        assert(a.rime == b.rime);
        assert(a.med == b.med);
        assert(a.init == b.init);
    }
}

/// Law: round trip through the Bopomofo renderer — every syllable that
/// a successful Bopomofo parse can produce parses back from its own
/// rendering, exactly and with nothing left over.
pub proof fn lemma_parse_display_round_trip(s: Syllable)
    requires
        parse_acceptable(s),
    ensures
        parse_bopomofo_spec(display_spec(s)) == Some((s, Seq::<char>::empty())),
{
    let empty = Seq::<char>::empty();
    let p1: Seq<char> = if s.tone == Tone::Neut {
        seq!['˙']
    } else {
        empty
    };
    let p2: Seq<char> = if s.init != Init::NoInit {
        seq![init_char_spec(s.init)]
    } else {
        empty
    };
    let p3: Seq<char> = if s.med != Med::NoMed {
        seq![med_char_spec(s.med)]
    } else {
        empty
    };
    let p4: Seq<char> = if s.rime != Rime::NoRime {
        seq![rime_char_spec(s.rime)]
    } else {
        empty
    };
    let p5: Seq<char> = if s.tone == Tone::Rise || s.tone == Tone::Dip || s.tone == Tone::Fall {
        seq![tone_char_spec(s.tone)]
    } else {
        empty
    };
    let d = display_spec(s);
    assert(d == p1 + p2 + p3 + p4 + p5);
    assert(d.len() > 0);
    assert(forall|i: Init| #[trigger] char_init(init_char_spec(i)) == if i == Init::NoInit {
        None::<Init>
    } else {
        Some(i)
    });
    assert(forall|m: Med| #[trigger] char_med(med_char_spec(m)) == if m == Med::NoMed {
        None::<Med>
    } else {
        Some(m)
    });
    assert(forall|x: Rime| #[trigger] char_rime(rime_char_spec(x)) == if x == Rime::NoRime {
        None::<Rime>
    } else {
        Some(x)
    });
    assert(forall|t: Tone| #[trigger] char_tone(tone_char_spec(t)) == if t == Tone::NoTone {
        None::<Tone>
    } else {
        Some(t)
    });
    assert(forall|i: Init| !is_separator_char(#[trigger] init_char_spec(i)));
    assert(forall|m: Med| !is_separator_char(#[trigger] med_char_spec(m)));
    assert(forall|x: Rime| !is_separator_char(#[trigger] rime_char_spec(x)));
    assert(forall|t: Tone| !is_separator_char(#[trigger] tone_char_spec(t)));
    assert(forall|m: Med| char_init(#[trigger] med_char_spec(m)) is None);
    assert(forall|x: Rime| char_init(#[trigger] rime_char_spec(x)) is None);
    assert(forall|t: Tone| char_init(#[trigger] tone_char_spec(t)) is None);
    assert(forall|x: Rime| char_med(#[trigger] rime_char_spec(x)) is None);
    assert(forall|t: Tone| char_med(#[trigger] tone_char_spec(t)) is None);
    assert(forall|t: Tone| char_rime(#[trigger] tone_char_spec(t)) is None);
    assert(forall|i: Init| char_tone(#[trigger] init_char_spec(i)) is None);
    assert(forall|m: Med| char_tone(#[trigger] med_char_spec(m)) is None);
    assert(forall|x: Rime| char_tone(#[trigger] rime_char_spec(x)) is None);
    assert(!is_separator_char(d[0]));
    assert(skip_separators_spec(d) == d);
    let neut = s.tone == Tone::Neut;
    assert((d[0] == '˙') == neut);
    let u1 = if neut {
        d.drop_first()
    } else {
        d
    };
    assert(u1 =~= p2 + p3 + p4 + p5);
    let oi = if u1.len() > 0 {
        char_init(u1[0])
    } else {
        None
    };
    assert(oi == if s.init == Init::NoInit {
        None::<Init>
    } else {
        Some(s.init)
    });
    let u2 = if oi is Some {
        u1.drop_first()
    } else {
        u1
    };
    assert(u2 =~= p3 + p4 + p5);
    let om = if u2.len() > 0 {
        char_med(u2[0])
    } else {
        None
    };
    assert(om == if s.med == Med::NoMed {
        None::<Med>
    } else {
        Some(s.med)
    });
    let u3 = if om is Some {
        u2.drop_first()
    } else {
        u2
    };
    assert(u3 =~= p4 + p5);
    let orr = if u3.len() > 0 {
        char_rime(u3[0])
    } else {
        None
    };
    assert(orr == if s.rime == Rime::NoRime {
        None::<Rime>
    } else {
        Some(s.rime)
    });
    let u4 = if orr is Some {
        u3.drop_first()
    } else {
        u3
    };
    assert(u4 =~= p5);
    let ot = if !neut && u4.len() > 0 {
        char_tone(u4[0])
    } else {
        None
    };
    let u5 = if ot is Some {
        u4.drop_first()
    } else {
        u4
    };
    assert(u5 =~= empty);
    assert(parse_bopomofo_spec(d) == Some((s, u5)));
}

impl vstd::std_specs::cmp::PartialOrdSpecImpl for Syllable {
    open spec fn obeys_partial_cmp_spec() -> bool {
        true
    }

    open spec fn partial_cmp_spec(&self, other: &Syllable) -> Option<core::cmp::Ordering> {
        if ord_spec(*self) < ord_spec(*other) {
            Some(core::cmp::Ordering::Less)
        } else if ord_spec(*self) == ord_spec(*other) {
            Some(core::cmp::Ordering::Equal)
        } else {
            Some(core::cmp::Ordering::Greater)
        }
    }
}

impl PartialOrd for Syllable {
    /// Syllables compare by their ordering key.
    fn partial_cmp(&self, other: &Syllable) -> (r: Option<core::cmp::Ordering>) {
        let a = self.ord();
        let b = other.ord();
        if a < b {
            Some(core::cmp::Ordering::Less)
        } else if a == b {
            Some(core::cmp::Ordering::Equal)
        } else {
            Some(core::cmp::Ordering::Greater)
        }
    }
}

/// Law: the Bopomofo rendering separates syllables — two acceptable
/// syllables with the same rendering are the same syllable.
pub proof fn lemma_display_injective(a: Syllable, b: Syllable)
    requires
        parse_acceptable(a),
        parse_acceptable(b),
        display_spec(a) == display_spec(b),
    ensures
        a == b,
{
    lemma_parse_display_round_trip(a);
    lemma_parse_display_round_trip(b);
}

/// Law: a successful standard Pinyin parse yields an acceptable
/// syllable — a medial or a rime is present, or the initial is an
/// apical, and the tone is set — just as a successful Bopomofo parse
/// does.
pub proof fn lemma_parse_pinyin_acceptable(t: Seq<char>)
    ensures
        parse_pinyin_spec(t) matches Some(p) ==> parse_acceptable(p.0),
{
    let mu = pinyin_initial_spec(t);
    let u = mu.1;
    data::lemma_toned_val_shape(u.take(data::toned_depth_upto(u, u.len() as int)));
}

/// Law: a successful ASCII Pinyin parse yields a syllable that meets
/// the structural acceptance condition — a medial or a rime is
/// present, or the initial is an apical.  The tone alone may stay
/// unspecified, when no digit follows the final.
pub proof fn lemma_parse_ascii_pinyin_acceptable(t: Seq<char>)
    ensures
        parse_ascii_pinyin_spec(t) matches Some(p) ==> (p.0.med != Med::NoMed || p.0.rime
            != Rime::NoRime || 15 <= init_code(p.0.init) <= 21),
{
    let mu = pinyin_initial_spec(t);
    let u = mu.1;
    data::lemma_untoned_val_shape(u.take(data::untoned_depth_upto(u, u.len() as int)));
}

/// Law: every rendering of the empty syllable — Bopomofo, standard
/// Pinyin and ASCII Pinyin — is the empty string.
pub proof fn lemma_empty_renders_empty()
    ensures
        display_spec(
            Syllable { init: Init::NoInit, med: Med::NoMed, rime: Rime::NoRime, tone: Tone::NoTone },
        ) == Seq::<char>::empty(),
        to_pinyin_spec(
            Syllable { init: Init::NoInit, med: Med::NoMed, rime: Rime::NoRime, tone: Tone::NoTone },
        ) == Seq::<char>::empty(),
        to_ascii_pinyin_spec(
            Syllable { init: Init::NoInit, med: Med::NoMed, rime: Rime::NoRime, tone: Tone::NoTone },
        ) == Seq::<char>::empty(),
{
}

/// Reads one standard Pinyin syllable and renders it as Bopomofo.
pub fn pinyin_to_bopomofo(txt: &str) -> (r: Option<String>)
    ensures
        match parse_pinyin_spec(txt@) {
            Some(p) => r matches Some(s) && s@ == display_spec(p.0),
            None => r is None,
        },
{
    match Syllable::parse_pinyin(txt) {
        Ok((syl, _)) => Some(syl.display()),
        Err(_) => None,
    }
}

/// Reads one Bopomofo syllable and renders it as standard Pinyin.
pub fn bopomofo_to_pinyin(txt: &str) -> (r: Option<String>)
    ensures
        match parse_bopomofo_spec(txt@) {
            Some(p) => r matches Some(s) && s@ == to_pinyin_spec(p.0),
            None => r is None,
        },
{
    match Syllable::parse_bopomofo(txt) {
        Ok((syl, _)) => Some(syl.to_pinyin()),
        Err(_) => None,
    }
}

/// Reads one ASCII Pinyin syllable and renders it as Bopomofo.
pub fn ascii_pinyin_to_bopomofo(txt: &str) -> (r: Option<String>)
    ensures
        match parse_ascii_pinyin_spec(txt@) {
            Some(p) => r matches Some(s) && s@ == display_spec(p.0),
            None => r is None,
        },
{
    match Syllable::parse_ascii_pinyin(txt) {
        Ok((syl, _)) => Some(syl.display()),
        Err(_) => None,
    }
}

/// Reads one ASCII Pinyin syllable and renders it as standard Pinyin.
pub fn ascii_pinyin_to_pinyin(txt: &str) -> (r: Option<String>)
    ensures
        match parse_ascii_pinyin_spec(txt@) {
            Some(p) => r matches Some(s) && s@ == to_pinyin_spec(p.0),
            None => r is None,
        },
{
    match Syllable::parse_ascii_pinyin(txt) {
        Ok((syl, _)) => Some(syl.to_pinyin()),
        Err(_) => None,
    }
}

/// Reads one Bopomofo syllable and renders it as ASCII Pinyin.
pub fn bopomofo_to_ascii_pinyin(txt: &str) -> (r: Option<String>)
    ensures
        match parse_bopomofo_spec(txt@) {
            Some(p) => r matches Some(s) && s@ == to_ascii_pinyin_spec(p.0),
            None => r is None,
        },
{
    match Syllable::parse_bopomofo(txt) {
        Ok((syl, _)) => Some(syl.to_ascii_pinyin()),
        Err(_) => None,
    }
}

/// Reads one standard Pinyin syllable and renders it as ASCII Pinyin.
pub fn pinyin_to_ascii_pinyin(txt: &str) -> (r: Option<String>)
    ensures
        match parse_pinyin_spec(txt@) {
            Some(p) => r matches Some(s) && s@ == to_ascii_pinyin_spec(p.0),
            None => r is None,
        },
{
    match Syllable::parse_pinyin(txt) {
        Ok((syl, _)) => Some(syl.to_ascii_pinyin()),
        Err(_) => None,
    }
}

impl Default for Syllable {
    /// The default syllable is the empty syllable.
    fn default() -> (r: Syllable)
        ensures
            r == (Syllable {
                init: Init::NoInit,
                med: Med::NoMed,
                rime: Rime::NoRime,
                tone: Tone::NoTone,
            }),
    {
        Syllable { init: Init::NoInit, med: Med::NoMed, rime: Rime::NoRime, tone: Tone::NoTone }
    }
}

} // verus!
