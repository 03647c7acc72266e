use bpmf_py::bpmf::{Init, Med, ParseBopomofoError, Rime, Syllable, Tone};
use Init::{Chi, Fo, Ge, Le, NoInit, Shi, Zhi};
use Med::{NoMed, Wu, Yu};
use Rime::{Ang, Ei, Er, NoRime};
use Tone::{Dip, Fall, Level, Neut, NoTone, Rise};

/// Well-formed Mandarin sounds, each as Bopomofo text beside its
/// standard Pinyin spelling, listed in the syllable order.
const MANDARIN_SOUNDS: [(&str, &str); 35] = [
    ("ㄅㄚ", "bā"),
    ("ㄆㄛˊ", "pó"),
    ("˙ㄇㄚ", "ma"),
    ("ㄇㄧㄥˊ", "míng"),
    ("ㄈㄨ", "fū"),
    ("ㄉㄨㄥ", "dōng"),
    ("ㄊㄧㄢˊ", "tián"),
    ("ㄋㄩˇ", "nǚ"),
    ("ㄌㄩㄝˋ", "lüè"),
    ("ㄍㄦˋ", "gèr"),
    ("ㄎㄨㄟˋ", "kuì"),
    ("ㄏㄠˇ", "hǎo"),
    ("ㄐㄩ", "jū"),
    ("ㄑㄩㄥˊ", "qióng"),
    ("ㄒㄧㄣ", "xīn"),
    ("ㄓ", "zhī"),
    ("ㄔㄨㄤˇ", "chuǎng"),
    ("ㄕˋ", "shì"),
    ("ㄖㄣˊ", "rén"),
    ("ㄗㄡˇ", "zǒu"),
    ("ㄘˊ", "cí"),
    ("ㄙㄨㄥˋ", "sòng"),
    ("ㄦˊ", "ér"),
    ("ㄧ", "yī"),
    ("ㄧㄡˇ", "yǒu"),
    ("ㄧㄣ", "yīn"),
    ("ㄧㄥˊ", "yíng"),
    ("ㄨ", "wū"),
    ("ㄨㄟˊ", "wéi"),
    ("ㄨㄣˋ", "wèn"),
    ("ㄨㄥ", "wēng"),
    ("ㄩ", "yū"),
    ("ㄩㄢˊ", "yuán"),
    ("ㄩㄣ", "yūn"),
    ("ㄩㄥˇ", "yǒng"),
];

#[test]
fn syllable_parser_can_skip_whitespaces_and_return_remaing_str() {
    let s = " \t  　'zhuang3非法";
    let (syl, remainder) = Syllable::parse_ascii_pinyin(s).unwrap();
    assert_eq!(syl, Syllable::new(Zhi, Wu, Ang, Dip));
    assert_eq!(remainder, &s[s.len() - 6..]);
}

#[test]
fn default_syllable_equals_empty_syllable() {
    let syl = Syllable::new(Init::NoInit, Med::NoMed, Rime::NoRime, Tone::NoTone);
    assert_eq!(Syllable::default(), syl);
}

#[test]
fn syllable_can_diplay_as_bopomofo() {
    let chuang3 = Syllable::new(Chi, Wu, Ang, Dip);
    let ei2 = Syllable::new(NoInit, NoMed, Ei, Rise);
    let fu1 = Syllable::new(Fo, Wu, NoRime, Level);
    let ger4 = Syllable::new(Ge, NoMed, Er, Fall);
    let shi5 = Syllable::new(Shi, NoMed, NoRime, Neut);
    assert_eq!(chuang3.display(), "ㄔㄨㄤˇ");
    assert_eq!(ei2.display(), "ㄟˊ");
    assert_eq!(fu1.display(), "ㄈㄨ");
    assert_eq!(ger4.display(), "ㄍㄦˋ");
    assert_eq!(shi5.display(), "˙ㄕ");
}

#[test]
fn syllable_can_parse_bopomofo() {
    let chuang3 = Syllable::new(Chi, Wu, Ang, Dip);
    let ei2 = Syllable::new(NoInit, NoMed, Ei, Rise);
    let fu1 = Syllable::new(Fo, Wu, NoRime, Level);
    let ger4 = Syllable::new(Ge, NoMed, Er, Fall);
    let shi5 = Syllable::new(Shi, NoMed, NoRime, Neut);
    let s_chuang3 = "\tㄔㄨㄤˇ.";
    let s_ei2 = "\nㄟˊ";
    let s_fu1 = "ㄈㄨ奧 ";
    let s_ger4 = "ㄍㄦˋ";
    let s_shi5 = "˙ㄕa";
    assert_eq!(Syllable::from_text(s_chuang3).unwrap(), chuang3);
    assert_eq!(Syllable::from_text(s_ei2).unwrap(), ei2);
    assert_eq!(Syllable::from_text(s_fu1).unwrap(), fu1);
    assert_eq!(Syllable::from_text(s_ger4).unwrap(), ger4);
    assert_eq!(Syllable::from_text(s_shi5).unwrap(), shi5);

    for (bpmf, _) in MANDARIN_SOUNDS {
        let res = Syllable::from_text(bpmf);
        if let Err(ParseBopomofoError) = res {
            panic!("Failed at parsing '{}' ", bpmf)
        }
        assert_eq!(res.unwrap().display(), bpmf);
    }
}

#[test]
fn syllables_have_correct_order() {
    let mut list = vec![];
    for (bpmf, _) in MANDARIN_SOUNDS {
        list.push(Syllable::from_text(bpmf).unwrap());
    }
    let mut sorted = list.clone();
    sorted.reverse();
    sorted.sort_by_key(|syl| syl.ord());
    for (i, syl) in sorted.iter().enumerate() {
        if *syl != list[i] {
            println!("{} - {}", syl.display(), list[i].display());
        }
        assert_eq!(*syl, list[i]);
    }
}

#[test]
fn syllable_can_convert_to_pinyin() {
    for (bpmf, py) in MANDARIN_SOUNDS {
        let res = Syllable::from_text(bpmf);
        if let Err(ParseBopomofoError) = res {
            panic!("Failed at parsing '{}' ", bpmf)
        }
        assert_eq!(res.unwrap().to_pinyin(), py);
    }
}

#[test]
fn syllable_can_parse_pinyin() {
    for (bpmf, py) in MANDARIN_SOUNDS {
        let b_syl = Syllable::from_text(bpmf).unwrap();
        let res = Syllable::parse_pinyin(py);
        if let Err(_) = res {
            println!("Failed at parsing {bpmf} : {py}");
        }
        let (p_syl, _) = res.unwrap();
        assert_eq!(p_syl.to_pinyin(), b_syl.to_pinyin());
    }
}

#[test]
fn syllable_can_convert_to_ascii_pinyin() {
    let chuang3 = Syllable::new(Chi, Wu, Ang, Dip);
    let ei2 = Syllable::new(NoInit, NoMed, Ei, Rise);
    let fu1 = Syllable::new(Fo, Wu, NoRime, Level);
    let ger4 = Syllable::new(Ge, NoMed, Er, Fall);
    let shi5 = Syllable::new(Shi, NoMed, NoRime, Neut);
    let s_chuang3 = "chuang3";
    let s_ei2 = "ei2";
    let s_fu1 = "fu1";
    let s_ger4 = "ger4";
    let s_shi5 = "shi5";
    assert_eq!(chuang3.to_ascii_pinyin(), s_chuang3);
    assert_eq!(ei2.to_ascii_pinyin(), s_ei2);
    assert_eq!(fu1.to_ascii_pinyin(), s_fu1);
    assert_eq!(ger4.to_ascii_pinyin(), s_ger4);
    assert_eq!(shi5.to_ascii_pinyin(), s_shi5);
    assert_eq!(Syllable::new(Le, Yu, NoRime, NoTone).to_ascii_pinyin(), "lv");
}

#[test]
fn syllable_can_parse_ascii_pinyin() {
    for (bpmf, py) in MANDARIN_SOUNDS {
        let b_syl = Syllable::from_text(bpmf).unwrap();
        let ascii = b_syl.to_ascii_pinyin();
        let res = Syllable::parse_ascii_pinyin(&ascii);
        if let Err(_) = res {
            println!("Failed at parsing {bpmf} : {py} : {ascii}");
        }
        let (p_syl, _) = res.unwrap();
        assert_eq!(p_syl.to_pinyin(), b_syl.to_pinyin());
    }
}
