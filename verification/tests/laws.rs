use bpmf_py::bpmf::spell_tree::SpellTree;
use bpmf_py::bpmf::{
    ascii_pinyin_to_bopomofo, ascii_pinyin_to_pinyin, bopomofo_to_ascii_pinyin, bopomofo_to_pinyin,
    pinyin_to_ascii_pinyin, pinyin_to_bopomofo,
};
use bpmf_py::bpmf::data::{
    get_init_bopomofo_to_pinyin_map, get_init_pinyin_to_bopomofo_map, get_pinyin_toned_rime_tree,
    get_pinyin_untoned_rime_tree,
};
use bpmf_py::bpmf::{Init, Med, Rime, Syllable, Tone};

#[test]
fn empty_syllable_renders_as_empty_string_in_all_three_forms() {
    let empty = Syllable::default();
    assert_eq!(empty.display(), "");
    assert_eq!(empty.to_pinyin(), "");
    assert_eq!(empty.to_ascii_pinyin(), "");
}

#[test]
fn ascii_pinyin_parse_equals_direct_construction() {
    let (syl, rest) = Syllable::parse_ascii_pinyin("ruang3").unwrap();
    assert_eq!(syl, Syllable::new(Init::Ri, Med::Wu, Rime::Ang, Tone::Dip));
    assert_eq!(rest, "");
}

#[test]
fn shuai4_displays_as_four_bopomofo_characters() {
    let shuai4 = Syllable::new(Init::Shi, Med::Wu, Rime::Ai, Tone::Fall);
    assert_eq!(shuai4.display(), "ㄕㄨㄞˋ");
}

#[test]
fn bopomofo_parse_returns_syllable_and_remainder() {
    let (kui4, rest) = Syllable::parse_bopomofo("ㄎㄨㄟˋ'ㄖㄣˊ").unwrap();
    assert_eq!(kui4, Syllable::new(Init::Ke, Med::Wu, Rime::Ei, Tone::Fall));
    assert_eq!(rest, "'ㄖㄣˊ");
    let (ren2, rest2) = Syllable::parse_bopomofo(rest).unwrap();
    assert_eq!(ren2, Syllable::new(Init::Ri, Med::NoMed, Rime::En, Tone::Rise));
    assert_eq!(rest2, "");
}

#[test]
fn ill_formed_bopomofo_fails() {
    assert!(Syllable::parse_bopomofo("万X尢").is_err());
}

#[test]
fn rao2_round_trips_through_pinyin() {
    let (syl, _) = Syllable::parse_pinyin("ráo").unwrap();
    assert_eq!(syl.to_pinyin(), "ráo");
}

#[test]
fn lve4_renders_as_lu_umlaut_e_grave() {
    let (syl, _) = Syllable::parse_ascii_pinyin("lve4").unwrap();
    assert_eq!(syl.to_pinyin(), "lüè");
}

#[test]
fn long_form_final_qiou2_normalizes_to_qiu() {
    let (syl, _) = Syllable::parse_ascii_pinyin("qiou2").unwrap();
    assert_eq!(syl.to_pinyin(), "qiú");
}

#[test]
fn sorting_by_syllable_order_puts_zero_initials_last() {
    let spellings = ["zhuan4", "an3", "an1", "bo2", "qi3"];
    let mut syllables: Vec<Syllable> = spellings
        .into_iter()
        .map(|s| Syllable::parse_ascii_pinyin(s).unwrap().0)
        .collect();
    syllables.sort_by(|a, b| a.partial_cmp(b).unwrap());
    let rendered: Vec<String> = syllables.iter().map(Syllable::to_ascii_pinyin).collect();
    assert_eq!(rendered, ["bo2", "qi3", "zhuan4", "an1", "an3"]);
}

#[test]
fn pinyin_rendering_is_a_stable_fixed_point() {
    for ascii in ["zhuan4", "an3", "bo2", "qi3", "lve4", "qiou2", "shi5", "yu1", "weng2"] {
        let (syl, _) = Syllable::parse_ascii_pinyin(ascii).unwrap();
        let py = syl.to_pinyin();
        let (again, _) = Syllable::parse_pinyin(&py).unwrap();
        assert_eq!(again.to_pinyin(), py);
        let ascii2 = syl.to_ascii_pinyin();
        let (third, _) = Syllable::parse_ascii_pinyin(&ascii2).unwrap();
        assert_eq!(third.to_ascii_pinyin(), ascii2);
    }
}

#[test]
fn ordering_key_is_total_and_agrees_with_equality() {
    let a = Syllable::new(Init::Bo, Med::NoMed, Rime::A, Tone::Level);
    let b = Syllable::new(Init::NoInit, Med::NoMed, Rime::A, Tone::Level);
    let c = Syllable::new(Init::Bo, Med::NoMed, Rime::A, Tone::Level);
    assert!(a.ord() < b.ord());
    assert!(a < b);
    assert_eq!(a, c);
    assert_eq!(a.ord(), c.ord());
    assert!(b > a);
    assert_eq!(a.ord(), 1 + 41 + 68921);
}

#[test]
fn accessors_recover_the_parts() {
    let syl = Syllable::new(Init::Ke, Med::Wu, Rime::Ei, Tone::Fall);
    assert_eq!(syl.init(), Init::Ke);
    assert_eq!(syl.med(), Med::Wu);
    assert_eq!(syl.rime(), Rime::Ei);
    assert_eq!(syl.tone(), Tone::Fall);
    assert_eq!(syl.init_char(), 'ㄎ');
    assert_eq!(syl.med_char(), 'ㄨ');
    assert_eq!(syl.rime_char(), 'ㄟ');
    assert_eq!(syl.tone_char(), 'ˋ');
    assert!(!syl.is_empty());
    assert_eq!(syl.byte_len(), 3 + 3 + 3 + 2);
    assert_eq!(Syllable::new(Init::Fo, Med::Wu, Rime::NoRime, Tone::Level).byte_len(), 6);
}

#[test]
fn checked_code_conversions_reject_out_of_range_integers() {
    assert_eq!(Init::from_code(17).unwrap(), Init::Shi);
    assert!(Init::from_code(22).is_err());
    assert_eq!(Med::from_code(3).unwrap(), Med::Yu);
    assert!(Med::from_code(4).is_err());
    assert_eq!(Rime::from_code(13).unwrap(), Rime::Er);
    assert!(Rime::from_code(14).is_err());
    assert_eq!(Tone::from_code(5).unwrap(), Tone::Neut);
    assert!(Tone::from_code(6).is_err());
    assert_eq!(Init::Shi.code(), 17);
    assert_eq!(Init::Shi.to_char(), 'ㄕ');
    assert_eq!(Tone::from_mark_char('ˇ'), Some(Tone::Dip));
    assert_eq!(Rime::from_bopomofo_char('ㄤ'), Some(Rime::Ang));
    assert_eq!(Med::from_bopomofo_char('x'), None);
    assert_eq!(Init::from_bopomofo_char('ㄙ'), Some(Init::Si));
}

#[test]
fn each_parser_reports_the_shared_parse_error() {
    assert!(Syllable::parse_bopomofo("q").is_err());
    assert!(Syllable::parse_pinyin("").is_err());
    assert!(Syllable::parse_pinyin("zh").is_err());
    assert!(Syllable::parse_ascii_pinyin("hmm").is_err());
    assert!(Syllable::from_text("!!").is_err());
}

#[test]
fn convenience_conversions_cover_all_six_directions() {
    assert_eq!(pinyin_to_ascii_pinyin("ráo").unwrap(), "rao2");
    assert_eq!(ascii_pinyin_to_pinyin("rao2").unwrap(), "ráo");
    assert_eq!(bopomofo_to_pinyin("ㄑㄩㄥ").unwrap(), "qiōng");
    assert_eq!(pinyin_to_bopomofo("qiōng").unwrap(), "ㄑㄩㄥ");
    assert_eq!(ascii_pinyin_to_bopomofo("qiong1").unwrap(), "ㄑㄩㄥ");
    assert_eq!(bopomofo_to_ascii_pinyin("ㄑㄩㄥ").unwrap(), "qiong1");
    assert!(pinyin_to_bopomofo("?").is_none());
    assert!(ascii_pinyin_to_pinyin("9").is_none());
    assert!(bopomofo_to_ascii_pinyin("x").is_none());
}

#[test]
fn spell_tree_commits_to_the_longest_match() {
    let mut tree: SpellTree<u32> = SpellTree::new();
    tree.insert("a", 1);
    tree.insert("abc", 2);
    // the greedy walk never settles for "a" when "ab..." extends it
    assert_eq!(tree.find("abcx"), Some((2, "x")));
    assert_eq!(tree.find("a!"), Some((1, "!")));
    assert_eq!(tree.find("ab"), None);
    assert_eq!(tree.find("abd"), None);
    assert_eq!(tree.find("x"), None);
    assert_eq!(tree.find(""), None);
}

#[test]
fn spell_tree_insert_overwrites_the_payload_of_an_equal_key() {
    let mut tree: SpellTree<u32> = SpellTree::new();
    tree.insert("ang", 7);
    tree.insert("ang", 9);
    assert_eq!(tree.find("ang"), Some((9, "")));
}

#[test]
fn spell_tree_reports_leaves_and_node_counts() {
    let mut tree: SpellTree<u32> = SpellTree::new();
    assert!(tree.is_leaf());
    tree.insert("ab", 1);
    tree.insert("ac", 2);
    assert!(!tree.is_leaf());
    assert_eq!(tree.total_nodes(), 2);
}

#[test]
fn spell_tree_builds_from_a_listed_table() {
    let entries: Vec<(&str, u32)> = vec![("in", 10), ("ing", 20)];
    let tree = SpellTree::build_from(&entries);
    assert_eq!(tree.find("ing!"), Some((20, "!")));
    assert_eq!(tree.find("in"), Some((10, "")));
}

#[test]
fn rime_dictionaries_resolve_shared_prefixes_greedily() {
    let toned = get_pinyin_toned_rime_tree();
    assert_eq!(toned.find("iāo"), Some(((Med::Yi, Rime::Ao, 1), "")));
    assert_eq!(toned.find("a"), Some(((Med::NoMed, Rime::A, 5), "")));
    let untoned = get_pinyin_untoned_rime_tree();
    assert_eq!(untoned.find("ing3"), Some(((Med::Yi, Rime::Eng), "3")));
    assert_eq!(untoned.find("uang3"), Some(((Med::Wu, Rime::Ang), "3")));
    assert_eq!(untoned.find("q"), None);
}

#[test]
fn initial_letter_maps_pair_pinyin_with_bopomofo() {
    let fwd = get_init_pinyin_to_bopomofo_map();
    assert_eq!(fwd.len(), 18);
    assert!(fwd.contains(&('b', 'ㄅ')));
    assert!(fwd.contains(&('s', 'ㄙ')));
    assert!(!fwd.iter().any(|e| e.0 == 'w'));
    let back = get_init_bopomofo_to_pinyin_map();
    assert_eq!(back.len(), 22);
    assert!(back.contains(&('ㄓ', "zh")));
    assert!(back.contains(&('\0', "")));
}
