use hangul_jamo::{assemble, assemble_hangul, disassemble};

#[test]
fn empty_input() {
    assert_eq!(assemble(&[]), "");
    assert_eq!(disassemble(""), Vec::<char>::new());
}

#[test]
fn same_input_same_output() {
    let input = ['ㅃ', 'ㅞ', 'ㄹ', 'ㄱ', 'ㅏ', 'x'];
    assert_eq!(assemble(&input), assemble(&input));
    assert_eq!(disassemble("뷁궬 abc"), disassemble("뷁궬 abc"));
}

#[test]
fn non_hangul_passes_through_in_place() {
    assert_eq!(assemble(&['ㄱ', 'ㅏ', '!', 'ㄴ', 'ㅏ']), "가!나");
    assert_eq!(assemble(&['ㄱ', 'ㅅ', ' ', 'ㅗ', 'ㅏ']), "ㄳ ㅘ");
    assert_eq!(assemble(&['ㄷ', 'ㅏ', 'ㄹ', 'ㄱ', '1']), "닭1");
    assert_eq!(disassemble("a닭b"), ['a', 'ㄷ', 'ㅏ', 'ㄹ', 'ㄱ', 'b']);
    assert_eq!(disassemble("é\0"), ['é', '\0']);
}

#[test]
fn disassemble_edge_syllables() {
    assert_eq!(disassemble("가"), ['ㄱ', 'ㅏ']);
    assert_eq!(disassemble("힣"), ['ㅎ', 'ㅣ', 'ㅎ']);
    assert_eq!(disassemble("ㅣ"), ['ㅣ']);
    assert_eq!(disassemble("ㆍ"), ['ㆍ']);
}

#[test]
fn reassembles_disassembled_syllables() {
    for text in ["가나다", "닭고기", "짧은", "뷁궬릪쯻튋", "갈가", "없어요", "a닭 b값"] {
        let letters = disassemble(text);
        assert_eq!(assemble(&letters), text);
    }
}

#[test]
fn consonant_cluster_splits_before_vowel() {
    assert_eq!(assemble(&['ㄱ', 'ㅅ', 'ㅏ']), "ㄱ사");
    assert_eq!(assemble(&['ㄹ', 'ㄱ']), "ㄺ");
    assert_eq!(assemble(&['ㄹ', 'ㄱ', 'ㄴ']), "ㄺㄴ");
}

#[test]
fn trailing_consonant_moves_to_next_syllable() {
    assert_eq!(assemble(&['ㄱ', 'ㅏ', 'ㄴ', 'ㅏ']), "가나");
    assert_eq!(assemble(&['ㄱ', 'ㅏ', 'ㄹ', 'ㄱ', 'ㅏ']), "갈가");
    assert_eq!(assemble(&['ㄱ', 'ㅏ', 'ㄹ', 'ㄱ']), "갉");
}

#[test]
fn compound_trailing_consonant_typed_whole_stays() {
    assert_eq!(assemble(&['ㄱ', 'ㅏ', 'ㄳ', 'ㅏ']), "갃ㅏ");
    assert_eq!(assemble(&['ㄱ', 'ㅏ', 'ㄳ']), "갃");
}

#[test]
fn vowel_then_consonant() {
    assert_eq!(assemble(&['ㅏ', 'ㄱ', 'ㅏ']), "ㅏ가");
    assert_eq!(assemble(&['ㄸ']), "ㄸ");
    assert_eq!(assemble(&['ㄱ', 'ㅏ', 'ㄸ', 'ㅏ']), "가따");
}

#[test]
fn every_syllable_round_trips() {
    let chos = [
        'ㄱ', 'ㄲ', 'ㄴ', 'ㄷ', 'ㄸ', 'ㄹ', 'ㅁ', 'ㅂ', 'ㅃ', 'ㅅ', 'ㅆ', 'ㅇ', 'ㅈ', 'ㅉ', 'ㅊ', 'ㅋ',
        'ㅌ', 'ㅍ', 'ㅎ',
    ];
    let jungs = [
        'ㅏ', 'ㅐ', 'ㅑ', 'ㅒ', 'ㅓ', 'ㅔ', 'ㅕ', 'ㅖ', 'ㅗ', 'ㅘ', 'ㅙ', 'ㅚ', 'ㅛ', 'ㅜ', 'ㅝ', 'ㅞ',
        'ㅟ', 'ㅠ', 'ㅡ', 'ㅢ', 'ㅣ',
    ];
    let jongs = [
        '\0', 'ㄱ', 'ㄲ', 'ㄳ', 'ㄴ', 'ㄵ', 'ㄶ', 'ㄷ', 'ㄹ', 'ㄺ', 'ㄻ', 'ㄼ', 'ㄽ', 'ㄾ', 'ㄿ', 'ㅀ',
        'ㅁ', 'ㅂ', 'ㅄ', 'ㅅ', 'ㅆ', 'ㅇ', 'ㅈ', 'ㅊ', 'ㅋ', 'ㅌ', 'ㅍ', 'ㅎ',
    ];
    for (ci, c) in chos.iter().enumerate() {
        for (vi, v) in jungs.iter().enumerate() {
            for (ji, j) in jongs.iter().enumerate() {
                let syllable = assemble_hangul(c, v, Some(j));
                let code = 0xAC00 + ci as u32 * 588 + vi as u32 * 28 + ji as u32;
                assert_eq!(syllable as u32, code);
                let index = code - 0xAC00;
                assert_eq!(index / 588, ci as u32);
                assert_eq!((index % 588) / 28, vi as u32);
                assert_eq!(index % 28, ji as u32);
                let text = format!("{}{}x", syllable, syllable);
                assert_eq!(assemble(&disassemble(&text)), text);
            }
        }
    }
}

#[test]
fn cluster_only_from_leading_consonants() {
    assert_eq!(assemble(&['ㄳ', 'ㅏ']), "ㄳㅏ");
    assert_eq!(assemble(&['ㄴ', 'ㅈ', 'ㅏ']), "ㄴ자");
    assert_eq!(assemble(&['ㄴ', 'ㅈ']), "ㄵ");
}

#[test]
fn nul_passes_through() {
    assert_eq!(assemble(&['ㄱ', 'ㅏ', '\0']), "가\0");
    assert_eq!(assemble(&['ㄱ', 'ㅏ', '\0', 'ㅏ']), "가\0ㅏ");
    assert_eq!(assemble(&['ㄱ', 'ㅏ', 'ㄴ', '\0']), "간\0");
    assert_eq!(assemble(&['\0']), "\0");
    assert_eq!(assemble(&disassemble("가\0나")), "가\0나");
}
