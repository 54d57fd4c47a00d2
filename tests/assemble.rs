use hangul_jamo::assemble;

#[test]
fn test_assemble_basic() {
    assert_eq!(assemble(&['ㄱ', 'ㅏ', 'ㄴ', 'ㅏ', 'ㄷ', 'ㅏ']), "가나다",);
}

#[test]
fn test_assemble_vowel() {
    assert_eq!(assemble(&['ㅂ', 'ㅣ', 'ㅎ', 'ㅐ', 'ㅇ']), "비행",);
}

#[test]
fn test_assemble_consonant() {
    assert_eq!(assemble(&['ㅆ', 'ㅡ', 'ㄹ', 'ㄷ', 'ㅏ']), "쓸다",);
}

#[test]
fn test_assemble_mixed() {
    assert_eq!(assemble(&['ㅇ', 'ㅡ', 'ㅣ', 'ㅅ', 'ㅏ']), "의사",);
}

#[test]
fn test_assemble_long() {
    assert_eq!(
        assemble(&['ㅉ', 'ㅏ', 'ㄹ', 'ㅂ', 'ㅇ', 'ㅡ', 'ㄴ']),
        "짧은",
    );
}

#[test]
fn test_assemble_special_characters() {
    assert_eq!(
        assemble(&['ㄷ', 'ㅏ', 'ㄹ', 'ㄱ', 'ㄱ', 'ㅗ', 'ㄱ', 'ㅣ']),
        "닭고기",
    );
}

#[test]
fn test_assemble_invalid_characters() {
    assert_eq!(
        assemble(&[
            'A', 'B', 'ㅅ', 'ㅏ', 'ㄹ', 'ㄱ', 'e', '$', '@', '%', '2', '3', '2', '4', 's', 'd',
            'f', 'ㄲ', 'ㅣ', 'ㄹ', 'ㅋ', 'ㅏ', 'ㅋ', 'ㅋ', 'ㅋ', 'ㅋ', 'ㅋ'
        ]),
        "AB삵e$@%2324sdf낄캌ㅋㅋㅋㅋ",
    );
}

#[test]
fn test_assemble_repeated_characters() {
    assert_eq!(
        assemble(&[
            'ㅂ', 'ㅜ', 'ㅔ', 'ㄹ', 'ㄱ', 'ㄱ', 'ㅜ', 'ㅔ', 'ㄹ', 'ㄹ', 'ㅡ', 'ㅣ', 'ㅍ', 'ㅉ',
            'ㅡ', 'ㅣ', 'ㄹ', 'ㅂ', 'ㅌ', 'ㅜ', 'ㅣ', 'ㄹ', 'ㅂ'
        ]),
        "뷁궬릪쯻튋",
    );
}

#[test]
fn test_assemble_single_character() {
    assert_eq!(assemble(&['ㄱ', 'ㅅ']), "ㄳ",);
}

#[test]
fn test_assemble_vowel_combination() {
    assert_eq!(assemble(&['ㅗ', 'ㅐ']), "ㅙ",);
}

#[test]
fn test_assemble_consonant_vowel_combination() {
    assert_eq!(assemble(&['ㅈ', 'ㅅ', 'ㅏ']), "ㅈ사",);
}

#[test]
fn test_assemble_repeated_consonants() {
    assert_eq!(assemble(&['ㄱ', 'ㅅ', 'ㄱ', 'ㅅ']), "ㄳㄳ",);
}

#[test]
fn test_assemble_repeated_vowels() {
    assert_eq!(assemble(&['ㅗ', 'ㅐ', 'ㅗ', 'ㅐ']), "ㅙㅙ",);
}

#[test]
fn test_assemble_mixed_repeated() {
    assert_eq!(assemble(&['ㅈ', 'ㅗ', 'ㅗ', 'ㅐ']), "조ㅙ",);
}

#[test]
fn test_assemble_mixed_invalid() {
    assert_eq!(assemble(&['ㅣ', 'ㅗ', 'ㅐ']), "ㅣㅙ",);
}

#[test]
fn test_assemble_double_consonants() {
    assert_eq!(assemble(&['ㅃ', 'ㅉ', 'ㅏ', 'ㄸ']), "ㅃ짜ㄸ",);
}

#[test]
fn test_assemble_double_vowels() {
    assert_eq!(assemble(&['ㅒ', 'ㅗ', 'ㅒ']), "ㅒㅗㅒ",);
}

#[test]
fn test_assemble_mixed_double() {
    assert_eq!(assemble(&['ㅃ', 'ㅞ', 'ㄹ', 'ㄱ', 'ㅅ']), "쀍ㅅ",);
}

#[test]
fn test_assemble_mixed_double_invalid() {
    assert_eq!(assemble(&['ㅃ', 'ㅞ', 'ㄹ', 'ㄱ', 'ㅏ']), "쀌가",);
}

#[test]
fn test_assemble_mixed_double_repeated() {
    assert_eq!(
        assemble(&[
            'ㅃ', 'ㅞ', 'ㄹ', 'ㄱ', 'ㅞ', 'ㄹ', 'ㄱ', 'ㅞ', 'ㄹ', 'ㄱ', 'ㅂ'
        ]),
        "쀌궬궭ㅂ",
    );
}
