use hangul_jamo::disassemble;

#[test]
fn basic_functionality() {
    // 기본동작
    assert_eq!(disassemble("가나다"), ['ㄱ', 'ㅏ', 'ㄴ', 'ㅏ', 'ㄷ', 'ㅏ']);
}

#[test]
fn jongseong() {
    // 받침
    assert_eq!(disassemble("비행"), ['ㅂ', 'ㅣ', 'ㅎ', 'ㅐ', 'ㅇ']);
}

#[test]
fn choseong_double_consonant() {
    // 초성에 쌍자음
    assert_eq!(disassemble("쓸다"), ['ㅆ', 'ㅡ', 'ㄹ', 'ㄷ', 'ㅏ']);
}

#[test]
fn jungseong_complex_vowels() {
    // 중성에 복합모음
    assert_eq!(disassemble("의사"), ['ㅇ', 'ㅡ', 'ㅣ', 'ㅅ', 'ㅏ']);
}

#[test]
fn jongseong_complex_consonants() {
    // 종성에 복합자음
    assert_eq!(
        disassemble("닭고기"),
        ['ㄷ', 'ㅏ', 'ㄹ', 'ㄱ', 'ㄱ', 'ㅗ', 'ㄱ', 'ㅣ']
    );
}

#[test]
fn mixed() {
    // 혼합
    assert_eq!(
        disassemble("짧은"),
        ['ㅉ', 'ㅏ', 'ㄹ', 'ㅂ', 'ㅇ', 'ㅡ', 'ㄴ']
    );
}

#[test]
fn typo() {
    // 오타
    assert_eq!(disassemble("옽ㅏ"), ['ㅇ', 'ㅗ', 'ㅌ', 'ㅏ']);
}

#[test]
fn multi_language() {
    // 다국어
    assert_eq!(
        disassemble("AB삵e$@%2324sdf낄캌ㅋㅋㅋㅋ"),
        [
            'A', 'B', 'ㅅ', 'ㅏ', 'ㄹ', 'ㄱ', 'e', '$', '@', '%', '2', '3', '2', '4', 's', 'd',
            'f', 'ㄲ', 'ㅣ', 'ㄹ', 'ㅋ', 'ㅏ', 'ㅋ', 'ㅋ', 'ㅋ', 'ㅋ', 'ㅋ'
        ]
    );
}

#[test]
fn uncommon_syllables() {
    // 흔하지 않은 음절
    assert_eq!(
        disassemble("뷁궬릪쯻튋"),
        [
            'ㅂ', 'ㅜ', 'ㅔ', 'ㄹ', 'ㄱ', 'ㄱ', 'ㅜ', 'ㅔ', 'ㄹ', 'ㄹ', 'ㅡ', 'ㅣ', 'ㅍ', 'ㅉ',
            'ㅡ', 'ㅣ', 'ㄹ', 'ㅂ', 'ㅌ', 'ㅜ', 'ㅣ', 'ㄹ', 'ㅂ'
        ]
    );
}

#[test]
fn single_complex_consonant() {
    // 단일 복합자음
    assert_eq!(disassemble("ㄳ"), ['ㄱ', 'ㅅ']);
}

#[test]
fn single_complex_vowel() {
    // 단일 복합모음
    assert_eq!(disassemble("ㅙ"), ['ㅗ', 'ㅐ']);
}
