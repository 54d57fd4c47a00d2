use vstd::prelude::*;

use vstd::arithmetic::div_mod::lemma_fundamental_div_mod_converse;

use crate::hangul_unicodes::{
    choseongs, syllable_code, jongseongs, jungseongs, split_jamo, CHOSEONGS, HANGUL_COMPATIBILITY_JAMO_END,
    HANGUL_COMPATIBILITY_JAMO_START, HANGUL_SYLLABLE_END, HANGUL_SYLLABLE_START, JONGSEONGS,
    JUNGSEONGS,
};

verus! {

/// Leading, vowel and trailing indices of the syllable at a code point.
pub open spec fn syllable_indices(code: int) -> (int, int, int) {
    let index = code - HANGUL_SYLLABLE_START;
    (index / 588, (index % 588) / 28, index % 28)
}

/// The letters of a syllable: its leading consonant, its vowel and, unless it
/// has none, its trailing consonant, each compound split into two.
pub open spec fn syllable_jamo(code: int) -> Seq<char> {
    let (cho, jung, jong) = syllable_indices(code);
    split_jamo(choseongs()[cho]) + split_jamo(jungseongs()[jung]) + if jong != 0 {
        split_jamo(jongseongs()[jong])
    } else {
        Seq::empty()
    }
}

/// A syllable block character.
pub open spec fn is_syllable(c: char) -> bool {
    HANGUL_SYLLABLE_START <= c as u32 <= HANGUL_SYLLABLE_END
}

/// A compatibility jamo of modern Korean.
pub open spec fn is_compatibility_jamo(c: char) -> bool {
    HANGUL_COMPATIBILITY_JAMO_START <= c as u32 <= HANGUL_COMPATIBILITY_JAMO_END
}

/// What a single character disassembles into.
pub open spec fn disassembled_char(c: char) -> Seq<char> {
    if is_syllable(c) {
        syllable_jamo(c as int)
    } else if is_compatibility_jamo(c) {
        split_jamo(c)
    } else {
        seq![c]
    }
}

/// The disassembly of a text: each character's letters, in order.
pub open spec fn disassembled(text: Seq<char>) -> Seq<char>
    decreases text.len(),
{
    if text.len() == 0 {
        Seq::empty()
    } else {
        disassembled(text.drop_last()) + disassembled_char(text.last())
    }
}

/// Decomposing the code point of a composed syllable gives back the three
/// indices it was composed from, and every such code point lies in the
/// syllable block.
pub proof fn lemma_syllable_round_trip(cho: int, jung: int, jong: int)
    requires
        0 <= cho < 19,
        0 <= jung < 21,
        0 <= jong < 28,
    ensures
        syllable_indices(syllable_code(cho, jung, jong)) == (cho, jung, jong),
        HANGUL_SYLLABLE_START <= syllable_code(cho, jung, jong) <= HANGUL_SYLLABLE_END,
{
    let index = cho * 588 + jung * 28 + jong;
    assert(index == syllable_code(cho, jung, jong) - HANGUL_SYLLABLE_START);
    assert(0 <= jung * 28 + jong < 588) by (nonlinear_arith)
        requires
            0 <= jung < 21,
            0 <= jong < 28,
    ;
    lemma_fundamental_div_mod_converse(index, 588, cho, jung * 28 + jong);
    lemma_fundamental_div_mod_converse(jung * 28 + jong, 28, jung, jong);
    assert(index <= 18 * 588 + 20 * 28 + 27) by (nonlinear_arith)
        requires
            index == cho * 588 + jung * 28 + jong,
            0 <= cho < 19,
            0 <= jung < 21,
            0 <= jong < 28,
    ;
}

/// Text without syllables or compatibility jamo disassembles into itself, and
/// disassembly works character by character: a character outside both blocks
/// keeps its place among the letters of its neighbours.
pub proof fn lemma_disassemble_passthrough(before: Seq<char>, ch: char, after: Seq<char>)
    requires
        !is_syllable(ch),
        !is_compatibility_jamo(ch),
    ensures
        disassembled(before + seq![ch] + after) == disassembled(before) + seq![ch]
            + disassembled(after),
{
    lemma_disassembled_concat(before + seq![ch], after);
    lemma_disassembled_concat(before, seq![ch]);
    assert(seq![ch].drop_last() == Seq::<char>::empty());
    assert(disassembled(Seq::<char>::empty()) == Seq::<char>::empty());
    assert(disassembled(seq![ch]) == seq![ch]);
}

/// Disassembly distributes over concatenation.
pub proof fn lemma_disassembled_concat(first: Seq<char>, second: Seq<char>)
    ensures
        disassembled(first + second) == disassembled(first) + disassembled(second),
    decreases second.len(),
{
    if second.len() == 0 {
        assert(first + second == first);
    } else {
        lemma_disassembled_concat(first, second.drop_last());
        assert((first + second).drop_last() == first + second.drop_last());
    }
}

/// Splits text into letters: each syllable into its leading consonant, vowel
/// and trailing consonant, and each compound letter into its two parts.
pub fn disassemble(hangul_string: &str) -> (r: Vec<char>)
    ensures
        r@ == disassembled(hangul_string@),
{
    let mut result: Vec<char> = Vec::new();
    for ch in it: hangul_string.chars()
        invariant
            it.seq() == hangul_string@,
            result@ == disassembled(hangul_string@.take(it.index() as int)),
    {
        let unicode = ch as u32;
        let mut part = if HANGUL_SYLLABLE_START <= unicode && unicode <= HANGUL_SYLLABLE_END {
            disassemble_syllable(ch)
        } else if HANGUL_COMPATIBILITY_JAMO_START <= unicode && unicode
            <= HANGUL_COMPATIBILITY_JAMO_END {
            disassemble_jamo(ch)
        } else {
            vec![ch]
        };
        assert(hangul_string@.take(it.index() + 1).drop_last() == hangul_string@.take(
            it.index() as int,
        ));
        result.append(&mut part);
    }
    assert(hangul_string@.take(hangul_string@.len() as int) == hangul_string@);
    result
}

fn disassemble_syllable(syllable: char) -> (r: Vec<char>)
    requires
        is_syllable(syllable),
    ensures
        r@ == syllable_jamo(syllable as int),
{
    let syllable_index = syllable as u32 - HANGUL_SYLLABLE_START;
    let choseong_index = syllable_index / 588;
    let jungseong_index = (syllable_index % 588) / 28;
    let jongseong_index = syllable_index % 28;
    assert(choseong_index < 19);
    assert(jungseong_index < 21);

    let mut result = disassemble_jamo(CHOSEONGS[choseong_index as usize]);
    let mut jung_part = disassemble_jamo(JUNGSEONGS[jungseong_index as usize]);
    result.append(&mut jung_part);
    if jongseong_index != 0 {
        let mut jong_part = disassemble_jamo(JONGSEONGS[jongseong_index as usize]);
        result.append(&mut jong_part);
    }
    result
}

fn disassemble_jamo(jamo: char) -> (r: Vec<char>)
    ensures
        r@ == split_jamo(jamo),
{
    match jamo {
        'ㄳ' => vec!['ㄱ', 'ㅅ'],
        'ㄵ' => vec!['ㄴ', 'ㅈ'],
        'ㄶ' => vec!['ㄴ', 'ㅎ'],
        'ㄺ' => vec!['ㄹ', 'ㄱ'],
        'ㄻ' => vec!['ㄹ', 'ㅁ'],
        'ㄼ' => vec!['ㄹ', 'ㅂ'],
        'ㄽ' => vec!['ㄹ', 'ㅅ'],
        'ㄾ' => vec!['ㄹ', 'ㅌ'],
        'ㄿ' => vec!['ㄹ', 'ㅍ'],
        'ㅀ' => vec!['ㄹ', 'ㅎ'],
        'ㅄ' => vec!['ㅂ', 'ㅅ'],
        'ㅘ' => vec!['ㅗ', 'ㅏ'],
        'ㅙ' => vec!['ㅗ', 'ㅐ'],
        'ㅚ' => vec!['ㅗ', 'ㅣ'],
        'ㅝ' => vec!['ㅜ', 'ㅓ'],
        'ㅞ' => vec!['ㅜ', 'ㅔ'],
        'ㅟ' => vec!['ㅜ', 'ㅣ'],
        'ㅢ' => vec!['ㅡ', 'ㅣ'],
        _ => vec![jamo],
    }
}

} // verus!
