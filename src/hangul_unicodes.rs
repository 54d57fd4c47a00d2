use vstd::prelude::*;

verus! {

pub const HANGUL_SYLLABLE_START: u32 = 0xAC00;

pub const HANGUL_SYLLABLE_END: u32 = 0xD7A3;

/// First compatibility jamo (ㄱ).
pub const HANGUL_COMPATIBILITY_JAMO_START: u32 = 0x3131;

/// Last compatibility jamo of modern Korean (ㅣ); the block goes on to 0x318E
/// with archaic letters.
pub const HANGUL_COMPATIBILITY_JAMO_END: u32 = 0x3163;

/// Code point of the first vowel (ㅏ); the 21 vowels follow it contiguously.
pub const HANGUL_JUNGSEONG_START: u32 = 0x314F;

/// Code point of the first trailing consonant (ㄱ).
pub const HANGUL_JONGSEONG_START: u32 = 0x3131;

/// The 19 leading consonants, in syllable-index order.
pub const CHOSEONGS: [char; 19] = [
    'ㄱ', 'ㄲ', 'ㄴ', 'ㄷ', 'ㄸ', 'ㄹ', 'ㅁ', 'ㅂ', 'ㅃ', 'ㅅ', 'ㅆ', 'ㅇ', 'ㅈ', 'ㅉ', 'ㅊ', 'ㅋ',
    'ㅌ', 'ㅍ', 'ㅎ',
];

pub open spec fn choseongs() -> Seq<char> {
    CHOSEONGS@
}

/// The 21 vowels, in syllable-index order.
pub const JUNGSEONGS: [char; 21] = [
    'ㅏ', 'ㅐ', 'ㅑ', 'ㅒ', 'ㅓ', 'ㅔ', 'ㅕ', 'ㅖ', 'ㅗ', 'ㅘ', 'ㅙ', 'ㅚ', 'ㅛ', 'ㅜ', 'ㅝ', 'ㅞ',
    'ㅟ', 'ㅠ', 'ㅡ', 'ㅢ', 'ㅣ',
];

pub open spec fn jungseongs() -> Seq<char> {
    JUNGSEONGS@
}

/// The 28 trailing values, in syllable-index order; index 0, the NUL character,
/// stands for "no trailing consonant".
pub const JONGSEONGS: [char; 28] = [
    '\0', 'ㄱ', 'ㄲ', 'ㄳ', 'ㄴ', 'ㄵ', 'ㄶ', 'ㄷ', 'ㄹ', 'ㄺ', 'ㄻ', 'ㄼ', 'ㄽ', 'ㄾ', 'ㄿ', 'ㅀ',
    'ㅁ', 'ㅂ', 'ㅄ', 'ㅅ', 'ㅆ', 'ㅇ', 'ㅈ', 'ㅊ', 'ㅋ', 'ㅌ', 'ㅍ', 'ㅎ',
];

pub open spec fn jongseongs() -> Seq<char> {
    JONGSEONGS@
}

/// Each letter occurs once in its table, so a member has exactly one index.
pub proof fn lemma_tables_distinct()
    ensures
        choseongs().no_duplicates(),
        jungseongs().no_duplicates(),
        jongseongs().no_duplicates(),
{
    assert forall|i: int, j: int| 0 <= i < 19 && 0 <= j < 19 && i != j implies choseongs()[i]
        != choseongs()[j] by {
        assert(
            i == 0 || i == 1 || i == 2 || i == 3 || i == 4 || i == 5 || i == 6 || i == 7 ||
            i == 8 || i == 9 || i == 10 || i == 11 || i == 12 || i == 13 || i == 14 || i == 15 ||
            i == 16 || i == 17 || i == 18
        );
        assert(
            j == 0 || j == 1 || j == 2 || j == 3 || j == 4 || j == 5 || j == 6 || j == 7 ||
            j == 8 || j == 9 || j == 10 || j == 11 || j == 12 || j == 13 || j == 14 || j == 15 ||
            j == 16 || j == 17 || j == 18
        );
    }
    assert forall|i: int, j: int| 0 <= i < 21 && 0 <= j < 21 && i != j implies jungseongs()[i]
        != jungseongs()[j] by {
        assert(
            i == 0 || i == 1 || i == 2 || i == 3 || i == 4 || i == 5 || i == 6 || i == 7 ||
            i == 8 || i == 9 || i == 10 || i == 11 || i == 12 || i == 13 || i == 14 || i == 15 ||
            i == 16 || i == 17 || i == 18 || i == 19 || i == 20
        );
        assert(
            j == 0 || j == 1 || j == 2 || j == 3 || j == 4 || j == 5 || j == 6 || j == 7 ||
            j == 8 || j == 9 || j == 10 || j == 11 || j == 12 || j == 13 || j == 14 || j == 15 ||
            j == 16 || j == 17 || j == 18 || j == 19 || j == 20
        );
    }
    assert forall|i: int, j: int| 0 <= i < 28 && 0 <= j < 28 && i != j implies jongseongs()[i]
        != jongseongs()[j] by {
        assert(
            i == 0 || i == 1 || i == 2 || i == 3 || i == 4 || i == 5 || i == 6 || i == 7 ||
            i == 8 || i == 9 || i == 10 || i == 11 || i == 12 || i == 13 || i == 14 || i == 15 ||
            i == 16 || i == 17 || i == 18 || i == 19 || i == 20 || i == 21 || i == 22 || i == 23 ||
            i == 24 || i == 25 || i == 26 || i == 27
        );
        assert(
            j == 0 || j == 1 || j == 2 || j == 3 || j == 4 || j == 5 || j == 6 || j == 7 ||
            j == 8 || j == 9 || j == 10 || j == 11 || j == 12 || j == 13 || j == 14 || j == 15 ||
            j == 16 || j == 17 || j == 18 || j == 19 || j == 20 || j == 21 || j == 22 || j == 23 ||
            j == 24 || j == 25 || j == 26 || j == 27
        );
    }
}

/// Where the letters of each table lie among the compatibility jamo: the
/// consonants below the first vowel, the vowels contiguously from it.
pub proof fn lemma_table_ranges()
    ensures
        forall|i: int|
            0 <= i < 19 ==> HANGUL_COMPATIBILITY_JAMO_START <= ((#[trigger] choseongs()[i]) as u32)
                < HANGUL_JUNGSEONG_START,
        forall|i: int|
            0 <= i < 21 ==> ((#[trigger] jungseongs()[i]) as u32) == HANGUL_JUNGSEONG_START + i,
        forall|i: int|
            1 <= i < 28 ==> HANGUL_COMPATIBILITY_JAMO_START <= ((#[trigger] jongseongs()[i]) as u32)
                < HANGUL_JUNGSEONG_START,
        jongseongs()[0] == '\0',
{
    assert forall|i: int| 0 <= i < 19 implies HANGUL_COMPATIBILITY_JAMO_START <= ((
    #[trigger] choseongs()[i]) as u32) < HANGUL_JUNGSEONG_START by {
        assert(
            i == 0 || i == 1 || i == 2 || i == 3 || i == 4 || i == 5 || i == 6 || i == 7 ||
            i == 8 || i == 9 || i == 10 || i == 11 || i == 12 || i == 13 || i == 14 || i == 15 ||
            i == 16 || i == 17 || i == 18
        );
    }
    assert forall|i: int| 0 <= i < 21 implies ((#[trigger] jungseongs()[i]) as u32)
        == HANGUL_JUNGSEONG_START + i by {
        assert(
            i == 0 || i == 1 || i == 2 || i == 3 || i == 4 || i == 5 || i == 6 || i == 7 ||
            i == 8 || i == 9 || i == 10 || i == 11 || i == 12 || i == 13 || i == 14 || i == 15 ||
            i == 16 || i == 17 || i == 18 || i == 19 || i == 20
        );
    }
    assert forall|i: int| 1 <= i < 28 implies HANGUL_COMPATIBILITY_JAMO_START <= ((
    #[trigger] jongseongs()[i]) as u32) < HANGUL_JUNGSEONG_START by {
        assert(
            i == 1 || i == 2 || i == 3 || i == 4 || i == 5 || i == 6 || i == 7 || i == 8 ||
            i == 9 || i == 10 || i == 11 || i == 12 || i == 13 || i == 14 || i == 15 || i == 16 ||
            i == 17 || i == 18 || i == 19 || i == 20 || i == 21 || i == 22 || i == 23 || i == 24 ||
            i == 25 || i == 26 || i == 27
        );
    }
}

/// No leading consonant is a compound glyph.
pub proof fn lemma_choseongs_simple()
    ensures
        forall|i: int| 0 <= i < 19 ==> split_jamo(#[trigger] choseongs()[i]) == seq![choseongs()[i]],
{
    assert forall|i: int| 0 <= i < 19 implies split_jamo(#[trigger] choseongs()[i]) == seq![
        choseongs()[i],
    ] by {
        assert(
            i == 0 || i == 1 || i == 2 || i == 3 || i == 4 || i == 5 || i == 6 || i == 7 ||
            i == 8 || i == 9 || i == 10 || i == 11 || i == 12 || i == 13 || i == 14 || i == 15 ||
            i == 16 || i == 17 || i == 18
        );
    }
}

/// In a table without duplicates, the index of an entry is where it stands.
pub proof fn lemma_index_of_entry(table: Seq<char>, i: int)
    requires
        table.no_duplicates(),
        0 <= i < table.len(),
    ensures
        table.index_of(table[i]) == i,
{
    assert(table.contains(table[i]));
}

/// Failure of an index lookup.
#[derive(Clone, Copy, Debug, PartialEq, Eq, Structural)]
pub enum HangulError {
    /// An index was asked of a character outside the letter set in question.
    InvalidJamo(char),
}

/// Whether the character is one of the 19 leading consonants.
pub fn is_cho(ch: &char) -> (r: bool)
    ensures
        r == choseongs().contains(*ch),
{
    cho_index(ch).is_ok()
}

/// Whether the character is one of the 21 vowels.
pub fn is_jung(ch: &char) -> (r: bool)
    ensures
        r == jungseongs().contains(*ch),
{
    jung_index(ch).is_ok()
}

/// Whether the character is one of the 28 trailing values, NUL included.
pub fn is_jong(ch: &char) -> (r: bool)
    ensures
        r == jongseongs().contains(*ch),
{
    jong_index(ch).is_ok()
}

/// Index of a leading consonant in its table.
pub fn cho_index(cho: &char) -> (r: Result<u32, HangulError>)
    ensures
        r is Ok <==> choseongs().contains(*cho),
        r matches Ok(i) ==> i < 19 && choseongs()[i as int] == *cho,
        r matches Err(e) ==> e == HangulError::InvalidJamo(*cho),
{
    match *cho {
        'ㄱ' => Ok(0),
        'ㄲ' => Ok(1),
        'ㄴ' => Ok(2),
        'ㄷ' => Ok(3),
        'ㄸ' => Ok(4),
        'ㄹ' => Ok(5),
        'ㅁ' => Ok(6),
        'ㅂ' => Ok(7),
        'ㅃ' => Ok(8),
        'ㅅ' => Ok(9),
        'ㅆ' => Ok(10),
        'ㅇ' => Ok(11),
        'ㅈ' => Ok(12),
        'ㅉ' => Ok(13),
        'ㅊ' => Ok(14),
        'ㅋ' => Ok(15),
        'ㅌ' => Ok(16),
        'ㅍ' => Ok(17),
        'ㅎ' => Ok(18),
        _ => Err(HangulError::InvalidJamo(*cho)),
    }
}

/// Index of a vowel in its table; the vowels are contiguous code points, so
/// the index is an offset.
pub fn jung_index(jung: &char) -> (r: Result<u32, HangulError>)
    ensures
        r is Ok <==> jungseongs().contains(*jung),
        r matches Ok(i) ==> i < 21 && jungseongs()[i as int] == *jung,
        r matches Err(e) ==> e == HangulError::InvalidJamo(*jung),
{
    let code = *jung as u32;
    if HANGUL_JUNGSEONG_START <= code && code <= HANGUL_COMPATIBILITY_JAMO_END {
        Ok(code - HANGUL_JUNGSEONG_START)
    } else {
        Err(HangulError::InvalidJamo(*jung))
    }
}

/// Index of a trailing value in its table, 0 for NUL.
pub fn jong_index(jong: &char) -> (r: Result<u32, HangulError>)
    ensures
        r is Ok <==> jongseongs().contains(*jong),
        r matches Ok(i) ==> i < 28 && jongseongs()[i as int] == *jong,
        r matches Err(e) ==> e == HangulError::InvalidJamo(*jong),
{
    match *jong {
        '\0' => Ok(0),
        'ㄱ' => Ok(1),
        'ㄲ' => Ok(2),
        'ㄳ' => Ok(3),
        'ㄴ' => Ok(4),
        'ㄵ' => Ok(5),
        'ㄶ' => Ok(6),
        'ㄷ' => Ok(7),
        'ㄹ' => Ok(8),
        'ㄺ' => Ok(9),
        'ㄻ' => Ok(10),
        'ㄼ' => Ok(11),
        'ㄽ' => Ok(12),
        'ㄾ' => Ok(13),
        'ㄿ' => Ok(14),
        'ㅀ' => Ok(15),
        'ㅁ' => Ok(16),
        'ㅂ' => Ok(17),
        'ㅄ' => Ok(18),
        'ㅅ' => Ok(19),
        'ㅆ' => Ok(20),
        'ㅇ' => Ok(21),
        'ㅈ' => Ok(22),
        'ㅊ' => Ok(23),
        'ㅋ' => Ok(24),
        'ㅌ' => Ok(25),
        'ㅍ' => Ok(26),
        'ㅎ' => Ok(27),
        _ => Err(HangulError::InvalidJamo(*jong)),
    }
}

/// The compound consonant that two simple consonants fuse into, if any. The
/// compound trailing consonants are exactly these; the same pairs, typed as
/// leading consonants, form a provisional cluster while the assembler waits for
/// the next letter.
pub open spec fn joined_consonant(first: char, second: char) -> Option<char> {
    match (first, second) {
        ('ㄱ', 'ㅅ') => Some('ㄳ'),
        ('ㄴ', 'ㅈ') => Some('ㄵ'),
        ('ㄴ', 'ㅎ') => Some('ㄶ'),
        ('ㄹ', 'ㄱ') => Some('ㄺ'),
        ('ㄹ', 'ㅁ') => Some('ㄻ'),
        ('ㄹ', 'ㅂ') => Some('ㄼ'),
        ('ㄹ', 'ㅅ') => Some('ㄽ'),
        ('ㄹ', 'ㅌ') => Some('ㄾ'),
        ('ㄹ', 'ㅍ') => Some('ㄿ'),
        ('ㄹ', 'ㅎ') => Some('ㅀ'),
        ('ㅂ', 'ㅅ') => Some('ㅄ'),
        _ => None,
    }
}

/// The compound vowel that two simple vowels fuse into, if any.
pub open spec fn joined_vowel(first: char, second: char) -> Option<char> {
    match (first, second) {
        ('ㅗ', 'ㅏ') => Some('ㅘ'),
        ('ㅗ', 'ㅐ') => Some('ㅙ'),
        ('ㅗ', 'ㅣ') => Some('ㅚ'),
        ('ㅜ', 'ㅓ') => Some('ㅝ'),
        ('ㅜ', 'ㅔ') => Some('ㅞ'),
        ('ㅜ', 'ㅣ') => Some('ㅟ'),
        ('ㅡ', 'ㅣ') => Some('ㅢ'),
        _ => None,
    }
}

/// The letters a glyph is made of: the two simple letters of a compound
/// consonant or vowel, or the glyph alone for anything else.
pub open spec fn split_jamo(c: char) -> Seq<char> {
    match c {
        'ㄳ' => seq!['ㄱ', 'ㅅ'],
        'ㄵ' => seq!['ㄴ', 'ㅈ'],
        'ㄶ' => seq!['ㄴ', 'ㅎ'],
        'ㄺ' => seq!['ㄹ', 'ㄱ'],
        'ㄻ' => seq!['ㄹ', 'ㅁ'],
        'ㄼ' => seq!['ㄹ', 'ㅂ'],
        'ㄽ' => seq!['ㄹ', 'ㅅ'],
        'ㄾ' => seq!['ㄹ', 'ㅌ'],
        'ㄿ' => seq!['ㄹ', 'ㅍ'],
        'ㅀ' => seq!['ㄹ', 'ㅎ'],
        'ㅄ' => seq!['ㅂ', 'ㅅ'],
        'ㅘ' => seq!['ㅗ', 'ㅏ'],
        'ㅙ' => seq!['ㅗ', 'ㅐ'],
        'ㅚ' => seq!['ㅗ', 'ㅣ'],
        'ㅝ' => seq!['ㅜ', 'ㅓ'],
        'ㅞ' => seq!['ㅜ', 'ㅔ'],
        'ㅟ' => seq!['ㅜ', 'ㅣ'],
        'ㅢ' => seq!['ㅡ', 'ㅣ'],
        _ => seq![c],
    }
}

/// Splitting is the exact inverse of both joining tables: every pair that joins
/// splits back into itself, and every glyph that splits is what its two parts
/// join into.
pub proof fn lemma_split_inverts_join(first: char, second: char, c: char)
    ensures
        joined_consonant(first, second) == Some(c) ==> split_jamo(c) == seq![first, second],
        joined_vowel(first, second) == Some(c) ==> split_jamo(c) == seq![first, second],
        split_jamo(c).len() == 2 ==> (joined_consonant(split_jamo(c)[0], split_jamo(c)[1]) == Some(
            c,
        ) || joined_vowel(split_jamo(c)[0], split_jamo(c)[1]) == Some(c)),
        split_jamo(c).len() == 1 ==> split_jamo(c) == seq![c],
{
}

/// Looks a pair of consonants up in the compound-consonant table.
pub fn jong_maybe_joined(first: &char, second: &char) -> (r: Option<char>)
    ensures
        r == joined_consonant(*first, *second),
{
    match (*first, *second) {
        ('ㄱ', 'ㅅ') => Some('ㄳ'),
        ('ㄴ', 'ㅈ') => Some('ㄵ'),
        ('ㄴ', 'ㅎ') => Some('ㄶ'),
        ('ㄹ', 'ㄱ') => Some('ㄺ'),
        ('ㄹ', 'ㅁ') => Some('ㄻ'),
        ('ㄹ', 'ㅂ') => Some('ㄼ'),
        ('ㄹ', 'ㅅ') => Some('ㄽ'),
        ('ㄹ', 'ㅌ') => Some('ㄾ'),
        ('ㄹ', 'ㅍ') => Some('ㄿ'),
        ('ㄹ', 'ㅎ') => Some('ㅀ'),
        ('ㅂ', 'ㅅ') => Some('ㅄ'),
        _ => None,
    }
}

/// Looks a pair of vowels up in the compound-vowel table.
pub fn jung_maybe_joined(first: &char, second: &char) -> (r: Option<char>)
    ensures
        r == joined_vowel(*first, *second),
{
    match (*first, *second) {
        ('ㅗ', 'ㅏ') => Some('ㅘ'),
        ('ㅗ', 'ㅐ') => Some('ㅙ'),
        ('ㅗ', 'ㅣ') => Some('ㅚ'),
        ('ㅜ', 'ㅓ') => Some('ㅝ'),
        ('ㅜ', 'ㅔ') => Some('ㅞ'),
        ('ㅜ', 'ㅣ') => Some('ㅟ'),
        ('ㅡ', 'ㅣ') => Some('ㅢ'),
        _ => None,
    }
}

/// Code point of the syllable with the given leading, vowel and trailing indices.
pub open spec fn syllable_code(cho: int, jung: int, jong: int) -> int {
    HANGUL_SYLLABLE_START + cho * 588 + jung * 28 + jong
}

/// The syllable of a leading consonant, a vowel and a trailing value ('\0' for
/// none), each a member of its table.
pub open spec fn compose(cho: char, jung: char, jong: char) -> char {
    (syllable_code(
        choseongs().index_of(cho),
        jungseongs().index_of(jung),
        jongseongs().index_of(jong),
    ) as u32) as char
}

/// Relies on char::from_u32: `Some` exactly for Unicode scalar values, holding
/// the character with that code point.
#[verifier::external_body]
fn char_from_u32(code: u32) -> (r: Option<char>)
    ensures
        r is Some <==> (code < 0xD800 || (0xE000 <= code && code <= 0x10FFFF)),
        r matches Some(c) ==> c as u32 == code,
{
    char::from_u32(code)
}

/// The syllable block of a leading consonant, a vowel and an optional trailing
/// consonant.
pub fn assemble_hangul(cho: &char, jung: &char, jong: Option<&char>) -> (r: char)
    requires
        choseongs().contains(*cho),
        jungseongs().contains(*jung),
        jong matches Some(j) ==> jongseongs().contains(*j),
    ensures
        r == compose(
            *cho,
            *jung,
            match jong {
                Some(j) => *j,
                None => '\0',
            },
        ),
        HANGUL_SYLLABLE_START <= r as u32 <= HANGUL_SYLLABLE_END,
{
    proof {
        lemma_tables_distinct();
    }
    let cho_index = cho_index(cho).unwrap();
    let jung_index = jung_index(jung).unwrap();
    let jong_index = match jong {
        Some(j) => jong_index(j).unwrap(),
        None => 0,
    };
    proof {
        lemma_index_of_entry(choseongs(), cho_index as int);
        lemma_index_of_entry(jungseongs(), jung_index as int);
        lemma_index_of_entry(jongseongs(), jong_index as int);
    }
    let syllable_index = HANGUL_SYLLABLE_START + cho_index * 588 + jung_index * 28 + jong_index;
    let r = char_from_u32(syllable_index).unwrap();
    proof {
        vstd::utf8::char_u32_cast(r, syllable_index);
    }
    r
}

} // verus!
