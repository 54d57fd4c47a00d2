use vstd::prelude::*;

use vstd::arithmetic::div_mod::{lemma_fundamental_div_mod, lemma_mod_mod};

use crate::assemble::{
    assembled, flush, is_other, lemma_joined_members, lemma_run_concat, lemma_run_one,
    lemma_step_other, run, step, AssembleState,
};
use crate::disassemble::{
    disassembled, disassembled_char, is_syllable, lemma_syllable_round_trip, syllable_indices,
};
use crate::hangul_unicodes::{
    choseongs, compose, jongseongs, jungseongs, lemma_choseongs_simple, lemma_index_of_entry,
    lemma_split_inverts_join, lemma_table_ranges, lemma_tables_distinct, split_jamo,
    syllable_code,
};

verus! {

/// The three indices of a syllable are in range and compose back into it.
pub proof fn lemma_syllable_parts(y: char)
    requires
        is_syllable(y),
    ensures
        ({
            let (cho, jung, jong) = syllable_indices(y as int);
            &&& 0 <= cho < 19
            &&& 0 <= jung < 21
            &&& 0 <= jong < 28
            &&& syllable_code(cho, jung, jong) == y as int
        }),
{
    let index = y as int - 0xAC00;
    lemma_fundamental_div_mod(index, 588);
    lemma_fundamental_div_mod(index % 588, 28);
    lemma_mod_mod(index, 28, 21);
    assert(index / 588 < 19) by (nonlinear_arith)
        requires
            0 <= index <= 0xD7A3 - 0xAC00,
            index == 588 * (index / 588) + index % 588,
            0 <= index % 588 < 588,
    ;
}

/// The state in which the assembler holds a syllable once it has read the
/// syllable's letters.
pub open spec fn pending(y: char) -> AssembleState {
    let (cho, jung, jong) = syllable_indices(y as int);
    let (c, v, j) = (choseongs()[cho], jungseongs()[jung], jongseongs()[jong]);
    if jong == 0 {
        AssembleState::ChoJung(c, v)
    } else if split_jamo(j).len() == 2 {
        AssembleState::ChoJungJongJong(c, v, split_jamo(j)[0], split_jamo(j)[1], j)
    } else {
        AssembleState::ChoJungJong(c, v, j)
    }
}

/// The state between two characters of disassembled text: nothing, or the
/// last syllable.
pub open spec fn held(last: Option<char>) -> AssembleState {
    match last {
        Some(y) => pending(y),
        None => AssembleState::Initial,
    }
}

/// A held syllable comes out as itself.
pub proof fn lemma_flush_pending(y: char)
    requires
        is_syllable(y),
    ensures
        flush(pending(y)) == seq![y],
{
    let (cho, jung, jong) = syllable_indices(y as int);
    lemma_syllable_parts(y);
    lemma_tables_distinct();
    lemma_table_ranges();
    lemma_index_of_entry(choseongs(), cho);
    lemma_index_of_entry(jungseongs(), jung);
    lemma_index_of_entry(jongseongs(), jong);
    lemma_index_of_entry(jongseongs(), 0);
    vstd::utf8::char_u32_cast(y, y as u32);
}

/// Reading a syllable's leading consonant and its vowel letters closes the
/// syllable held before it and leaves the new consonant and vowel pending.
proof fn lemma_feed_onset(last: Option<char>, c: char, v: char)
    requires
        last matches Some(y) ==> is_syllable(y),
        choseongs().contains(c),
        jungseongs().contains(v),
    ensures
        run(held(last), seq![c] + split_jamo(v)) == (AssembleState::ChoJung(c, v), flush(
            held(last),
        )),
{
    lemma_table_ranges();
    let state = held(last);
    let first = split_jamo(v)[0];
    lemma_split_inverts_join(first, split_jamo(v)[1], v);
    lemma_joined_members(first, split_jamo(v)[1]);
    assert(jungseongs().contains(first));
    lemma_run_concat(state, seq![c], seq![first]);
    lemma_run_one(state, c);
    lemma_run_one(step(state, c).0, first);
    assert(run(state, seq![c] + seq![first]) == (AssembleState::ChoJung(c, first), flush(state)));
    if split_jamo(v).len() == 2 {
        let second = split_jamo(v)[1];
        assert(split_jamo(v) == seq![first] + seq![second]);
        assert(seq![c] + split_jamo(v) == seq![c] + seq![first] + seq![second]);
        lemma_run_concat(state, seq![c] + seq![first], seq![second]);
        lemma_run_one(AssembleState::ChoJung(c, first), second);
    } else {
        assert(split_jamo(v) == seq![first]);
    }
}

/// Reading the letters of a trailing consonant after a consonant and a vowel
/// leaves the three of them pending, the trailing consonant joined again if it
/// was a compound.
proof fn lemma_feed_coda(c: char, v: char, j: char)
    requires
        jongseongs().contains(j),
        j != '\0',
    ensures
        run(AssembleState::ChoJung(c, v), split_jamo(j)) == (
            if split_jamo(j).len() == 2 {
                AssembleState::ChoJungJongJong(c, v, split_jamo(j)[0], split_jamo(j)[1], j)
            } else {
                AssembleState::ChoJungJong(c, v, j)
            },
            Seq::<char>::empty(),
        ),
{
    lemma_table_ranges();
    let state = AssembleState::ChoJung(c, v);
    let first = split_jamo(j)[0];
    lemma_split_inverts_join(first, split_jamo(j)[1], j);
    lemma_joined_members(first, split_jamo(j)[1]);
    if split_jamo(j).len() == 2 {
        let second = split_jamo(j)[1];
        assert(split_jamo(j) == seq![first] + seq![second]);
        lemma_run_concat(state, seq![first], seq![second]);
        lemma_run_one(state, first);
        lemma_run_one(AssembleState::ChoJungJong(c, v, first), second);
    } else {
        assert(split_jamo(j) == seq![j]);
        lemma_run_one(state, j);
    }
}

/// Reading the letters of a syllable closes the syllable held before it and
/// leaves this one held.
pub proof fn lemma_feed_syllable(last: Option<char>, y: char)
    requires
        last matches Some(z) ==> is_syllable(z),
        is_syllable(y),
    ensures
        run(held(last), disassembled_char(y)) == (pending(y), flush(held(last))),
{
    let (cho, jung, jong) = syllable_indices(y as int);
    lemma_syllable_parts(y);
    lemma_choseongs_simple();
    let (c, v, j) = (choseongs()[cho], jungseongs()[jung], jongseongs()[jong]);
    assert(choseongs().contains(c));
    assert(jungseongs().contains(v));
    let onset = seq![c] + split_jamo(v);
    lemma_feed_onset(last, c, v);
    if jong == 0 {
        assert(disassembled_char(y) == onset);
    } else {
        assert(jongseongs().contains(j));
        lemma_table_ranges();
        assert(disassembled_char(y) == onset + split_jamo(j));
        lemma_run_concat(held(last), onset, split_jamo(j));
        lemma_feed_coda(c, v, j);
    }
}

/// Whether the text ends in a syllable, and which.
pub open spec fn last_syllable(text: Seq<char>) -> Option<char> {
    if text.len() > 0 && is_syllable(text.last()) {
        Some(text.last())
    } else {
        None
    }
}

/// Text of which every character is a syllable or no letter at all.
pub open spec fn syllables_and_others(text: Seq<char>) -> bool {
    forall|i: int| 0 <= i < text.len() ==> is_syllable(#[trigger] text[i]) || is_other(text[i])
}

/// After the letters of such a text the assembler holds its last syllable,
/// and has emitted all the rest.
proof fn lemma_run_disassembled(text: Seq<char>)
    requires
        syllables_and_others(text),
    ensures
        run(AssembleState::Initial, disassembled(text)).0 == held(last_syllable(text)),
        run(AssembleState::Initial, disassembled(text)).1 + flush(held(last_syllable(text)))
            == text,
    decreases text.len(),
{
    if text.len() == 0 {
        assert(disassembled(text) == Seq::<char>::empty());
        assert(run(AssembleState::Initial, Seq::<char>::empty()) == (
            AssembleState::Initial,
            Seq::<char>::empty(),
        ));
        assert(text == Seq::<char>::empty());
    } else {
        let rest = text.drop_last();
        let y = text.last();
        assert(syllables_and_others(rest));
        lemma_run_disassembled(rest);
        let last = last_syllable(rest);
        let emitted = run(AssembleState::Initial, disassembled(rest)).1;
        lemma_run_concat(AssembleState::Initial, disassembled(rest), disassembled_char(y));
        assert(is_syllable(text[text.len() - 1]) || is_other(text[text.len() - 1]));
        if is_syllable(y) {
            lemma_feed_syllable(last, y);
            lemma_flush_pending(y);
        } else {
            assert(disassembled_char(y) == seq![y]);
            lemma_run_one(held(last), y);
            lemma_step_other(held(last), y);
            assert(flush(AssembleState::Initial) == Seq::<char>::empty());
        }
        assert(rest + seq![y] == text);
    }
}

/// Assembling the letters of a text made of syllables and characters that are
/// no letters gives the text back. Standalone jamo are left out: the letters of
/// a syllable followed by a standalone vowel, for one, join differently.
pub proof fn lemma_reassemble(text: Seq<char>)
    requires
        syllables_and_others(text),
    ensures
        assembled(disassembled(text)) == text,
{
    lemma_run_disassembled(text);
}

/// Disassembling the syllable composed of a leading consonant, a vowel and a
/// trailing value recovers exactly those letters, each compound split in two,
/// and nothing for the trailing value "none".
pub proof fn lemma_compose_disassemble(cho: int, jung: int, jong: int)
    requires
        0 <= cho < 19,
        0 <= jung < 21,
        0 <= jong < 28,
    ensures
        disassembled_char(compose(choseongs()[cho], jungseongs()[jung], jongseongs()[jong]))
            == split_jamo(choseongs()[cho]) + split_jamo(jungseongs()[jung]) + if jong == 0 {
            Seq::<char>::empty()
        } else {
            split_jamo(jongseongs()[jong])
        },
{
    let y = compose(choseongs()[cho], jungseongs()[jung], jongseongs()[jong]);
    lemma_tables_distinct();
    lemma_index_of_entry(choseongs(), cho);
    lemma_index_of_entry(jungseongs(), jung);
    lemma_index_of_entry(jongseongs(), jong);
    lemma_syllable_round_trip(cho, jung, jong);
    let code = syllable_code(cho, jung, jong);
    assert(y as int == code);
    assert(is_syllable(y));
}

/// Equal inputs assemble into equal texts and disassemble into equal letters.
pub proof fn lemma_deterministic(input: Seq<char>, same: Seq<char>)
    requires
        input == same,
    ensures
        assembled(input) == assembled(same),
        disassembled(input) == disassembled(same),
{
}

} // verus!
