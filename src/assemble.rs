use vstd::prelude::*;

use crate::hangul_unicodes::{
    assemble_hangul, choseongs, compose, is_cho, is_jong, is_jung, joined_consonant, joined_vowel,
    jong_maybe_joined, jongseongs, jung_maybe_joined, jungseongs, lemma_table_ranges,
    HANGUL_COMPATIBILITY_JAMO_END, HANGUL_COMPATIBILITY_JAMO_START, HANGUL_SYLLABLE_END,
    HANGUL_SYLLABLE_START,
};

verus! {

/// What the assembler holds between two characters: the letters of a syllable
/// still open to extension.
#[derive(Clone, Copy, Debug, PartialEq, Eq, Structural)]
pub enum AssembleState {
    /// Nothing pending.
    Initial,
    /// A leading consonant.
    Cho(char),
    /// A vowel with no consonant before it.
    Jung(char),
    /// Two leading consonants that join into the third; a vowel next splits
    /// them, anything else keeps the joined glyph.
    ChoCho(char, char, char),
    /// A leading consonant and a vowel.
    ChoJung(char, char),
    /// A leading consonant, a vowel and a trailing consonant.
    ChoJungJong(char, char, char),
    /// As above with a second trailing consonant; the last field is the
    /// compound the two trailing consonants join into.
    ChoJungJongJong(char, char, char, char, char),
}

/// Every letter a state holds is a member of the table of its role, and the
/// joined glyphs are what their parts join into.
pub open spec fn state_wf(state: AssembleState) -> bool {
    match state {
        AssembleState::Initial => true,
        AssembleState::Cho(c) => choseongs().contains(c),
        AssembleState::Jung(v) => jungseongs().contains(v),
        AssembleState::ChoCho(c1, c2, joined) => {
            &&& choseongs().contains(c1)
            &&& choseongs().contains(c2)
            &&& joined_consonant(c1, c2) == Some(joined)
        },
        AssembleState::ChoJung(c, v) => choseongs().contains(c) && jungseongs().contains(v),
        AssembleState::ChoJungJong(c, v, j) => {
            &&& choseongs().contains(c)
            &&& jungseongs().contains(v)
            &&& jongseongs().contains(j)
        },
        AssembleState::ChoJungJongJong(c, v, j1, j2, joined) => {
            &&& choseongs().contains(c)
            &&& jungseongs().contains(v)
            &&& jongseongs().contains(j1)
            &&& choseongs().contains(j2)
            &&& jongseongs().contains(joined)
            &&& joined_consonant(j1, j2) == Some(joined)
        },
    }
}

/// The state a character opens from nothing, and what it emits.
pub open spec fn start(ch: char) -> (AssembleState, Seq<char>) {
    if choseongs().contains(ch) {
        (AssembleState::Cho(ch), Seq::empty())
    } else if jungseongs().contains(ch) {
        (AssembleState::Jung(ch), Seq::empty())
    } else {
        (AssembleState::Initial, seq![ch])
    }
}

/// `start(ch)` with `emitted` written before what it emits.
pub open spec fn start_after(emitted: char, ch: char) -> (AssembleState, Seq<char>) {
    (start(ch).0, seq![emitted] + start(ch).1)
}

/// One step of the assembler: the next state, and the characters emitted.
///
/// NUL marks "no trailing consonant" in the trailing table but is no letter:
/// it never extends a syllable and passes through like any other character.
///
/// A trailing consonant moves on to lead the next syllable when a vowel
/// follows it, provided it can lead one: a compound trailing consonant typed
/// whole (ㄳ) stays with its syllable, and the vowel starts afresh.
pub open spec fn step(state: AssembleState, ch: char) -> (AssembleState, Seq<char>) {
    match state {
        AssembleState::Initial => start(ch),
        AssembleState::Cho(prev) => if choseongs().contains(ch) {
            match joined_consonant(prev, ch) {
                Some(joined) => (AssembleState::ChoCho(prev, ch, joined), Seq::empty()),
                None => (AssembleState::Cho(ch), seq![prev]),
            }
        } else if jungseongs().contains(ch) {
            (AssembleState::ChoJung(prev, ch), Seq::empty())
        } else {
            (AssembleState::Initial, seq![prev, ch])
        },
        AssembleState::Jung(v) => match joined_vowel(v, ch) {
            Some(joined) => (AssembleState::Initial, seq![joined]),
            None => start_after(v, ch),
        },
        AssembleState::ChoCho(c1, c2, joined) => if jungseongs().contains(ch) {
            (AssembleState::ChoJung(c2, ch), seq![c1])
        } else {
            start_after(joined, ch)
        },
        AssembleState::ChoJung(c, v) => if jongseongs().contains(ch) && ch != '\0' {
            (AssembleState::ChoJungJong(c, v, ch), Seq::empty())
        } else {
            match joined_vowel(v, ch) {
                Some(joined) => (AssembleState::ChoJung(c, joined), Seq::empty()),
                None => start_after(compose(c, v, '\0'), ch),
            }
        },
        AssembleState::ChoJungJong(c, v, j) => match joined_consonant(j, ch) {
            Some(joined) => (AssembleState::ChoJungJongJong(c, v, j, ch, joined), Seq::empty()),
            None => if jungseongs().contains(ch) && choseongs().contains(j) {
                (AssembleState::ChoJung(j, ch), seq![compose(c, v, '\0')])
            } else {
                start_after(compose(c, v, j), ch)
            },
        },
        AssembleState::ChoJungJongJong(c, v, j1, j2, joined) => if jungseongs().contains(ch) {
            (AssembleState::ChoJung(j2, ch), seq![compose(c, v, j1)])
        } else {
            start_after(compose(c, v, joined), ch)
        },
    }
}

/// What a state emits at the end of the input.
pub open spec fn flush(state: AssembleState) -> Seq<char> {
    match state {
        AssembleState::Initial => Seq::empty(),
        AssembleState::Cho(c) => seq![c],
        AssembleState::Jung(v) => seq![v],
        AssembleState::ChoCho(_, _, joined) => seq![joined],
        AssembleState::ChoJung(c, v) => seq![compose(c, v, '\0')],
        AssembleState::ChoJungJong(c, v, j) => seq![compose(c, v, j)],
        AssembleState::ChoJungJongJong(c, v, _, _, joined) => seq![compose(c, v, joined)],
    }
}

/// The state after feeding `input` to the assembler in `state`, and all that
/// was emitted on the way.
pub open spec fn run(state: AssembleState, input: Seq<char>) -> (AssembleState, Seq<char>)
    decreases input.len(),
{
    if input.len() == 0 {
        (state, Seq::empty())
    } else {
        let (before, emitted) = run(state, input.drop_last());
        let (after, more) = step(before, input.last());
        (after, emitted + more)
    }
}

/// The text that the assembler makes of `input`.
pub open spec fn assembled(input: Seq<char>) -> Seq<char> {
    let (state, emitted) = run(AssembleState::Initial, input);
    emitted + flush(state)
}

/// A compound consonant's parts are a trailing and a leading consonant, and the
/// compound is a trailing consonant; a compound vowel is a vowel.
pub proof fn lemma_joined_members(first: char, second: char)
    ensures
        joined_consonant(first, second) matches Some(joined) ==> {
            &&& jongseongs().contains(first)
            &&& choseongs().contains(second)
            &&& jongseongs().contains(joined)
        },
        joined_vowel(first, second) matches Some(joined) ==> {
            &&& jungseongs().contains(first)
            &&& jungseongs().contains(second)
            &&& jungseongs().contains(joined)
        },
{
}

/// Feeding two pieces of input one after the other is feeding their
/// concatenation.
pub proof fn lemma_run_concat(state: AssembleState, first: Seq<char>, second: Seq<char>)
    ensures
        run(state, first + second) == (
            run(run(state, first).0, second).0,
            run(state, first).1 + run(run(state, first).0, second).1,
        ),
    decreases second.len(),
{
    if second.len() == 0 {
        assert(first + second == first);
    } else {
        lemma_run_concat(state, first, second.drop_last());
        assert((first + second).drop_last() == first + second.drop_last());
    }
}

/// Feeding one character is one step.
pub proof fn lemma_run_one(state: AssembleState, ch: char)
    ensures
        run(state, seq![ch]) == step(state, ch),
{
    assert(seq![ch].drop_last() == Seq::<char>::empty());
    assert(run(state, Seq::<char>::empty()) == (state, Seq::<char>::empty()));
    assert(Seq::<char>::empty() + step(state, ch).1 == step(state, ch).1);
}

/// A character that is no letter: neither a syllable nor a compatibility jamo.
pub open spec fn is_other(ch: char) -> bool {
    &&& !(HANGUL_SYLLABLE_START <= ch as u32 <= HANGUL_SYLLABLE_END)
    &&& !(HANGUL_COMPATIBILITY_JAMO_START <= ch as u32 <= HANGUL_COMPATIBILITY_JAMO_END)
}

/// Such a character closes whatever is pending and goes to the output after it.
pub proof fn lemma_step_other(state: AssembleState, ch: char)
    requires
        is_other(ch),
    ensures
        step(state, ch) == (AssembleState::Initial, flush(state) + seq![ch]),
{
    lemma_table_ranges();
    assert(!choseongs().contains(ch));
    assert(!jungseongs().contains(ch));
}

/// A character that is no letter passes through the assembler unchanged and
/// splits it: what stands before it and what stands after it assemble on their
/// own.
pub proof fn lemma_assemble_passthrough(before: Seq<char>, ch: char, after: Seq<char>)
    requires
        is_other(ch),
    ensures
        assembled(before + seq![ch] + after) == assembled(before) + seq![ch] + assembled(after),
{
    let (state, emitted) = run(AssembleState::Initial, before);
    lemma_run_concat(AssembleState::Initial, before + seq![ch], after);
    lemma_run_concat(AssembleState::Initial, before, seq![ch]);
    lemma_run_one(state, ch);
    lemma_step_other(state, ch);
    assert(flush(AssembleState::Initial) == Seq::<char>::empty());
    assert(assembled(before + seq![ch] + after) =~= assembled(before) + seq![ch] + assembled(
        after,
    ));
}

/// Relies on String::push: appends the character to the end of the string.
#[verifier::external_body]
fn push_char(text: &mut String, ch: char)
    ensures
        final(text)@ == old(text)@.push(ch),
{
    text.push(ch);
}

/// Opens a state from nothing with `ch`; a character that is neither a
/// leading consonant nor a vowel goes to the output as it is.
fn initialize(ch: char, result: &mut String) -> (next: AssembleState)
    ensures
        next == start(ch).0,
        final(result)@ == old(result)@ + start(ch).1,
        state_wf(next),
{
    if is_cho(&ch) {
        AssembleState::Cho(ch)
    } else if is_jung(&ch) {
        AssembleState::Jung(ch)
    } else {
        push_char(result, ch);
        AssembleState::Initial
    }
}

/// Feeds one character to the assembler.
fn transition(state: AssembleState, ch: char, result: &mut String) -> (next: AssembleState)
    requires
        state_wf(state),
    ensures
        next == step(state, ch).0,
        final(result)@ == old(result)@ + step(state, ch).1,
        state_wf(next),
{
    match state {
        AssembleState::Initial => initialize(ch, result),
        AssembleState::Cho(prev) => {
            if is_cho(&ch) {
                proof {
                    lemma_joined_members(prev, ch);
                }
                match jong_maybe_joined(&prev, &ch) {
                    Some(joined) => AssembleState::ChoCho(prev, ch, joined),
                    None => {
                        push_char(result, prev);
                        AssembleState::Cho(ch)
                    },
                }
            } else if is_jung(&ch) {
                AssembleState::ChoJung(prev, ch)
            } else {
                push_char(result, prev);
                push_char(result, ch);
                AssembleState::Initial
            }
        },
        AssembleState::Jung(jung) => {
            proof {
                lemma_joined_members(jung, ch);
            }
            match jung_maybe_joined(&jung, &ch) {
                Some(joined) => {
                    push_char(result, joined);
                    AssembleState::Initial
                },
                None => {
                    push_char(result, jung);
                    initialize(ch, result)
                },
            }
        },
        AssembleState::ChoCho(char1, char2, joined) => {
            if is_jung(&ch) {
                push_char(result, char1);
                AssembleState::ChoJung(char2, ch)
            } else {
                push_char(result, joined);
                initialize(ch, result)
            }
        },
        AssembleState::ChoJung(cho, jung) => {
            proof {
                lemma_joined_members(jung, ch);
            }
            if is_jong(&ch) && ch != '\0' {
                AssembleState::ChoJungJong(cho, jung, ch)
            } else {
                match jung_maybe_joined(&jung, &ch) {
                    Some(joined) => AssembleState::ChoJung(cho, joined),
                    None => {
                        push_char(result, assemble_hangul(&cho, &jung, None));
                        initialize(ch, result)
                    },
                }
            }
        },
        AssembleState::ChoJungJong(cho, jung, jong) => {
            proof {
                lemma_joined_members(jong, ch);
            }
            match jong_maybe_joined(&jong, &ch) {
                Some(joined) => AssembleState::ChoJungJongJong(cho, jung, jong, ch, joined),
                None => {
                    if is_jung(&ch) && is_cho(&jong) {
                        push_char(result, assemble_hangul(&cho, &jung, None));
                        AssembleState::ChoJung(jong, ch)
                    } else {
                        push_char(result, assemble_hangul(&cho, &jung, Some(&jong)));
                        initialize(ch, result)
                    }
                },
            }
        },
        AssembleState::ChoJungJongJong(cho, jung, jong1, jong2, joined) => {
            if is_jung(&ch) {
                push_char(result, assemble_hangul(&cho, &jung, Some(&jong1)));
                AssembleState::ChoJung(jong2, ch)
            } else {
                push_char(result, assemble_hangul(&cho, &jung, Some(&joined)));
                initialize(ch, result)
            }
        },
    }
}

/// Emits what the state holds at the end of the input.
fn flush_state(state: AssembleState, result: &mut String)
    requires
        state_wf(state),
    ensures
        final(result)@ == old(result)@ + flush(state),
{
    match state {
        AssembleState::Initial => {},
        AssembleState::Cho(cho) => push_char(result, cho),
        AssembleState::Jung(jung) => push_char(result, jung),
        AssembleState::ChoCho(_, _, joined) => push_char(result, joined),
        AssembleState::ChoJung(cho, jung) => push_char(result, assemble_hangul(&cho, &jung, None)),
        AssembleState::ChoJungJong(cho, jung, jong) => push_char(
            result,
            assemble_hangul(&cho, &jung, Some(&jong)),
        ),
        AssembleState::ChoJungJongJong(cho, jung, _, _, joined) => push_char(
            result,
            assemble_hangul(&cho, &jung, Some(&joined)),
        ),
    }
}

/// Folds a sequence of letters and other characters into text, joining letters
/// into syllables and compound letters as they are typed.
pub fn assemble(chars: &[char]) -> (r: String)
    ensures
        r@ == assembled(chars@),
{
    let mut result = String::new();
    let mut state = AssembleState::Initial;
    let mut i: usize = 0;
    while i < chars.len()
        invariant
            i <= chars.len(),
            state_wf(state),
            (state, result@) == run(AssembleState::Initial, chars@.take(i as int)),
        decreases chars.len() - i,
    {
        assert(chars@.take(i + 1).drop_last() == chars@.take(i as int));
        state = transition(state, chars[i], &mut result);
        i = i + 1;
    }
    assert(chars@.take(i as int) == chars@);
    flush_state(state, &mut result);
    result
}

} // verus!
