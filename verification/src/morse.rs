//! Morse codec: classification of a press duration into a pulse symbol, and
//! exact-match lookup of a pulse sequence in the static morse table.

use vstd::prelude::*;

verus! {

use crate::morse::MorseCharacter::Dash;
use crate::morse::MorseCharacter::Dot;

/// A single morse pulse: a dot (short press) or a dash (long press).
#[derive(Clone, Copy, PartialEq, Eq, Structural, Debug)]
pub enum MorseCharacter {
    Dot,
    Dash,
}

impl MorseCharacter {
    /// The glyph under which the pulse is written out.
    pub fn symbol(&self) -> (r: &'static str)
        ensures
            self is Dot ==> r@ == "."@,
            self is Dash ==> r@ == "-"@,
    {
        match self {
            MorseCharacter::Dot => ".",
            MorseCharacter::Dash => "-",
        }
    }
}

/// Press durations of at least this many milliseconds count as a dash.
pub const DASH_THRESHOLD_MS: u64 = 200;

/// What `classify` returns for a given press duration.
pub open spec fn classified(duration_ms: u64) -> MorseCharacter {
    if duration_ms >= DASH_THRESHOLD_MS {
        MorseCharacter::Dash
    } else {
        MorseCharacter::Dot
    }
}

/// Classify a measured press duration into a pulse symbol: a dash exactly
/// when the press lasted at least the threshold, a dot otherwise.
pub fn classify(duration_ms: u64) -> (r: MorseCharacter)
    ensures
        r == classified(duration_ms),
        r == MorseCharacter::Dash <==> duration_ms >= DASH_THRESHOLD_MS,
        r == MorseCharacter::Dot <==> duration_ms < DASH_THRESHOLD_MS,
{
    if duration_ms >= DASH_THRESHOLD_MS {
        MorseCharacter::Dash
    } else {
        MorseCharacter::Dot
    }
}

/// The static morse table: letters, digits and punctuation, each paired with
/// its pulse sequence. Lookup is an exact match against these sequences.
pub open spec fn morse_table() -> Seq<(Seq<MorseCharacter>, char)> {
    seq![
        (seq![Dot, Dash], 'A'),
        (seq![Dash, Dot, Dot, Dot], 'B'),
        (seq![Dash, Dot, Dash, Dot], 'C'),
        (seq![Dash, Dot, Dot], 'D'),
        (seq![Dot], 'E'),
        (seq![Dot, Dot, Dash, Dot], 'F'),
        (seq![Dash, Dash, Dot], 'G'),
        (seq![Dot, Dot, Dot, Dot], 'H'),
        (seq![Dot, Dot], 'I'),
        (seq![Dot, Dash, Dash, Dash], 'J'),
        (seq![Dash, Dot, Dash], 'K'),
        (seq![Dot, Dash, Dot, Dot], 'L'),
        (seq![Dash, Dash], 'M'),
        (seq![Dash, Dot], 'N'),
        (seq![Dash, Dash, Dash], 'O'),
        (seq![Dot, Dash, Dash, Dot], 'P'),
        (seq![Dash, Dash, Dot, Dash], 'Q'),
        (seq![Dot, Dash, Dot], 'R'),
        (seq![Dot, Dot, Dot], 'S'),
        (seq![Dash], 'T'),
        (seq![Dot, Dot, Dash], 'U'),
        (seq![Dot, Dot, Dot, Dash], 'V'),
        (seq![Dot, Dash, Dash], 'W'),
        (seq![Dash, Dot, Dot, Dash], 'X'),
        (seq![Dash, Dot, Dash, Dash], 'Y'),
        (seq![Dash, Dash, Dot, Dot], 'Z'),
        (seq![Dot, Dash, Dash, Dash, Dash], '1'),
        (seq![Dot, Dot, Dash, Dash, Dash], '2'),
        (seq![Dot, Dot, Dot, Dash, Dash], '3'),
        (seq![Dot, Dot, Dot, Dot, Dash], '4'),
        (seq![Dot, Dot, Dot, Dot, Dot], '5'),
        (seq![Dash, Dot, Dot, Dot, Dot], '6'),
        (seq![Dash, Dash, Dot, Dot, Dot], '7'),
        (seq![Dash, Dash, Dash, Dot, Dot], '8'),
        (seq![Dash, Dash, Dash, Dash, Dot], '9'),
        (seq![Dash, Dash, Dash, Dash, Dash], '0'),
        (seq![Dot, Dash, Dot, Dot, Dot], '&'),
        (seq![Dot, Dash, Dash, Dot, Dash, Dot], '@'),
        (seq![Dash, Dash, Dash, Dot, Dot, Dot], ':'),
        (seq![Dash, Dash, Dot, Dot, Dash, Dash], ','),
        (seq![Dot, Dash, Dot, Dash, Dot, Dash], '.'),
        (seq![Dot, Dash, Dash, Dash, Dash, Dot], '\''),
        (seq![Dot, Dash, Dot, Dot, Dash, Dot], '\\'),
        (seq![Dot, Dot, Dash, Dash, Dot, Dot], '?'),
        (seq![Dash, Dot, Dot, Dash, Dot], '/'),
        (seq![Dash, Dot, Dot, Dot, Dash], '='),
        (seq![Dot, Dash, Dot, Dash, Dot], '+'),
        (seq![Dash, Dot, Dot, Dot, Dot, Dash], '-'),
        (seq![Dash, Dot, Dash, Dash, Dot], '('),
        (seq![Dash, Dot, Dash, Dash, Dot, Dash], ')'),
        (seq![Dash, Dot, Dash, Dot, Dash, Dash], '!'),
    ]
}

/// First-match lookup of `s` among the entries of `t`.
pub open spec fn lookup_from(
    t: Seq<(Seq<MorseCharacter>, char)>,
    s: Seq<MorseCharacter>,
) -> Option<char>
    decreases t.len(),
{
    if t.len() == 0 {
        None
    } else if t[0].0 == s {
        Some(t[0].1)
    } else {
        lookup_from(t.subrange(1, t.len() as int), s)
    }
}

/// The character that a pulse sequence denotes, if any.
pub open spec fn morse_char_of(s: Seq<MorseCharacter>) -> Option<char> {
    lookup_from(morse_table(), s)
}

/// The morse table as runtime data, entry for entry equal to `morse_table`.
fn morse_table_exec() -> (t: Vec<(Vec<MorseCharacter>, char)>)
    ensures
        t@.len() == morse_table().len(),
        forall|i: int|
            0 <= i < t@.len() ==> (#[trigger] t@[i]).0@ == morse_table()[i].0 && t@[i].1
                == morse_table()[i].1,
{
    let mut t: Vec<(Vec<MorseCharacter>, char)> = Vec::new();
    t.push((vec![Dot, Dash], 'A'));
    t.push((vec![Dash, Dot, Dot, Dot], 'B'));
    t.push((vec![Dash, Dot, Dash, Dot], 'C'));
    t.push((vec![Dash, Dot, Dot], 'D'));
    t.push((vec![Dot], 'E'));
    t.push((vec![Dot, Dot, Dash, Dot], 'F'));
    t.push((vec![Dash, Dash, Dot], 'G'));
    t.push((vec![Dot, Dot, Dot, Dot], 'H'));
    t.push((vec![Dot, Dot], 'I'));
    t.push((vec![Dot, Dash, Dash, Dash], 'J'));
    t.push((vec![Dash, Dot, Dash], 'K'));
    t.push((vec![Dot, Dash, Dot, Dot], 'L'));
    t.push((vec![Dash, Dash], 'M'));
    t.push((vec![Dash, Dot], 'N'));
    t.push((vec![Dash, Dash, Dash], 'O'));
    t.push((vec![Dot, Dash, Dash, Dot], 'P'));
    t.push((vec![Dash, Dash, Dot, Dash], 'Q'));
    t.push((vec![Dot, Dash, Dot], 'R'));
    t.push((vec![Dot, Dot, Dot], 'S'));
    t.push((vec![Dash], 'T'));
    t.push((vec![Dot, Dot, Dash], 'U'));
    t.push((vec![Dot, Dot, Dot, Dash], 'V'));
    t.push((vec![Dot, Dash, Dash], 'W'));
    t.push((vec![Dash, Dot, Dot, Dash], 'X'));
    t.push((vec![Dash, Dot, Dash, Dash], 'Y'));
    t.push((vec![Dash, Dash, Dot, Dot], 'Z'));
    t.push((vec![Dot, Dash, Dash, Dash, Dash], '1'));
    t.push((vec![Dot, Dot, Dash, Dash, Dash], '2'));
    t.push((vec![Dot, Dot, Dot, Dash, Dash], '3'));
    t.push((vec![Dot, Dot, Dot, Dot, Dash], '4'));
    t.push((vec![Dot, Dot, Dot, Dot, Dot], '5'));
    t.push((vec![Dash, Dot, Dot, Dot, Dot], '6'));
    t.push((vec![Dash, Dash, Dot, Dot, Dot], '7'));
    t.push((vec![Dash, Dash, Dash, Dot, Dot], '8'));
    t.push((vec![Dash, Dash, Dash, Dash, Dot], '9'));
    t.push((vec![Dash, Dash, Dash, Dash, Dash], '0'));
    t.push((vec![Dot, Dash, Dot, Dot, Dot], '&'));
    t.push((vec![Dot, Dash, Dash, Dot, Dash, Dot], '@'));
    t.push((vec![Dash, Dash, Dash, Dot, Dot, Dot], ':'));
    t.push((vec![Dash, Dash, Dot, Dot, Dash, Dash], ','));
    t.push((vec![Dot, Dash, Dot, Dash, Dot, Dash], '.'));
    t.push((vec![Dot, Dash, Dash, Dash, Dash, Dot], '\''));
    t.push((vec![Dot, Dash, Dot, Dot, Dash, Dot], '\\'));
    t.push((vec![Dot, Dot, Dash, Dash, Dot, Dot], '?'));
    t.push((vec![Dash, Dot, Dot, Dash, Dot], '/'));
    t.push((vec![Dash, Dot, Dot, Dot, Dash], '='));
    t.push((vec![Dot, Dash, Dot, Dash, Dot], '+'));
    t.push((vec![Dash, Dot, Dot, Dot, Dot, Dash], '-'));
    t.push((vec![Dash, Dot, Dash, Dash, Dot], '('));
    t.push((vec![Dash, Dot, Dash, Dash, Dot, Dash], ')'));
    t.push((vec![Dash, Dot, Dash, Dot, Dash, Dash], '!'));
    t
}

/// Exact elementwise comparison of a table entry against the input slice.
fn pulses_eq(a: &Vec<MorseCharacter>, b: &[MorseCharacter]) -> (r: bool)
    ensures
        r <==> a@ == b@,
{
    if a.len() != b.len() {
        return false;
    }
    let mut i: usize = 0;
    while i < a.len()
        invariant
            0 <= i <= a@.len(),
            a@.len() == b@.len(),
            forall|k: int| 0 <= k < i ==> a@[k] == b@[k],
        decreases a@.len() - i,
    {
        if a[i] != b[i] {
            return false;
        }
        i += 1;
    }
    proof {
        assert(a@ =~= b@);
    }
    true
}

/// Exact-match lookup of a pulse sequence in the morse table: the character
/// of the first matching entry, or nothing when no entry matches.
pub fn match_morse(input: &[MorseCharacter]) -> (r: Option<char>)
    ensures
        r == morse_char_of(input@),
{
    let table = morse_table_exec();
    let n = table.len();
    let mut i: usize = 0;
    proof {
        assert(morse_table().subrange(0, morse_table().len() as int) =~= morse_table());
    }
    while i < n
        invariant
            0 <= i <= n,
            n == table@.len(),
            table@.len() == morse_table().len(),
            forall|k: int|
                0 <= k < table@.len() ==> (#[trigger] table@[k]).0@ == morse_table()[k].0
                    && table@[k].1 == morse_table()[k].1,
            lookup_from(morse_table().subrange(i as int, morse_table().len() as int), input@)
                == morse_char_of(input@),
        decreases n - i,
    {
        let ghost sub = morse_table().subrange(i as int, morse_table().len() as int);
        proof {
            assert(sub[0] == morse_table()[i as int]);
        }
        if pulses_eq(&table[i].0, input) {
            return Some(table[i].1);
        }
        proof {
            assert(sub.subrange(1, sub.len() as int) =~= morse_table().subrange(
                i as int + 1,
                morse_table().len() as int,
            ));
        }
        i += 1;
    }
    proof {
        assert(morse_table().subrange(
            morse_table().len() as int,
            morse_table().len() as int,
        ).len() == 0);
    }
    None
}

/// Lookup among entries none of which carries `s` finds nothing.
proof fn lemma_lookup_no_match(t: Seq<(Seq<MorseCharacter>, char)>, s: Seq<MorseCharacter>)
    requires
        forall|i: int| 0 <= i < t.len() ==> (#[trigger] t[i]).0 != s,
    ensures
        lookup_from(t, s) is None,
    decreases t.len(),
{
    if t.len() > 0 {
        assert(t[0].0 != s);
        let rest = t.subrange(1, t.len() as int);
        assert(forall|i: int| 0 <= i < rest.len() ==> (#[trigger] rest[i]).0 != s);
        lemma_lookup_no_match(rest, s);
    }
}

/// Every table entry is at most six pulses long.
proof fn lemma_table_entries_bounded()
    ensures
        forall|i: int|
            0 <= i < morse_table().len() ==> (#[trigger] morse_table()[i]).0.len() <= 6,
{
}

/// Every character in the table is ASCII.
proof fn lemma_table_chars_ascii()
    ensures
        forall|i: int|
            0 <= i < morse_table().len() ==> ((#[trigger] morse_table()[i]).1 as u32) < 128,
{
}

/// A successful lookup among ASCII-charactered entries yields an ASCII
/// character.
proof fn lemma_lookup_ascii(t: Seq<(Seq<MorseCharacter>, char)>, s: Seq<MorseCharacter>)
    requires
        forall|i: int| 0 <= i < t.len() ==> ((#[trigger] t[i]).1 as u32) < 128,
    ensures
        lookup_from(t, s) matches Some(c) ==> (c as u32) < 128,
    decreases t.len(),
{
    if t.len() > 0 && t[0].0 != s {
        let rest = t.subrange(1, t.len() as int);
        assert forall|i: int| 0 <= i < rest.len() implies ((#[trigger] rest[i]).1 as u32) < 128 by {
            assert(rest[i] == t[i + 1]);
        }
        lemma_lookup_ascii(rest, s);
    }
}

/// Any character the morse table assigns to a sequence is ASCII.
pub proof fn lemma_morse_chars_are_ascii(s: Seq<MorseCharacter>, c: char)
    requires
        morse_char_of(s) == Some(c),
    ensures
        (c as u32) < 128,
{
    lemma_table_chars_ascii();
    lemma_lookup_ascii(morse_table(), s);
}

/// Every table entry has at least one pulse.
proof fn lemma_table_entries_nonempty()
    ensures
        forall|i: int|
            0 <= i < morse_table().len() ==> (#[trigger] morse_table()[i]).0.len() >= 1,
{
}

/// The empty sequence decodes to nothing.
pub proof fn lemma_empty_sequence_decodes_to_none()
    ensures
        morse_char_of(Seq::<MorseCharacter>::empty()) is None,
{
    lemma_table_entries_nonempty();
    lemma_lookup_no_match(morse_table(), Seq::<MorseCharacter>::empty());
}

/// A sequence longer than six pulses, or one that no table entry carries,
/// decodes to nothing.
pub proof fn lemma_absent_sequences_decode_to_none(s: Seq<MorseCharacter>)
    requires
        s.len() > 6 || forall|i: int|
            0 <= i < morse_table().len() ==> (#[trigger] morse_table()[i]).0 != s,
    ensures
        morse_char_of(s) is None,
{
    if s.len() > 6 {
        lemma_table_entries_bounded();
        assert forall|i: int|
            0 <= i < morse_table().len() implies (#[trigger] morse_table()[i]).0 != s by {
            assert(morse_table()[i].0.len() <= 6);
        }
    }
    lemma_lookup_no_match(morse_table(), s);
}

} // verus!
