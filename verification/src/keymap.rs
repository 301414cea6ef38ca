//! Chord configuration: the unlock letter and its platform key code.
//!
//! The unlock chord is Control plus one letter key.  The letter is kept in
//! upper case together with the key code that the input subsystem reports for
//! it.  Anything that is not a letter falls back to the default letter `Q`.

use vstd::prelude::*;

verus! {

/// The letter used when no valid letter is configured.
pub const DEFAULT_UNLOCK_LETTER: char = 'Q';

/// Key code of the default unlock letter.
pub const DEFAULT_UNLOCK_CODE: u16 = 16;

/// Key code of the leftmost key of the top letter row.
pub const TOP_ROW_BASE: u16 = 16;

/// Key code of the leftmost key of the home letter row.
pub const HOME_ROW_BASE: u16 = 30;

/// Key code of the leftmost key of the bottom letter row.
pub const BOTTOM_ROW_BASE: u16 = 44;

/// Letters of the top row of the keyboard, left to right.
pub open spec fn top_row() -> Seq<char> {
    seq!['Q', 'W', 'E', 'R', 'T', 'Y', 'U', 'I', 'O', 'P']
}

/// Letters of the home row of the keyboard, left to right.
pub open spec fn home_row() -> Seq<char> {
    seq!['A', 'S', 'D', 'F', 'G', 'H', 'J', 'K', 'L']
}

/// Letters of the bottom row of the keyboard, left to right.
pub open spec fn bottom_row() -> Seq<char> {
    seq!['Z', 'X', 'C', 'V', 'B', 'N', 'M']
}

/// `c` is one of the upper-case letters `A`..`Z`.
pub open spec fn is_upper_letter(c: char) -> bool {
    'A' <= c <= 'Z'
}

/// `c` is one of the lower-case letters `a`..`z`.
pub open spec fn is_lower_letter(c: char) -> bool {
    'a' <= c <= 'z'
}

/// `c` sits at position `i` of `row`.
pub open spec fn at_position(row: Seq<char>, c: char, i: int) -> bool {
    0 <= i < row.len() && row[i] == c
}

/// The key code of a character: key codes run consecutively along each letter
/// row of the keyboard, starting at the row's base code.  A character that is
/// on none of the rows has the default code.
pub open spec fn code_of(c: char) -> u16 {
    if exists|i: int| at_position(top_row(), c, i) {
        (TOP_ROW_BASE + choose|i: int| at_position(top_row(), c, i)) as u16
    } else if exists|i: int| at_position(home_row(), c, i) {
        (HOME_ROW_BASE + choose|i: int| at_position(home_row(), c, i)) as u16
    } else if exists|i: int| at_position(bottom_row(), c, i) {
        (BOTTOM_ROW_BASE + choose|i: int| at_position(bottom_row(), c, i)) as u16
    } else {
        DEFAULT_UNLOCK_CODE
    }
}

/// A character at position `i` of the top row has the code `16 + i`.
proof fn lemma_top_row(c: char, i: int)
    requires
        at_position(top_row(), c, i),
    ensures
        code_of(c) == TOP_ROW_BASE + i,
{
    let j = choose|j: int| at_position(top_row(), c, j);
    assert(at_position(top_row(), c, j));
    assert(j == i);
}

/// A character at position `i` of the home row has the code `30 + i`.
proof fn lemma_home_row(c: char, i: int)
    requires
        at_position(home_row(), c, i),
    ensures
        code_of(c) == HOME_ROW_BASE + i,
{
    assert(forall|k: int| !at_position(top_row(), c, k));
    let j = choose|j: int| at_position(home_row(), c, j);
    assert(at_position(home_row(), c, j));
    assert(j == i);
}

/// A character at position `i` of the bottom row has the code `44 + i`.
proof fn lemma_bottom_row(c: char, i: int)
    requires
        at_position(bottom_row(), c, i),
    ensures
        code_of(c) == BOTTOM_ROW_BASE + i,
{
    assert(forall|k: int| !at_position(top_row(), c, k));
    assert(forall|k: int| !at_position(home_row(), c, k));
    let j = choose|j: int| at_position(bottom_row(), c, j);
    assert(at_position(bottom_row(), c, j));
    assert(j == i);
}

/// A character that is no upper-case letter is on none of the rows.
proof fn lemma_off_rows(c: char)
    requires
        !is_upper_letter(c),
    ensures
        code_of(c) == DEFAULT_UNLOCK_CODE,
{
    assert(forall|k: int| !at_position(top_row(), c, k));
    assert(forall|k: int| !at_position(home_row(), c, k));
    assert(forall|k: int| !at_position(bottom_row(), c, k));
}

/// The key codes written out letter by letter.
pub open spec fn code_table(c: char) -> u16 {
    match c {
        'Q' => 16,
        'W' => 17,
        'E' => 18,
        'R' => 19,
        'T' => 20,
        'Y' => 21,
        'U' => 22,
        'I' => 23,
        'O' => 24,
        'P' => 25,
        'A' => 30,
        'S' => 31,
        'D' => 32,
        'F' => 33,
        'G' => 34,
        'H' => 35,
        'J' => 36,
        'K' => 37,
        'L' => 38,
        'Z' => 44,
        'X' => 45,
        'C' => 46,
        'V' => 47,
        'B' => 48,
        'N' => 49,
        'M' => 50,
        _ => 16,
    }
}

/// The table of key codes is the row layout: each letter's code is its row's
/// base code plus its position in the row, and every character that is not an
/// upper-case letter has the default code.
pub proof fn lemma_code_table(c: char)
    ensures
        code_of(c) == code_table(c),
{
    if is_upper_letter(c) {
        if c == 'Q' {
            lemma_top_row(c, 0);
        }
        if c == 'W' {
            lemma_top_row(c, 1);
        }
        if c == 'E' {
            lemma_top_row(c, 2);
        }
        if c == 'R' {
            lemma_top_row(c, 3);
        }
        if c == 'T' {
            lemma_top_row(c, 4);
        }
        if c == 'Y' {
            lemma_top_row(c, 5);
        }
        if c == 'U' {
            lemma_top_row(c, 6);
        }
        if c == 'I' {
            lemma_top_row(c, 7);
        }
        if c == 'O' {
            lemma_top_row(c, 8);
        }
        if c == 'P' {
            lemma_top_row(c, 9);
        }
        if c == 'A' {
            lemma_home_row(c, 0);
        }
        if c == 'S' {
            lemma_home_row(c, 1);
        }
        if c == 'D' {
            lemma_home_row(c, 2);
        }
        if c == 'F' {
            lemma_home_row(c, 3);
        }
        if c == 'G' {
            lemma_home_row(c, 4);
        }
        if c == 'H' {
            lemma_home_row(c, 5);
        }
        if c == 'J' {
            lemma_home_row(c, 6);
        }
        if c == 'K' {
            lemma_home_row(c, 7);
        }
        if c == 'L' {
            lemma_home_row(c, 8);
        }
        if c == 'Z' {
            lemma_bottom_row(c, 0);
        }
        if c == 'X' {
            lemma_bottom_row(c, 1);
        }
        if c == 'C' {
            lemma_bottom_row(c, 2);
        }
        if c == 'V' {
            lemma_bottom_row(c, 3);
        }
        if c == 'B' {
            lemma_bottom_row(c, 4);
        }
        if c == 'N' {
            lemma_bottom_row(c, 5);
        }
        if c == 'M' {
            lemma_bottom_row(c, 6);
        }
    } else {
        lemma_off_rows(c);
    }
}

/// Key code of an upper-case letter `A`..`Z`; every other character has the
/// default code.
pub fn get_code_from_char(c: char) -> (code: u16)
    ensures
        code == code_of(c),
{
    proof {
        lemma_code_table(c);
    }
    match c {
        'Q' => 16,
        'W' => 17,
        'E' => 18,
        'R' => 19,
        'T' => 20,
        'Y' => 21,
        'U' => 22,
        'I' => 23,
        'O' => 24,
        'P' => 25,
        'A' => 30,
        'S' => 31,
        'D' => 32,
        'F' => 33,
        'G' => 34,
        'H' => 35,
        'J' => 36,
        'K' => 37,
        'L' => 38,
        'Z' => 44,
        'X' => 45,
        'C' => 46,
        'V' => 47,
        'B' => 48,
        'N' => 49,
        'M' => 50,
        _ => 16,
    }
}

/// Upper-case form of a letter `a`..`z`; every other character is itself.
pub open spec fn upper_of(c: char) -> char {
    if is_lower_letter(c) {
        ((c as u8 - 32) as u8) as char
    } else {
        c
    }
}

/// The letter that a typed character selects: the character in upper case if
/// it is a letter, the default letter otherwise.
pub open spec fn letter_of(c: char) -> char {
    if is_upper_letter(upper_of(c)) {
        upper_of(c)
    } else {
        DEFAULT_UNLOCK_LETTER
    }
}

/// The letter that a text input selects: decided by its first character; empty
/// input selects the default letter.
pub open spec fn resolved_letter(input: Seq<char>) -> char {
    if input.len() == 0 {
        DEFAULT_UNLOCK_LETTER
    } else {
        letter_of(input[0])
    }
}

/// The key code that a text input selects.
pub open spec fn resolved_code(input: Seq<char>) -> u16 {
    code_of(resolved_letter(input))
}

/// Normalizes a letter to upper case; other characters are returned as they are.
pub fn to_upper(c: char) -> (u: char)
    ensures
        u == upper_of(c),
{
    if 'a' <= c && c <= 'z' {
        let b: u8 = c as u8;
        (b - 32) as char
    } else {
        c
    }
}

/// The unlock letter selected by a typed character.
pub fn normalize_letter(c: char) -> (letter: char)
    ensures
        letter == letter_of(c),
        is_upper_letter(letter),
{
    let u = to_upper(c);
    if 'A' <= u && u <= 'Z' {
        u
    } else {
        DEFAULT_UNLOCK_LETTER
    }
}

/// The unlock letter selected by a text input.
pub fn resolve_unlock_letter(input: &str) -> (letter: char)
    ensures
        letter == resolved_letter(input@),
        is_upper_letter(letter),
{
    if input.unicode_len() == 0 {
        DEFAULT_UNLOCK_LETTER
    } else {
        normalize_letter(input.get_char(0))
    }
}

/// The unlock key code selected by a text input.  Defined for every input:
/// a letter in either case gives that letter's code, anything else, the empty
/// input included, gives the default code.  The result depends on the input
/// alone.
pub fn resolve_unlock_code(input: &str) -> (code: u16)
    ensures
        code == resolved_code(input@),
{
    get_code_from_char(resolve_unlock_letter(input))
}

/// The configured unlock chord: Control plus `letter`, whose key code is `code`.
#[derive(Clone, Copy, Debug, PartialEq, Eq, Structural)]
pub struct ChordConfig {
    letter: char,
    code: u16,
}

impl ChordConfig {
    /// The configured letter.
    pub closed spec fn spec_letter(&self) -> char {
        self.letter
    }

    /// The configured key code.
    pub closed spec fn spec_code(&self) -> u16 {
        self.code
    }

    /// The letter is an upper-case letter and the code is that letter's code.
    pub open spec fn wf(&self) -> bool {
        &&& is_upper_letter(self.spec_letter())
        &&& self.spec_code() == code_of(self.spec_letter())
    }

    /// The chord of Control plus `letter`.
    pub closed spec fn with_letter(letter: char) -> ChordConfig {
        ChordConfig { letter, code: code_of(letter) }
    }

    /// The chord of a letter holds that letter and its code, and no other
    /// chord does.
    pub proof fn lemma_with_letter(letter: char)
        ensures
            Self::with_letter(letter).spec_letter() == letter,
            Self::with_letter(letter).spec_code() == code_of(letter),
            is_upper_letter(letter) ==> Self::with_letter(letter).wf(),
            forall|other: ChordConfig|
                other.spec_letter() == letter && other.spec_code() == code_of(letter) ==> other
                    == Self::with_letter(letter),
    {
    }

    /// The default chord, Control plus `Q`.
    pub fn new() -> (config: ChordConfig)
        ensures
            config == Self::with_letter(DEFAULT_UNLOCK_LETTER),
            config.wf(),
            config.spec_letter() == DEFAULT_UNLOCK_LETTER,
            config.spec_code() == DEFAULT_UNLOCK_CODE,
    {
        proof {
            lemma_code_table(DEFAULT_UNLOCK_LETTER);
        }
        ChordConfig { letter: DEFAULT_UNLOCK_LETTER, code: DEFAULT_UNLOCK_CODE }
    }

    /// The configured letter, always upper case.
    #[verifier::when_used_as_spec(spec_letter)]
    pub fn letter(&self) -> (letter: char)
        ensures
            letter == self.spec_letter(),
    {
        self.letter
    }

    /// The key code of the configured letter.
    #[verifier::when_used_as_spec(spec_code)]
    pub fn code(&self) -> (code: u16)
        ensures
            code == self.spec_code(),
    {
        self.code
    }

    /// Sets the unlock letter from a typed character and updates the key code.
    pub fn set_unlock_char(&mut self, c: char)
        ensures
            *final(self) == Self::with_letter(letter_of(c)),
            final(self).wf(),
            final(self).spec_letter() == letter_of(c),
            final(self).spec_code() == code_of(letter_of(c)),
    {
        let letter = normalize_letter(c);
        let code = get_code_from_char(letter);
        *self = ChordConfig { letter, code };
    }

    /// Sets the unlock letter from a text input and updates the key code.
    /// Empty input and input that names no letter select the default letter.
    pub fn set_unlock_text(&mut self, input: &str)
        ensures
            *final(self) == Self::with_letter(resolved_letter(input@)),
            final(self).wf(),
            final(self).spec_letter() == resolved_letter(input@),
            final(self).spec_code() == resolved_code(input@),
    {
        let letter = resolve_unlock_letter(input);
        let code = get_code_from_char(letter);
        *self = ChordConfig { letter, code };
    }
}

/// Every input resolves to the key code of some upper-case letter, and that
/// code lies between the lowest and the highest letter code.
pub proof fn lemma_resolve_total(input: Seq<char>)
    ensures
        is_upper_letter(resolved_letter(input)),
        resolved_code(input) == code_of(resolved_letter(input)),
        16 <= resolved_code(input) <= 50,
{
    lemma_code_table(resolved_letter(input));
}

/// The default letter `Q` has the default code, and so has every input that
/// names no letter.
pub proof fn lemma_default_code(input: Seq<char>)
    ensures
        code_of(DEFAULT_UNLOCK_LETTER) == DEFAULT_UNLOCK_CODE,
        resolved_code(seq!['Q']) == DEFAULT_UNLOCK_CODE,
        resolved_code(Seq::<char>::empty()) == DEFAULT_UNLOCK_CODE,
        input.len() > 0 && !is_upper_letter(input[0]) && !is_lower_letter(input[0])
            ==> resolved_code(input) == DEFAULT_UNLOCK_CODE,
{
    lemma_code_table(DEFAULT_UNLOCK_LETTER);
    assert(seq!['Q'][0] == 'Q');
}

/// The mapping does not depend on case: a letter and its upper-case form
/// resolve to the same letter and the same code.
pub proof fn lemma_case_insensitive(c: char, rest: Seq<char>)
    ensures
        letter_of(c) == letter_of(upper_of(c)),
        resolved_code(seq![c] + rest) == resolved_code(seq![upper_of(c)] + rest),
        is_lower_letter(c) ==> is_upper_letter(upper_of(c)) && upper_of(c) as u8 + 32 == c as u8,
{
    assert((seq![c] + rest)[0] == c);
    assert((seq![upper_of(c)] + rest)[0] == upper_of(c));
}

/// Distinct letters have distinct key codes.
pub proof fn lemma_codes_distinct(a: char, b: char)
    requires
        is_upper_letter(a),
        is_upper_letter(b),
        a != b,
    ensures
        code_of(a) != code_of(b),
{
    lemma_code_table(a);
    lemma_code_table(b);
}

} // verus!
