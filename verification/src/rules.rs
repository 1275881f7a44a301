//! The rules by which field values are derived from the cells of a row.
//!
//! Each rule is a spec function on texts and an executable function that
//! computes it.  The rules are fixed: they are an agreement with the remote
//! service about what its codes mean.
//!
//! Several rules read a cell without regard to case.  Such a rule comes in
//! two layers: one that decides on the text once it has been folded to
//! lower or upper case, and one that folds the raw text and hands it to
//! the first.

use crate::row::{Cell, COL_DISABILITY_FIRST, DISABILITY_WIDTH, ROW_WIDTH};
use crate::text::{
    byte_len, chars_of, decimal, decimal_text, ends_with, join, joined, lowercase, lowercase_of,
    replace_char, replaced, same_text, transliterate, transliterated, uppercase, uppercase_of,
    utf8_len, views,
};
use vstd::prelude::*;
use vstd::string::StringExecFns;

verus! {

/// Whether a marker text in lower case is a tick: an "x".
pub open spec fn is_tick(folded: Seq<char>) -> bool {
    folded == "x"@
}

/// Whether a marker cell is ticked: its text is an "x" in either case.
pub open spec fn is_marked(raw: Seq<char>) -> bool {
    is_tick(lowercase_of(raw))
}

/// Whether a relationship text in lower case names the head of the
/// household.
pub open spec fn names_head(folded: Seq<char>) -> bool {
    folded == "chủ hộ"@
}

/// Whether a relationship text names the head of the household, in any
/// mix of cases.
pub open spec fn is_head_relationship(raw: Seq<char>) -> bool {
    names_head(lowercase_of(raw))
}

/// `s` with a "0" in front where it is a single byte long.
pub open spec fn zero_padded(s: Seq<char>) -> Seq<char> {
    if utf8_len(s) == 1 {
        seq!['0'] + s
    } else {
        s
    }
}

/// Date of birth: padded day, padded month and the year as it is,
/// separated by slashes.
pub open spec fn birth_date(day: Seq<char>, month: Seq<char>, year: Seq<char>) -> Seq<char> {
    zero_padded(day) + seq!['/'] + zero_padded(month) + seq!['/'] + year
}

/// Family name, one space, given name.
pub open spec fn full_name(family: Seq<char>, given: Seq<char>) -> Seq<char> {
    family + seq![' '] + given
}

/// Sex code of a marker: "2" where it is ticked, "1" where it is not.
pub open spec fn sex_code_of(ticked: bool) -> Seq<char> {
    if ticked {
        "2"@
    } else {
        "1"@
    }
}

/// Sex code of a marker cell.
pub open spec fn sex_code(raw: Seq<char>) -> Seq<char> {
    sex_code_of(is_marked(raw))
}

/// Supplementary-education code of a marker: "1" where it is ticked,
/// empty where it is not.
pub open spec fn supplementary_code_of(ticked: bool) -> Seq<char> {
    if ticked {
        "1"@
    } else {
        Seq::empty()
    }
}

/// Supplementary-education code of a marker cell.
pub open spec fn supplementary_code(raw: Seq<char>) -> Seq<char> {
    supplementary_code_of(is_marked(raw))
}

/// Code of a reason for a change of residency, given in lower case:
/// arrival is "1", departure "2", death "3", anything else has no code.
pub open spec fn reason_code_of(folded: Seq<char>) -> Seq<char> {
    if folded == "chuyển đến"@ {
        "1"@
    } else if folded == "chuyển đi"@ {
        "2"@
    } else if folded == "chết"@ {
        "3"@
    } else {
        Seq::empty()
    }
}

/// Code of the reason for a change of residency, in any mix of cases.
pub open spec fn change_reason_code(raw: Seq<char>) -> Seq<char> {
    reason_code_of(lowercase_of(raw))
}

/// `s` with its spaces and hyphens turned into underscores.
pub open spec fn underscored(s: Seq<char>) -> Seq<char> {
    replaced(replaced(s, ' ', '_'), '-', '_')
}

/// Ethnicity or religion code: the text in upper case, spaces and hyphens
/// turned into underscores, diacritics folded away.
pub open spec fn folded_code(raw: Seq<char>) -> Seq<char> {
    transliterated(underscored(uppercase_of(raw)))
}

/// Whether a character is one of the decimal digits "0" to "9".
pub open spec fn is_decimal_digit(c: char) -> bool {
    '0' <= c <= '9'
}

/// Whether a text is a class number: one or two decimal digits.
pub open spec fn is_class_number(raw: Seq<char>) -> bool {
    &&& raw.len() == 1 || raw.len() == 2
    &&& forall|i: int| 0 <= i < raw.len() ==> is_decimal_digit(#[trigger] raw[i])
}

/// Grade code.  An age group ("5 tuổi") is a "t" and the first character
/// of the text; a class number gets a "k" in front; any other text is the
/// code itself.
pub open spec fn grade_code(raw: Seq<char>) -> Seq<char> {
    if "tuổi"@.is_suffix_of(raw) {
        seq!['t', raw[0]]
    } else if is_class_number(raw) {
        seq!['k'] + raw
    } else {
        raw
    }
}

/// The codes of the ticked marks among the first `upto` of a block, in
/// order.  The code of a mark is its offset in the block plus one, in
/// decimal.
pub open spec fn marked_codes(marks: Seq<bool>, upto: nat) -> Seq<Seq<char>>
    decreases upto,
{
    if upto == 0 {
        Seq::empty()
    } else {
        let before = marked_codes(marks, (upto - 1) as nat);
        if marks[upto - 1] {
            before.push(decimal(upto))
        } else {
            before
        }
    }
}

/// The codes of the ticked marks of a block, joined by commas.
pub open spec fn codes_of_marks(marks: Seq<bool>) -> Seq<char> {
    joined(marked_codes(marks, marks.len()), seq![','])
}

/// The marks of the disability block of a row, one for each column.
pub open spec fn disability_marks(row: Seq<Cell>) -> Seq<bool> {
    Seq::new(
        DISABILITY_WIDTH as nat,
        |k: int| is_marked(row[COL_DISABILITY_FIRST + k].rendered@),
    )
}

/// The disability codes of a row, joined by commas.
pub open spec fn disability_codes(row: Seq<Cell>) -> Seq<char> {
    codes_of_marks(disability_marks(row))
}

/// Whether a marker text in lower case is a tick.
pub fn tick(folded: &str) -> (r: bool)
    ensures
        r == is_tick(folded@),
{
    same_text(folded, "x")
}

/// Whether a marker cell is ticked.
pub fn marked(raw: &str) -> (r: bool)
    ensures
        r == is_marked(raw@),
{
    let folded = lowercase(raw);
    tick(folded.as_str())
}

/// Whether a relationship text in lower case names the head of the
/// household.
pub fn head_word(folded: &str) -> (r: bool)
    ensures
        r == names_head(folded@),
{
    same_text(folded, "chủ hộ")
}

/// Whether a relationship text names the head of the household.
pub fn head_relationship(raw: &str) -> (r: bool)
    ensures
        r == is_head_relationship(raw@),
{
    let folded = lowercase(raw);
    head_word(folded.as_str())
}

/// Pads a single-byte text with a "0" in front.
pub fn zero_pad(s: &str) -> (r: String)
    ensures
        r@ == zero_padded(s@),
{
    if byte_len(s) == 1 {
        let mut out = String::new();
        out.push('0');
        out.append(s);
        out
    } else {
        s.to_owned()
    }
}

/// Builds the date of birth from day, month and year.
pub fn make_birth_date(day: &str, month: &str, year: &str) -> (r: String)
    ensures
        r@ == birth_date(day@, month@, year@),
{
    let mut out = zero_pad(day);
    out.push('/');
    let padded_month = zero_pad(month);
    out.append(padded_month.as_str());
    out.push('/');
    out.append(year);
    out
}

/// Builds the full name from family and given name.
pub fn make_full_name(family: &str, given: &str) -> (r: String)
    ensures
        r@ == full_name(family@, given@),
{
    let mut out = family.to_owned();
    out.push(' ');
    out.append(given);
    out
}

/// The sex code of a marker.
pub fn sex_of(ticked: bool) -> (r: String)
    ensures
        r@ == sex_code_of(ticked),
{
    if ticked {
        "2".to_owned()
    } else {
        "1".to_owned()
    }
}

/// Derives the sex code from the marker cell.
pub fn sex(raw: &str) -> (r: String)
    ensures
        r@ == sex_code(raw@),
{
    sex_of(marked(raw))
}

/// The supplementary-education code of a marker.
pub fn supplementary_of(ticked: bool) -> (r: String)
    ensures
        r@ == supplementary_code_of(ticked),
{
    if ticked {
        "1".to_owned()
    } else {
        String::new()
    }
}

/// Derives the supplementary-education code from the marker cell.
pub fn supplementary(raw: &str) -> (r: String)
    ensures
        r@ == supplementary_code(raw@),
{
    supplementary_of(marked(raw))
}

/// The code of a reason for a change of residency, given in lower case.
pub fn reason_code(folded: &str) -> (r: String)
    ensures
        r@ == reason_code_of(folded@),
{
    if same_text(folded, "chuyển đến") {
        "1".to_owned()
    } else if same_text(folded, "chuyển đi") {
        "2".to_owned()
    } else if same_text(folded, "chết") {
        "3".to_owned()
    } else {
        String::new()
    }
}

/// Derives the code of the reason for a change of residency.
pub fn change_reason(raw: &str) -> (r: String)
    ensures
        r@ == change_reason_code(raw@),
{
    let folded = lowercase(raw);
    reason_code(folded.as_str())
}

/// Turns the spaces and hyphens of `s` into underscores.
pub fn underscore(s: &str) -> (r: String)
    ensures
        r@ == underscored(s@),
{
    let spaced = replace_char(s, ' ', '_');
    replace_char(spaced.as_str(), '-', '_')
}

/// Derives an ethnicity or religion code from free text.
pub fn fold_code(raw: &str) -> (r: String)
    ensures
        r@ == folded_code(raw@),
{
    let upper = uppercase(raw);
    let joined = underscore(upper.as_str());
    transliterate(joined.as_str())
}

/// Whether a character is a decimal digit.
pub fn decimal_digit(c: char) -> (r: bool)
    ensures
        r == is_decimal_digit(c),
{
    '0' <= c && c <= '9'
}

/// Whether a text is a class number.
pub fn class_number(chars: &Vec<char>) -> (r: bool)
    ensures
        r == is_class_number(chars@),
{
    if chars.len() == 1 {
        decimal_digit(chars[0])
    } else if chars.len() == 2 {
        decimal_digit(chars[0]) && decimal_digit(chars[1])
    } else {
        false
    }
}

/// Derives the grade code from free text.
pub fn grade(raw: &str) -> (r: String)
    ensures
        r@ == grade_code(raw@),
{
    let chars = chars_of(raw);
    if ends_with(raw, "tuổi") {
        proof {
            reveal_strlit("tuổi");
        }
        let mut out = String::new();
        out.push('t');
        out.push(chars[0]);
        out
    } else if class_number(&chars) {
        let mut out = String::new();
        out.push('k');
        out.append(raw);
        out
    } else {
        raw.to_owned()
    }
}

/// Writes the codes of the ticked marks of a block, joined by commas.
pub fn join_codes(marks: &Vec<bool>) -> (r: String)
    ensures
        r@ == codes_of_marks(marks@),
{
    let mut codes: Vec<String> = Vec::new();
    let mut k: usize = 0;
    while k < marks.len()
        invariant
            k <= marks.len(),
            views(codes@) == marked_codes(marks@, k as nat),
        decreases marks.len() - k,
    {
        if marks[k] {
            codes.push(decimal_text(k + 1));
        }
        k = k + 1;
    }
    proof {
        reveal_strlit(",");
        assert(","@ == seq![',']);
    }
    join(&codes, ",")
}

/// Reads the marks of the disability block of a row.
pub fn read_disability_marks(col: &[Cell]) -> (marks: Vec<bool>)
    requires
        col@.len() >= ROW_WIDTH,
    ensures
        marks@ == disability_marks(col@),
{
    let mut marks: Vec<bool> = Vec::new();
    let mut k: usize = 0;
    while k < DISABILITY_WIDTH
        invariant
            k <= DISABILITY_WIDTH,
            col@.len() >= ROW_WIDTH,
            marks@ == disability_marks(col@).take(k as int),
        decreases DISABILITY_WIDTH - k,
    {
        marks.push(marked(col[COL_DISABILITY_FIRST + k].rendered.as_str()));
        k = k + 1;
    }
    marks
}

/// Derives the disability codes of a row from its block of markers.
pub fn disabilities(col: &[Cell]) -> (r: String)
    requires
        col@.len() >= ROW_WIDTH,
    ensures
        r@ == disability_codes(col@),
{
    let marks = read_disability_marks(col);
    join_codes(&marks)
}

} // verus!
