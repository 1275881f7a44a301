//! The column layout of a survey sheet row.
//!
//! A row is an ordered list of cells.  Which column holds which field is an
//! agreement with the sheet's producer; the positions are gathered here so
//! that the layout can change without touching the records built from it.

use vstd::prelude::*;

verus! {

/// Name of the sheet that holds the rows.
pub const SHEET_NAME: &'static str = "MauNhapLieu";

/// Family name and middle names.
pub const COL_FAMILY_NAME: usize = 2;

/// Given name.
pub const COL_GIVEN_NAME: usize = 3;

/// Day of birth.
pub const COL_BIRTH_DAY: usize = 4;

/// Month of birth.
pub const COL_BIRTH_MONTH: usize = 5;

/// Year of birth.
pub const COL_BIRTH_YEAR: usize = 6;

/// Sex marker: an "x" marks a female resident.
pub const COL_SEX: usize = 7;

/// Ethnicity, free text.
pub const COL_ETHNICITY: usize = 8;

/// Religion, free text.
pub const COL_RELIGION: usize = 9;

/// Priority-treatment marker.
pub const COL_PRIORITY: usize = 10;

/// Address of the household.
pub const COL_ADDRESS: usize = 13;

/// Survey ticket number, the key of the household.
pub const COL_TICKET: usize = 14;

/// Kind of residency.
pub const COL_RESIDENCY_KIND: usize = 15;

/// Residency status.
pub const COL_RESIDENCY_STATUS: usize = 16;

/// Class or grade, free text.
pub const COL_GRADE: usize = 17;

/// Class attended in the survey year.
pub const COL_CLASS: usize = 18;

/// School code.
pub const COL_SCHOOL: usize = 21;

/// Highest level graduated from.
pub const COL_GRADUATED_LEVEL: usize = 22;

/// Supplementary-education marker.
pub const COL_SUPPLEMENTARY: usize = 23;

/// Year of graduation.
pub const COL_GRADUATION_YEAR: usize = 24;

/// Vocational level.
pub const COL_VOCATIONAL_LEVEL: usize = 25;

/// Year of vocational graduation.
pub const COL_VOCATIONAL_YEAR: usize = 26;

/// Grade at which the resident dropped out.
pub const COL_DROPOUT_GRADE: usize = 30;

/// Year in which the resident dropped out.
pub const COL_DROPOUT_YEAR: usize = 31;

/// Literacy class attended.
pub const COL_LITERACY_CLASS: usize = 32;

/// Literacy recognised.
pub const COL_LITERACY_RECOGNISED: usize = 33;

/// Relapse into illiteracy.
pub const COL_ILLITERACY_RELAPSE: usize = 34;

/// First column of the block of disability markers.
pub const COL_DISABILITY_FIRST: usize = 33;

/// Number of columns in the block of disability markers.
pub const DISABILITY_WIDTH: usize = 11;

/// Reason for a change of residency, free text.
pub const COL_CHANGE_REASON: usize = 45;

/// Detail on the reason for a change.
pub const COL_CHANGE_DETAIL: usize = 46;

/// Relationship to the head of the household.
pub const COL_RELATIONSHIP: usize = 47;

/// Father's name.
pub const COL_FATHER_NAME: usize = 48;

/// Phone number.
pub const COL_PHONE: usize = 49;

/// Notes.
pub const COL_NOTES: usize = 50;

/// Number of columns a row must have for every field to be present.
pub const ROW_WIDTH: usize = 51;

/// One cell of a sheet: how the sheet renders its value, and whether the
/// value is a text (and not a number, a date, a flag, an error or nothing).
#[derive(Debug, Clone, PartialEq, Eq)]
pub struct Cell {
    pub rendered: String,
    pub is_text: bool,
}

impl Cell {
    /// A cell whose value is the text `s`.
    pub fn text(s: &str) -> (c: Cell)
        ensures
            c.rendered@ == s@,
            c.is_text,
    {
        Cell { rendered: s.to_owned(), is_text: true }
    }

    /// A cell whose value is not a text and is rendered as `s`; an empty
    /// cell renders as the empty text.
    pub fn other(s: &str) -> (c: Cell)
        ensures
            c.rendered@ == s@,
            !c.is_text,
    {
        Cell { rendered: s.to_owned(), is_text: false }
    }

    /// Whether the cell holds the empty text (an empty cell does not).
    pub open spec fn is_empty_text(&self) -> bool {
        self.is_text && self.rendered@.len() == 0
    }

    /// The rendering, with "0" standing in for the empty text.
    pub open spec fn or_zero(&self) -> Seq<char> {
        if self.is_empty_text() {
            "0"@
        } else {
            self.rendered@
        }
    }

    /// The rendering of the cell as a string of its own.
    pub fn to_text(&self) -> (r: String)
        ensures
            r@ == self.rendered@,
    {
        self.rendered.clone()
    }

    /// The rendering of the cell, or "0" where the cell holds the empty
    /// text.
    pub fn to_text_or_zero(&self) -> (r: String)
        ensures
            r@ == self.or_zero(),
    {
        if self.is_text && self.rendered.as_str().is_empty() {
            "0".to_owned()
        } else {
            self.rendered.clone()
        }
    }
}

/// Whether a row has every column of the layout.
pub open spec fn wide_enough(row: Seq<Cell>) -> bool {
    row.len() >= ROW_WIDTH
}

} // verus!
