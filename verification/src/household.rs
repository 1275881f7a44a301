//! Households: the classification of sheet rows into record fragments and
//! the grouping of the fragments by ticket number.

use crate::household_info::{
    education_2024_from_row, general_education_from_row, owner_from_row, resident_from_row,
    Education2024View, GeneralEducationView, OwnerView, ResidentView, ValueFieldHouseOwner,
    ValueFieldHouseResident, ValueFieldHouseResident2024Education,
    ValueFieldHouseResidentGeneralEducation,
};
use crate::location::LocationCodes;
use crate::row::{Cell, COL_RELATIONSHIP, COL_TICKET, ROW_WIDTH};
use crate::rules::{head_relationship, is_head_relationship};
use vstd::prelude::*;

verus! {

/// Number of rows at the top of a sheet that hold headings, not data.
pub const HEADER_ROWS: usize = 4;

/// What a run knows beside the sheet: the date of the survey, the location
/// codes and the session token.
#[derive(Debug, Clone, PartialEq, Eq)]
pub struct SurveyContext {
    pub ngay_dieutra: String,
    pub codes: LocationCodes,
    pub pcgd_csrf_token: String,
}

/// A resident with both education records.
#[derive(Debug, Clone, PartialEq, Eq)]
pub struct ResidentBundle {
    pub resident: ValueFieldHouseResident,
    pub general_education: ValueFieldHouseResidentGeneralEducation,
    pub education_2024: ValueFieldHouseResident2024Education,
}

/// What a [`ResidentBundle`] holds, as texts.
pub struct BundleView {
    pub resident: ResidentView,
    pub general_education: GeneralEducationView,
    pub education_2024: Education2024View,
}

impl View for ResidentBundle {
    type V = BundleView;

    open spec fn view(&self) -> BundleView {
        BundleView {
            resident: self.resident@,
            general_education: self.general_education@,
            education_2024: self.education_2024@,
        }
    }
}

impl BundleView {
    /// The bundle as it travels once the record id of its household is
    /// known: the resident bound to the id, all three records encoded.
    pub open spec fn encoded_for(self, ma_phieu: Seq<char>) -> BundleView {
        BundleView {
            resident: (ResidentView { ma_phieu: Some(ma_phieu), ..self.resident }).encoded(),
            general_education: self.general_education.encoded(),
            education_2024: self.education_2024.encoded(),
        }
    }
}

impl ResidentBundle {
    /// Binds the record id of the household to the resident and encodes
    /// the three records.  The bundle itself is left as it is.
    pub fn encoded_for(&self, ma_phieu: &str) -> (r: ResidentBundle)
        ensures
            r@ == self@.encoded_for(ma_phieu@),
    {
        let resident = self.resident.bound(ma_phieu);
        ResidentBundle {
            resident: resident.build(),
            general_education: self.general_education.build(),
            education_2024: self.education_2024.build(),
        }
    }
}

/// What one row contributes: the key of its household, an owner record
/// where the row is the head's, and always a resident.
#[derive(Debug, Clone, PartialEq, Eq)]
pub struct RowFragments {
    pub key: String,
    pub owner: Option<ValueFieldHouseOwner>,
    pub bundle: ResidentBundle,
}

/// What a [`RowFragments`] holds, as texts.
pub struct FragmentsView {
    pub key: Seq<char>,
    pub owner: Option<OwnerView>,
    pub bundle: BundleView,
}

/// The view of an owner record that may be absent.
pub open spec fn owner_view(owner: Option<ValueFieldHouseOwner>) -> Option<OwnerView> {
    match owner {
        Some(o) => Some(o@),
        None => None,
    }
}

impl View for RowFragments {
    type V = FragmentsView;

    open spec fn view(&self) -> FragmentsView {
        FragmentsView { key: self.key@, owner: owner_view(self.owner), bundle: self.bundle@ }
    }
}

/// One household: its key, its head where a row named one, and its
/// residents in the order of their rows.
#[derive(Debug, Clone, PartialEq, Eq)]
pub struct Household {
    pub key: String,
    pub owner: Option<ValueFieldHouseOwner>,
    pub residents: Vec<ResidentBundle>,
}

/// What a [`Household`] holds, as texts.
pub struct HouseholdView {
    pub key: Seq<char>,
    pub owner: Option<OwnerView>,
    pub residents: Seq<BundleView>,
}

/// The views of a list of bundles.
pub open spec fn bundle_views(bundles: Seq<ResidentBundle>) -> Seq<BundleView> {
    bundles.map_values(|b: ResidentBundle| b@)
}

/// The views of a list of fragments.
pub open spec fn fragment_views(fragments: Seq<RowFragments>) -> Seq<FragmentsView> {
    fragments.map_values(|f: RowFragments| f@)
}

/// The views of a list of households.
pub open spec fn household_views(households: Seq<Household>) -> Seq<HouseholdView> {
    households.map_values(|h: Household| h@)
}

impl View for Household {
    type V = HouseholdView;

    open spec fn view(&self) -> HouseholdView {
        HouseholdView {
            key: self.key@,
            owner: owner_view(self.owner),
            residents: bundle_views(self.residents@),
        }
    }
}

impl HouseholdView {
    /// A household with residents and no head: reported, never uploaded.
    pub open spec fn is_mismatch(self) -> bool {
        self.residents.len() > 0 && self.owner is None
    }
}

/// The fragments of a row: the ticket number is the key, the row is an
/// owner's exactly where its relationship names the head, and every row
/// is a resident's.
pub open spec fn fragments_of_row(row: Seq<Cell>, ctx: SurveyContext) -> FragmentsView {
    FragmentsView {
        key: row[COL_TICKET as int].rendered@,
        owner: if is_head_relationship(row[COL_RELATIONSHIP as int].rendered@) {
            Some(
                owner_from_row(
                    row,
                    ctx.ngay_dieutra@,
                    ctx.codes.ma_tinh@,
                    ctx.codes.ma_quanhuyen@,
                    ctx.codes.ma_phuongxa@,
                    ctx.codes.ma_thonxom@,
                    ctx.pcgd_csrf_token@,
                ),
            )
        } else {
            None
        },
        bundle: BundleView {
            resident: resident_from_row(row),
            general_education: general_education_from_row(row),
            education_2024: education_2024_from_row(
                row,
                ctx.codes.ma_tinh@,
                ctx.codes.ma_quanhuyen@,
            ),
        },
    }
}

/// Builds the fragments of a row that has every column.  It yields an
/// owner exactly where the relationship column names the head of the
/// household.
pub fn row_fragments(col: &[Cell], ctx: &SurveyContext) -> (r: RowFragments)
    requires
        col@.len() >= ROW_WIDTH,
    ensures
        r@ == fragments_of_row(col@, *ctx),
        r.owner is Some <==> is_head_relationship(col@[COL_RELATIONSHIP as int].rendered@),
{
    let owner = if head_relationship(col[COL_RELATIONSHIP].rendered.as_str()) {
        Some(
            ValueFieldHouseOwner::new(
                col,
                ctx.ngay_dieutra.clone(),
                ctx.codes.ma_tinh.clone(),
                ctx.codes.ma_quanhuyen.clone(),
                ctx.codes.ma_phuongxa.clone(),
                ctx.codes.ma_thonxom.clone(),
                ctx.pcgd_csrf_token.clone(),
            ),
        )
    } else {
        None
    };
    let bundle = ResidentBundle {
        resident: ValueFieldHouseResident::new(col),
        general_education: ValueFieldHouseResidentGeneralEducation::new(col),
        education_2024: ValueFieldHouseResident2024Education::new(
            col,
            ctx.codes.ma_tinh.clone(),
            ctx.codes.ma_quanhuyen.clone(),
        ),
    };
    RowFragments { key: col[COL_TICKET].to_text(), owner, bundle }
}

/// Why a sheet cannot be ingested.
#[derive(Debug, Clone, Copy, PartialEq, Eq, Structural)]
pub enum IngestError {
    /// The row at this position of the sheet has too few columns.
    RowTooShort { row: usize },
}

/// Classifies the row at position `row` of a sheet.  A row with too few
/// columns is an error that names the position; any other row yields its
/// fragments, with an owner exactly where the relationship column names
/// the head of the household.
pub fn classify_row(row: usize, col: &[Cell], ctx: &SurveyContext) -> (r: Result<
    RowFragments,
    IngestError,
>)
    ensures
        r is Ok <==> col@.len() >= ROW_WIDTH,
        r matches Ok(fragments) ==> fragments@ == fragments_of_row(col@, *ctx) && (
        fragments.owner is Some <==> is_head_relationship(
            col@[COL_RELATIONSHIP as int].rendered@,
        )),
        r matches Err(error) ==> error == (IngestError::RowTooShort { row }),
{
    if col.len() < ROW_WIDTH {
        Err(IngestError::RowTooShort { row })
    } else {
        Ok(row_fragments(col, ctx))
    }
}

/// Whether the data row at position `i` of the sheet lacks columns.
pub open spec fn is_short_row(rows: Seq<Vec<Cell>>, i: int) -> bool {
    HEADER_ROWS <= i < rows.len() && rows[i]@.len() < ROW_WIDTH
}

/// The fragments of the data rows of a sheet, in row order.
pub open spec fn fragments_of_sheet(rows: Seq<Vec<Cell>>, ctx: SurveyContext) -> Seq<
    FragmentsView,
> {
    Seq::new(
        if rows.len() > HEADER_ROWS {
            (rows.len() - HEADER_ROWS) as nat
        } else {
            0
        },
        |i: int| fragments_of_row(rows[HEADER_ROWS + i]@, ctx),
    )
}

/// Classifies the data rows of a sheet, in order.  The first row with too
/// few columns stops the ingestion and is named in the error.
pub fn classify_rows(rows: &Vec<Vec<Cell>>, ctx: &SurveyContext) -> (r: Result<
    Vec<RowFragments>,
    IngestError,
>)
    ensures
        r is Ok <==> forall|i: int| !is_short_row(rows@, i),
        r matches Ok(fragments) ==> fragment_views(fragments@) == fragments_of_sheet(rows@, *ctx),
        r matches Err(IngestError::RowTooShort { row }) ==> is_short_row(rows@, row as int)
            && forall|i: int| 0 <= i < row ==> !is_short_row(rows@, i),
{
    let mut fragments: Vec<RowFragments> = Vec::new();
    let mut i: usize = HEADER_ROWS;
    while i < rows.len()
        invariant
            i == HEADER_ROWS || HEADER_ROWS <= i <= rows.len(),
            fragments.len() == i - HEADER_ROWS,
            forall|j: int| 0 <= j < i ==> !is_short_row(rows@, j),
            forall|j: int|
                0 <= j < fragments.len() ==> (#[trigger] fragments@[j])@ == fragments_of_row(
                    rows@[HEADER_ROWS + j]@,
                    *ctx,
                ),
        decreases rows.len() - i,
    {
        match classify_row(i, rows[i].as_slice(), ctx) {
            Ok(f) => {
                fragments.push(f);
            },
            Err(error) => {
                assert(is_short_row(rows@, i as int));
                return Err(error);
            },
        }
        i = i + 1;
    }
    Ok(fragments)
}

} // verus!
