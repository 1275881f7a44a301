use pcgd_sync::household::{
    classify_row, classify_rows, row_fragments, IngestError, SurveyContext,
};
use pcgd_sync::household_info::{
    ValueFieldHouseOwner, ValueFieldHouseResident, ValueFieldHouseResident2024Education,
    ValueFieldHouseResidentGeneralEducation,
};
use pcgd_sync::location::LocationCodes;
use pcgd_sync::row::{Cell, ROW_WIDTH};
use pcgd_sync::rules::{
    change_reason, disabilities, fold_code, grade, head_relationship, head_word, join_codes,
    make_birth_date, make_full_name, marked, read_disability_marks, reason_code, sex, sex_of,
    supplementary, supplementary_of, tick, underscore, zero_pad,
};

fn blank_row() -> Vec<Cell> {
    let mut row = Vec::new();
    for _ in 0..ROW_WIDTH {
        row.push(Cell::other(""));
    }
    row
}

fn sample_row() -> Vec<Cell> {
    let mut row = blank_row();
    row[2] = Cell::text("Nguyễn Văn");
    row[3] = Cell::text("An");
    row[4] = Cell::other("5");
    row[5] = Cell::other("1");
    row[6] = Cell::other("1990");
    row[7] = Cell::text("x");
    row[8] = Cell::text("Khơ-me");
    row[9] = Cell::text("Phật giáo");
    row[10] = Cell::text("UT1");
    row[13] = Cell::text("12 Lê Lợi");
    row[14] = Cell::text("T1");
    row[15] = Cell::text("KT1");
    row[16] = Cell::text("Thường trú");
    row[17] = Cell::text("5 tuổi");
    row[18] = Cell::text("5A");
    row[21] = Cell::text("TR01");
    row[22] = Cell::text("THCS");
    row[23] = Cell::text("X");
    row[24] = Cell::other("2005");
    row[25] = Cell::text("");
    row[26] = Cell::other("2008");
    row[30] = Cell::text("");
    row[31] = Cell::other("2003");
    row[32] = Cell::other("3");
    row[34] = Cell::text("x");
    row[36] = Cell::text("x");
    row[45] = Cell::text("Chuyển đến");
    row[46] = Cell::text("từ tỉnh khác");
    row[47] = Cell::text("Chủ hộ");
    row[48] = Cell::text("Nguyễn Văn Ba");
    row[49] = Cell::other("0912345678");
    row[50] = Cell::text("ghi chú");
    row
}

fn sample_context() -> SurveyContext {
    SurveyContext {
        ngay_dieutra: "01/10/2024".to_string(),
        codes: LocationCodes::parse("79_760_26734_3_").unwrap(),
        pcgd_csrf_token: "tok".to_string(),
    }
}

#[test]
fn head_row_yields_owner() {
    let fragments = classify_row(4, &sample_row(), &sample_context()).unwrap();
    assert!(fragments.owner.is_some());
    assert_eq!(fragments.key, "T1");
}

#[test]
fn head_relationship_ignores_case() {
    assert!(head_relationship("chủ hộ"));
    assert!(head_relationship("Chủ hộ"));
    assert!(head_relationship("CHỦ HỘ"));
    assert!(!head_relationship("con"));
    assert!(!head_relationship(""));
    assert!(!head_relationship("chủ hộ "));
}

#[test]
fn other_row_yields_no_owner() {
    let mut row = sample_row();
    row[47] = Cell::text("Con");
    let fragments = classify_row(0, &row, &sample_context()).unwrap();
    assert!(fragments.owner.is_none());
    assert_eq!(fragments.bundle.resident.qh_chu_ho, "Con");
}

#[test]
fn owner_fields_come_from_row_and_context() {
    let owner = ValueFieldHouseOwner::new(
        &sample_row(),
        "01/10/2024".to_string(),
        "79".to_string(),
        "79_760".to_string(),
        "79_760_26734".to_string(),
        "79_760_26734_3".to_string(),
        "tok".to_string(),
    );
    assert_eq!(owner.so_phieu, "T1");
    assert_eq!(owner.chuho_hodem, "Nguyễn Văn");
    assert_eq!(owner.chuho_ten, "An");
    assert_eq!(owner.dia_chi, "12 Lê Lợi");
    assert_eq!(owner.tinh_trang_cu_tru, "Thường trú");
    assert_eq!(owner.dien_thoai, "0912345678");
    assert_eq!(owner.ngay_dieutra, "01/10/2024");
    assert_eq!(owner.ma_tinh, "79");
    assert_eq!(owner.ma_quanhuyen, "79_760");
    assert_eq!(owner.ma_phuongxa, "79_760_26734");
    assert_eq!(owner.ma_thonxom, "79_760_26734_3");
    assert_eq!(owner.dien_cu_tru, "KT1");
    assert_eq!(owner.ma_phieu, "");
    assert_eq!(owner.ghi_chu, "ghi chú");
    assert_eq!(owner.pcgd_csrf_token, "tok");
}

#[test]
fn resident_fields_are_derived() {
    let resident = ValueFieldHouseResident::new(&sample_row());
    assert_eq!(resident.ho_ten, "Nguyễn Văn An");
    assert_eq!(resident.ngay_sinh, "05/01/1990");
    assert_eq!(resident.chi_tiet_hoan_canh_db, "từ tỉnh khác");
    assert_eq!(resident.qh_chu_ho, "Chủ hộ");
    assert_eq!(resident.ho_ten_cha, "Nguyễn Văn Ba");
    assert_eq!(resident.dien_uu_tien, "UT1");
    assert_eq!(resident.dien_thoai, "0912345678");
    assert_eq!(resident.ghi_chu, "ghi chú");
    assert_eq!(resident.gioi_tinh, "2");
    assert_eq!(resident.ma_dantoc, "KHO_ME");
    assert_eq!(resident.ton_giao, "PHAT_GIAO");
    assert_eq!(resident.hoan_canh_db, "1");
    assert_eq!(resident.ma_phieu, None);
    assert_eq!(resident.ma_dot, "");
    assert_eq!(resident.khuyet_tat_benh, "2,4");
}

#[test]
fn general_education_defaults_empty_text_to_zero() {
    let record = ValueFieldHouseResidentGeneralEducation::new(&sample_row());
    assert_eq!(record.tn_nam, "2005");
    assert_eq!(record.so_bang_tn, "");
    assert_eq!(record.nam_tn_nghe, "2008");
    assert_eq!(record.nam_hx, "");
    assert_eq!(record.bohoc_nam, "2003");
    assert_eq!(record.cap_tn, "THCS");
    assert_eq!(record.bac_tn_nghe, "0");
    assert_eq!(record.hoc_xong, " ");
    assert_eq!(record.bohoc_lop, "0");
    assert_eq!(record.tai_mu_chu, "x");
    assert_eq!(record.hoc_xmc_lop, "3");
    assert_eq!(record.congnhan_xmc, "");
    assert_eq!(record.bo_tuc, "");
    assert_eq!(record.tnc2_loaitruong, "");
}

#[test]
fn empty_cell_is_not_the_empty_text() {
    assert_eq!(Cell::other("").to_text_or_zero(), "");
    assert_eq!(Cell::text("").to_text_or_zero(), "0");
    assert_eq!(Cell::text("7").to_text_or_zero(), "7");
    assert_eq!(Cell::other("7").to_text_or_zero(), "7");
    assert_eq!(Cell::text("abc").to_text(), "abc");
}

#[test]
fn education_2024_fields_are_derived() {
    let record = ValueFieldHouseResident2024Education::new(
        &sample_row(),
        "79".to_string(),
        "79_760".to_string(),
    );
    assert_eq!(record.lophoc_2024, "5A");
    assert_eq!(record.ma_tinh, "79");
    assert_eq!(record.ma_quanhuyen, "79_760");
    assert_eq!(record.khoi, "t5");
    assert_eq!(record.ma_truong, "TR01");
    assert_eq!(record.ma_hoctap_2024, "");
    assert_eq!(record.nam_hoc_re, "2024");
    assert_eq!(record.cb_view_mamnon_2024, "");
    assert_eq!(record.luuban_2024, "");
    assert_eq!(record.hinhthuchoc_2024, "");
    assert_eq!(record.hoc_bo_tuc, "1");
}

#[test]
fn day_and_month_are_zero_padded() {
    assert_eq!(make_birth_date("5", "1", "1990"), "05/01/1990");
    assert_eq!(make_birth_date("15", "11", "2001"), "15/11/2001");
    assert_eq!(make_birth_date("15", "1", "2001"), "15/01/2001");
    assert_eq!(zero_pad("5"), "05");
    assert_eq!(zero_pad("15"), "15");
    assert_eq!(zero_pad(""), "");
    assert_eq!(zero_pad("é"), "é");
}

#[test]
fn disability_codes_are_offsets_plus_one() {
    let mut row = blank_row();
    row[33 + 1] = Cell::text("x");
    row[33 + 3] = Cell::text("x");
    assert_eq!(disabilities(&row), "2,4");
}

#[test]
fn codes_of_marks_count_from_one() {
    let mut marks = vec![false; 11];
    marks[1] = true;
    marks[3] = true;
    assert_eq!(join_codes(&marks), "2,4");
    assert_eq!(join_codes(&vec![true; 11]), "1,2,3,4,5,6,7,8,9,10,11");
    assert_eq!(join_codes(&vec![false; 11]), "");
    assert_eq!(join_codes(&vec![true]), "1");
    assert_eq!(join_codes(&Vec::new()), "");
}

#[test]
fn disability_marks_are_read_from_the_block() {
    let mut row = blank_row();
    row[32] = Cell::text("x");
    row[33] = Cell::text("X");
    row[35] = Cell::text("x");
    row[43] = Cell::text("x");
    row[44] = Cell::text("x");
    let marks = read_disability_marks(&row);
    assert_eq!(
        marks,
        vec![true, false, true, false, false, false, false, false, false, false, true]
    );
}

#[test]
fn folded_texts_are_decided_exactly() {
    assert!(tick("x"));
    assert!(!tick("X"));
    assert!(!tick(""));
    assert!(head_word("chủ hộ"));
    assert!(!head_word("Chủ hộ"));
    assert_eq!(sex_of(true), "2");
    assert_eq!(sex_of(false), "1");
    assert_eq!(supplementary_of(true), "1");
    assert_eq!(supplementary_of(false), "");
    assert_eq!(reason_code("chuyển đến"), "1");
    assert_eq!(reason_code("chuyển đi"), "2");
    assert_eq!(reason_code("chết"), "3");
    assert_eq!(reason_code("Chết"), "");
    assert_eq!(underscore("KHƠ-ME"), "KHƠ_ME");
    assert_eq!(underscore("A B-C  D"), "A_B_C__D");
}

#[test]
fn disability_block_bounds_are_exact() {
    let mut row = blank_row();
    row[32] = Cell::text("x");
    row[44] = Cell::text("x");
    assert_eq!(disabilities(&row), "");
    row[33] = Cell::text("X");
    row[43] = Cell::text("x");
    assert_eq!(disabilities(&row), "1,11");
    let mut all = blank_row();
    for k in 33..44 {
        all[k] = Cell::text("x");
    }
    assert_eq!(disabilities(&all), "1,2,3,4,5,6,7,8,9,10,11");
}

#[test]
fn markers_are_read_in_either_case() {
    assert!(marked("x"));
    assert!(marked("X"));
    assert!(!marked(""));
    assert!(!marked("xx"));
    assert_eq!(sex("x"), "2");
    assert_eq!(sex("X"), "2");
    assert_eq!(sex(""), "1");
    assert_eq!(sex("nam"), "1");
    assert_eq!(supplementary("X"), "1");
    assert_eq!(supplementary(""), "");
}

#[test]
fn change_reason_codes() {
    assert_eq!(change_reason("chuyển đến"), "1");
    assert_eq!(change_reason("Chuyển Đến"), "1");
    assert_eq!(change_reason("chuyển đi"), "2");
    assert_eq!(change_reason("CHẾT"), "3");
    assert_eq!(change_reason("khác"), "");
    assert_eq!(change_reason(""), "");
}

#[test]
fn grade_codes() {
    assert_eq!(grade("5 tuổi"), "t5");
    assert_eq!(grade("3tuổi"), "t3");
    assert_eq!(grade("tuổi"), "tt");
    assert_eq!(grade("5"), "k5");
    assert_eq!(grade("12"), "k12");
    assert_eq!(grade("00"), "k00");
    assert_eq!(grade("é"), "é");
    assert_eq!(grade("TC"), "TC");
    assert_eq!(grade("1a"), "1a");
    assert_eq!(grade("٣"), "٣");
    assert_eq!(grade("123"), "123");
    assert_eq!(grade("Đại học"), "Đại học");
    assert_eq!(grade(""), "");
}

#[test]
fn codes_are_folded() {
    assert_eq!(fold_code("Kinh"), "KINH");
    assert_eq!(fold_code("Khơ-me"), "KHO_ME");
    assert_eq!(fold_code("Phật giáo"), "PHAT_GIAO");
    assert_eq!(fold_code("Không"), "KHONG");
    assert_eq!(fold_code(""), "");
}

#[test]
fn full_name_joins_with_one_space() {
    assert_eq!(make_full_name("Nguyễn Văn", "An"), "Nguyễn Văn An");
    assert_eq!(make_full_name("", ""), " ");
}

#[test]
fn short_row_is_an_error_that_names_the_row() {
    let mut short = sample_row();
    short.truncate(50);
    assert_eq!(
        classify_row(17, &short, &sample_context()),
        Err(IngestError::RowTooShort { row: 17 })
    );
    assert_eq!(
        classify_row(0, &Vec::new(), &sample_context()),
        Err(IngestError::RowTooShort { row: 0 })
    );
    let mut long = sample_row();
    long.push(Cell::text("more"));
    assert_eq!(
        classify_row(3, &long, &sample_context()),
        Ok(row_fragments(&sample_row(), &sample_context()))
    );
}

#[test]
fn short_row_stops_the_ingestion() {
    let mut rows = Vec::new();
    for _ in 0..4 {
        rows.push(Vec::new());
    }
    rows.push(sample_row());
    let mut short = sample_row();
    short.truncate(50);
    rows.push(short);
    rows.push(Vec::new());
    let result = classify_rows(&rows, &sample_context());
    assert_eq!(result, Err(IngestError::RowTooShort { row: 5 }));
}

#[test]
fn header_rows_are_skipped() {
    let mut rows = Vec::new();
    for _ in 0..4 {
        rows.push(vec![Cell::text("heading")]);
    }
    rows.push(sample_row());
    let mut second = sample_row();
    second[47] = Cell::text("Vợ");
    second[3] = Cell::text("Bình");
    rows.push(second);
    let fragments = classify_rows(&rows, &sample_context()).unwrap();
    assert_eq!(fragments.len(), 2);
    assert!(fragments[0].owner.is_some());
    assert!(fragments[1].owner.is_none());
    assert_eq!(fragments[1].bundle.resident.ho_ten, "Nguyễn Văn Bình");
    assert_eq!(fragments[0].bundle.education_2024.ma_quanhuyen, "79_760");
    let owner = fragments[0].owner.clone().unwrap();
    assert_eq!(owner.ma_thonxom, "79_760_26734_3");
    assert_eq!(owner.pcgd_csrf_token, "tok");
}

#[test]
fn sheet_without_data_rows_is_empty() {
    let rows: Vec<Vec<Cell>> = vec![Vec::new(), Vec::new()];
    assert_eq!(classify_rows(&rows, &sample_context()), Ok(Vec::new()));
    let none: Vec<Vec<Cell>> = Vec::new();
    assert_eq!(classify_rows(&none, &sample_context()), Ok(Vec::new()));
}
