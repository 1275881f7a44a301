//! The records of a household: its head, its residents and their
//! education, each built from one sheet row and encoded for transport
//! field by field.

use crate::row::{
    Cell, COL_ADDRESS, COL_BIRTH_DAY, COL_BIRTH_MONTH, COL_BIRTH_YEAR, COL_CHANGE_DETAIL,
    COL_CHANGE_REASON, COL_CLASS, COL_DROPOUT_GRADE, COL_DROPOUT_YEAR, COL_ETHNICITY,
    COL_FAMILY_NAME, COL_FATHER_NAME, COL_GIVEN_NAME, COL_GRADE, COL_GRADUATED_LEVEL,
    COL_GRADUATION_YEAR, COL_ILLITERACY_RELAPSE, COL_LITERACY_CLASS, COL_LITERACY_RECOGNISED,
    COL_NOTES, COL_PHONE, COL_PRIORITY, COL_RELATIONSHIP, COL_RELIGION, COL_RESIDENCY_KIND,
    COL_RESIDENCY_STATUS, COL_SCHOOL, COL_SEX, COL_SUPPLEMENTARY, COL_TICKET,
    COL_VOCATIONAL_LEVEL, COL_VOCATIONAL_YEAR, ROW_WIDTH,
};
use crate::rules::{
    birth_date, change_reason, change_reason_code, disabilities, disability_codes, fold_code,
    folded_code, full_name, grade, grade_code, make_birth_date, make_full_name, sex, sex_code,
    supplementary, supplementary_code,
};
use crate::text::view_of;
use crate::wire::{base64_text, decode_field, decoded_text, encode_field};
use vstd::prelude::*;

verus! {

/// An optional text, encoded where it is there.
pub open spec fn encoded_option(s: Option<Seq<char>>) -> Option<Seq<char>> {
    match s {
        Some(t) => Some(base64_text(t)),
        None => None,
    }
}

/// An optional encoded text, decoded where it is there.
pub open spec fn decoded_option(s: Option<Seq<char>>) -> Option<Seq<char>> {
    match s {
        Some(t) => decoded_text(t),
        None => None,
    }
}

/// The head of a household as the remote service records it.
#[derive(Debug, Clone, PartialEq, Eq)]
pub struct ValueFieldHouseOwner {
    /// Survey ticket number, the key of the household.
    pub so_phieu: String,
    /// Family name of the head.
    pub chuho_hodem: String,
    /// Given name of the head.
    pub chuho_ten: String,
    /// Address.
    pub dia_chi: String,
    /// Residency status.
    pub tinh_trang_cu_tru: String,
    /// Phone number.
    pub dien_thoai: String,
    /// Date of the survey.
    pub ngay_dieutra: String,
    /// Province code.
    pub ma_tinh: String,
    /// District code, qualified by the province.
    pub ma_quanhuyen: String,
    /// Ward code, qualified by the district.
    pub ma_phuongxa: String,
    /// Hamlet code, qualified by the ward.
    pub ma_thonxom: String,
    /// Kind of residency.
    pub dien_cu_tru: String,
    /// Record id of the household at the remote service; empty until assigned.
    pub ma_phieu: String,
    /// Notes.
    pub ghi_chu: String,
    /// Session token; travels as it is, never encoded.
    pub pcgd_csrf_token: String,
}

/// What a [`ValueFieldHouseOwner`] holds, as texts.
pub struct OwnerView {
    pub so_phieu: Seq<char>,
    pub chuho_hodem: Seq<char>,
    pub chuho_ten: Seq<char>,
    pub dia_chi: Seq<char>,
    pub tinh_trang_cu_tru: Seq<char>,
    pub dien_thoai: Seq<char>,
    pub ngay_dieutra: Seq<char>,
    pub ma_tinh: Seq<char>,
    pub ma_quanhuyen: Seq<char>,
    pub ma_phuongxa: Seq<char>,
    pub ma_thonxom: Seq<char>,
    pub dien_cu_tru: Seq<char>,
    pub ma_phieu: Seq<char>,
    pub ghi_chu: Seq<char>,
    pub pcgd_csrf_token: Seq<char>,
}

impl View for ValueFieldHouseOwner {
    type V = OwnerView;

    open spec fn view(&self) -> OwnerView {
        OwnerView {
            so_phieu: self.so_phieu@,
            chuho_hodem: self.chuho_hodem@,
            chuho_ten: self.chuho_ten@,
            dia_chi: self.dia_chi@,
            tinh_trang_cu_tru: self.tinh_trang_cu_tru@,
            dien_thoai: self.dien_thoai@,
            ngay_dieutra: self.ngay_dieutra@,
            ma_tinh: self.ma_tinh@,
            ma_quanhuyen: self.ma_quanhuyen@,
            ma_phuongxa: self.ma_phuongxa@,
            ma_thonxom: self.ma_thonxom@,
            dien_cu_tru: self.dien_cu_tru@,
            ma_phieu: self.ma_phieu@,
            ghi_chu: self.ghi_chu@,
            pcgd_csrf_token: self.pcgd_csrf_token@,
        }
    }
}

impl OwnerView {
    /// The record as it travels: every field value in base64,
    /// the session token as it is.
    pub open spec fn encoded(self) -> OwnerView {
        OwnerView {
            so_phieu: base64_text(self.so_phieu),
            chuho_hodem: base64_text(self.chuho_hodem),
            chuho_ten: base64_text(self.chuho_ten),
            dia_chi: base64_text(self.dia_chi),
            tinh_trang_cu_tru: base64_text(self.tinh_trang_cu_tru),
            dien_thoai: base64_text(self.dien_thoai),
            ngay_dieutra: base64_text(self.ngay_dieutra),
            ma_tinh: base64_text(self.ma_tinh),
            ma_quanhuyen: base64_text(self.ma_quanhuyen),
            ma_phuongxa: base64_text(self.ma_phuongxa),
            ma_thonxom: base64_text(self.ma_thonxom),
            dien_cu_tru: base64_text(self.dien_cu_tru),
            ma_phieu: base64_text(self.ma_phieu),
            ghi_chu: base64_text(self.ghi_chu),
            pcgd_csrf_token: self.pcgd_csrf_token,
        }
    }

    /// Whether every encoded field value decodes to a text.
    pub open spec fn decodable(self) -> bool {
        &&& decoded_text(self.so_phieu) is Some
        &&& decoded_text(self.chuho_hodem) is Some
        &&& decoded_text(self.chuho_ten) is Some
        &&& decoded_text(self.dia_chi) is Some
        &&& decoded_text(self.tinh_trang_cu_tru) is Some
        &&& decoded_text(self.dien_thoai) is Some
        &&& decoded_text(self.ngay_dieutra) is Some
        &&& decoded_text(self.ma_tinh) is Some
        &&& decoded_text(self.ma_quanhuyen) is Some
        &&& decoded_text(self.ma_phuongxa) is Some
        &&& decoded_text(self.ma_thonxom) is Some
        &&& decoded_text(self.dien_cu_tru) is Some
        &&& decoded_text(self.ma_phieu) is Some
        &&& decoded_text(self.ghi_chu) is Some
    }

    /// The record that an encoded record stands for: every field value
    /// decoded, the session token as it is.  Meaningful where the record is
    /// [`decodable`](Self::decodable).
    pub open spec fn decoded(self) -> OwnerView {
        OwnerView {
            so_phieu: decoded_text(self.so_phieu).unwrap(),
            chuho_hodem: decoded_text(self.chuho_hodem).unwrap(),
            chuho_ten: decoded_text(self.chuho_ten).unwrap(),
            dia_chi: decoded_text(self.dia_chi).unwrap(),
            tinh_trang_cu_tru: decoded_text(self.tinh_trang_cu_tru).unwrap(),
            dien_thoai: decoded_text(self.dien_thoai).unwrap(),
            ngay_dieutra: decoded_text(self.ngay_dieutra).unwrap(),
            ma_tinh: decoded_text(self.ma_tinh).unwrap(),
            ma_quanhuyen: decoded_text(self.ma_quanhuyen).unwrap(),
            ma_phuongxa: decoded_text(self.ma_phuongxa).unwrap(),
            ma_thonxom: decoded_text(self.ma_thonxom).unwrap(),
            dien_cu_tru: decoded_text(self.dien_cu_tru).unwrap(),
            ma_phieu: decoded_text(self.ma_phieu).unwrap(),
            ghi_chu: decoded_text(self.ghi_chu).unwrap(),
            pcgd_csrf_token: self.pcgd_csrf_token,
        }
    }
}

/// The owner record of a row taken by the survey context given.
pub open spec fn owner_from_row(
    row: Seq<Cell>,
    ngay_dieutra: Seq<char>,
    ma_tinh: Seq<char>,
    ma_quanhuyen: Seq<char>,
    ma_phuongxa: Seq<char>,
    ma_thonxom: Seq<char>,
    pcgd_csrf_token: Seq<char>,
) -> OwnerView {
    OwnerView {
        so_phieu: row[COL_TICKET as int].rendered@,
        chuho_hodem: row[COL_FAMILY_NAME as int].rendered@,
        chuho_ten: row[COL_GIVEN_NAME as int].rendered@,
        dia_chi: row[COL_ADDRESS as int].rendered@,
        tinh_trang_cu_tru: row[COL_RESIDENCY_STATUS as int].rendered@,
        dien_thoai: row[COL_PHONE as int].rendered@,
        ngay_dieutra: ngay_dieutra,
        ma_tinh: ma_tinh,
        ma_quanhuyen: ma_quanhuyen,
        ma_phuongxa: ma_phuongxa,
        ma_thonxom: ma_thonxom,
        dien_cu_tru: row[COL_RESIDENCY_KIND as int].rendered@,
        ma_phieu: Seq::empty(),
        ghi_chu: row[COL_NOTES as int].rendered@,
        pcgd_csrf_token: pcgd_csrf_token,
    }
}

impl ValueFieldHouseOwner {
    /// Builds the owner record of a row.  The row gives the head's own
    /// fields; the survey date, the four location codes and the session
    /// token come from the run.
    pub fn new(
        col: &[Cell],
        ngay_dieutra: String,
        ma_tinh: String,
        ma_quanhuyen: String,
        ma_phuongxa: String,
        ma_thonxom: String,
        pcgd_csrf_token: String,
    ) -> (r: Self)
        requires
            col@.len() >= ROW_WIDTH,
        ensures
            r@ == owner_from_row(
                col@,
                ngay_dieutra@,
                ma_tinh@,
                ma_quanhuyen@,
                ma_phuongxa@,
                ma_thonxom@,
                pcgd_csrf_token@,
            ),
    {
        ValueFieldHouseOwner {
            so_phieu: col[COL_TICKET].to_text(),
            chuho_hodem: col[COL_FAMILY_NAME].to_text(),
            chuho_ten: col[COL_GIVEN_NAME].to_text(),
            dia_chi: col[COL_ADDRESS].to_text(),
            tinh_trang_cu_tru: col[COL_RESIDENCY_STATUS].to_text(),
            dien_thoai: col[COL_PHONE].to_text(),
            ngay_dieutra,
            ma_tinh,
            ma_quanhuyen,
            ma_phuongxa,
            ma_thonxom,
            dien_cu_tru: col[COL_RESIDENCY_KIND].to_text(),
            ma_phieu: String::new(),
            ghi_chu: col[COL_NOTES].to_text(),
            pcgd_csrf_token,
        }
    }

    /// The encoded twin of the record: every field value in base64 but the
    /// session token.
    pub fn encode(&self) -> (r: Self)
        ensures
            r@ == self@.encoded(),
    {
        ValueFieldHouseOwner {
            so_phieu: encode_field(self.so_phieu.as_str()),
            chuho_hodem: encode_field(self.chuho_hodem.as_str()),
            chuho_ten: encode_field(self.chuho_ten.as_str()),
            dia_chi: encode_field(self.dia_chi.as_str()),
            tinh_trang_cu_tru: encode_field(self.tinh_trang_cu_tru.as_str()),
            dien_thoai: encode_field(self.dien_thoai.as_str()),
            ngay_dieutra: encode_field(self.ngay_dieutra.as_str()),
            ma_tinh: encode_field(self.ma_tinh.as_str()),
            ma_quanhuyen: encode_field(self.ma_quanhuyen.as_str()),
            ma_phuongxa: encode_field(self.ma_phuongxa.as_str()),
            ma_thonxom: encode_field(self.ma_thonxom.as_str()),
            dien_cu_tru: encode_field(self.dien_cu_tru.as_str()),
            ma_phieu: encode_field(self.ma_phieu.as_str()),
            ghi_chu: encode_field(self.ghi_chu.as_str()),
            pcgd_csrf_token: self.pcgd_csrf_token.clone(),
        }
    }

    /// The encoded twin of the record, as [`encode`](Self::encode) gives
    /// it.  The record itself is left as it is.
    pub fn build(&mut self) -> (r: Self)
        ensures
            r@ == old(self)@.encoded(),
            *final(self) == *old(self),
    {
        self.encode()
    }

    /// The record that an encoded record stands for, if every field value
    /// decodes.  Decoding the encoded twin of a record gives that record
    /// back, field for field.
    pub fn decode(&self) -> (r: Option<Self>)
        ensures
            r is Some <==> self@.decodable(),
            r is Some ==> r.unwrap()@ == self@.decoded(),
            forall|v: OwnerView|
                self@ == #[trigger] v.encoded() ==> r is Some && r.unwrap()@ == v,
    {
        let so_phieu = decode_field(self.so_phieu.as_str())?;
        let chuho_hodem = decode_field(self.chuho_hodem.as_str())?;
        let chuho_ten = decode_field(self.chuho_ten.as_str())?;
        let dia_chi = decode_field(self.dia_chi.as_str())?;
        let tinh_trang_cu_tru = decode_field(self.tinh_trang_cu_tru.as_str())?;
        let dien_thoai = decode_field(self.dien_thoai.as_str())?;
        let ngay_dieutra = decode_field(self.ngay_dieutra.as_str())?;
        let ma_tinh = decode_field(self.ma_tinh.as_str())?;
        let ma_quanhuyen = decode_field(self.ma_quanhuyen.as_str())?;
        let ma_phuongxa = decode_field(self.ma_phuongxa.as_str())?;
        let ma_thonxom = decode_field(self.ma_thonxom.as_str())?;
        let dien_cu_tru = decode_field(self.dien_cu_tru.as_str())?;
        let ma_phieu = decode_field(self.ma_phieu.as_str())?;
        let ghi_chu = decode_field(self.ghi_chu.as_str())?;
        Some(
            ValueFieldHouseOwner {
                so_phieu,
                chuho_hodem,
                chuho_ten,
                dia_chi,
                tinh_trang_cu_tru,
                dien_thoai,
                ngay_dieutra,
                ma_tinh,
                ma_quanhuyen,
                ma_phuongxa,
                ma_thonxom,
                dien_cu_tru,
                ma_phieu,
                ghi_chu,
                pcgd_csrf_token: self.pcgd_csrf_token.clone(),
            },
        )
    }
}

/// One resident of a household as the remote service records it.
#[derive(Debug, Clone, PartialEq, Eq)]
pub struct ValueFieldHouseResident {
    /// Full name: family name, a space, given name.
    pub ho_ten: String,
    /// Date of birth as day/month/year, day and month padded to two digits.
    pub ngay_sinh: String,
    /// Detail on the reason for a change.
    pub chi_tiet_hoan_canh_db: String,
    /// Relationship to the head of the household.
    pub qh_chu_ho: String,
    /// Father's name.
    pub ho_ten_cha: String,
    /// Priority-treatment marker.
    pub dien_uu_tien: String,
    /// Phone number.
    pub dien_thoai: String,
    /// Notes.
    pub ghi_chu: String,
    /// Sex code: "2" where the sheet marks the resident, "1" otherwise.
    pub gioi_tinh: String,
    /// Ethnicity code.
    pub ma_dantoc: String,
    /// Religion code.
    pub ton_giao: String,
    /// Code of the reason for a change, empty where there is none.
    pub hoan_canh_db: String,
    /// Record id of the household at the remote service; unset until bound.
    pub ma_phieu: Option<String>,
    /// Survey round; always empty.
    pub ma_dot: String,
    /// Disability codes, joined by commas.
    pub khuyet_tat_benh: String,
}

/// What a [`ValueFieldHouseResident`] holds, as texts.
pub struct ResidentView {
    pub ho_ten: Seq<char>,
    pub ngay_sinh: Seq<char>,
    pub chi_tiet_hoan_canh_db: Seq<char>,
    pub qh_chu_ho: Seq<char>,
    pub ho_ten_cha: Seq<char>,
    pub dien_uu_tien: Seq<char>,
    pub dien_thoai: Seq<char>,
    pub ghi_chu: Seq<char>,
    pub gioi_tinh: Seq<char>,
    pub ma_dantoc: Seq<char>,
    pub ton_giao: Seq<char>,
    pub hoan_canh_db: Seq<char>,
    pub ma_phieu: Option<Seq<char>>,
    pub ma_dot: Seq<char>,
    pub khuyet_tat_benh: Seq<char>,
}

impl View for ValueFieldHouseResident {
    type V = ResidentView;

    open spec fn view(&self) -> ResidentView {
        ResidentView {
            ho_ten: self.ho_ten@,
            ngay_sinh: self.ngay_sinh@,
            chi_tiet_hoan_canh_db: self.chi_tiet_hoan_canh_db@,
            qh_chu_ho: self.qh_chu_ho@,
            ho_ten_cha: self.ho_ten_cha@,
            dien_uu_tien: self.dien_uu_tien@,
            dien_thoai: self.dien_thoai@,
            ghi_chu: self.ghi_chu@,
            gioi_tinh: self.gioi_tinh@,
            ma_dantoc: self.ma_dantoc@,
            ton_giao: self.ton_giao@,
            hoan_canh_db: self.hoan_canh_db@,
            ma_phieu: view_of(self.ma_phieu),
            ma_dot: self.ma_dot@,
            khuyet_tat_benh: self.khuyet_tat_benh@,
        }
    }
}

impl ResidentView {
    /// The record as it travels: every field value in base64.
    pub open spec fn encoded(self) -> ResidentView {
        ResidentView {
            ho_ten: base64_text(self.ho_ten),
            ngay_sinh: base64_text(self.ngay_sinh),
            chi_tiet_hoan_canh_db: base64_text(self.chi_tiet_hoan_canh_db),
            qh_chu_ho: base64_text(self.qh_chu_ho),
            ho_ten_cha: base64_text(self.ho_ten_cha),
            dien_uu_tien: base64_text(self.dien_uu_tien),
            dien_thoai: base64_text(self.dien_thoai),
            ghi_chu: base64_text(self.ghi_chu),
            gioi_tinh: base64_text(self.gioi_tinh),
            ma_dantoc: base64_text(self.ma_dantoc),
            ton_giao: base64_text(self.ton_giao),
            hoan_canh_db: base64_text(self.hoan_canh_db),
            ma_phieu: encoded_option(self.ma_phieu),
            ma_dot: base64_text(self.ma_dot),
            khuyet_tat_benh: base64_text(self.khuyet_tat_benh),
        }
    }

    /// Whether every encoded field value decodes to a text.
    pub open spec fn decodable(self) -> bool {
        &&& decoded_text(self.ho_ten) is Some
        &&& decoded_text(self.ngay_sinh) is Some
        &&& decoded_text(self.chi_tiet_hoan_canh_db) is Some
        &&& decoded_text(self.qh_chu_ho) is Some
        &&& decoded_text(self.ho_ten_cha) is Some
        &&& decoded_text(self.dien_uu_tien) is Some
        &&& decoded_text(self.dien_thoai) is Some
        &&& decoded_text(self.ghi_chu) is Some
        &&& decoded_text(self.gioi_tinh) is Some
        &&& decoded_text(self.ma_dantoc) is Some
        &&& decoded_text(self.ton_giao) is Some
        &&& decoded_text(self.hoan_canh_db) is Some
        &&& self.ma_phieu matches Some(id) ==> decoded_text(id) is Some
        &&& decoded_text(self.ma_dot) is Some
        &&& decoded_text(self.khuyet_tat_benh) is Some
    }

    /// The record that an encoded record stands for: every field value
    /// decoded.  Meaningful where the record is
    /// [`decodable`](Self::decodable).
    pub open spec fn decoded(self) -> ResidentView {
        ResidentView {
            ho_ten: decoded_text(self.ho_ten).unwrap(),
            ngay_sinh: decoded_text(self.ngay_sinh).unwrap(),
            chi_tiet_hoan_canh_db: decoded_text(self.chi_tiet_hoan_canh_db).unwrap(),
            qh_chu_ho: decoded_text(self.qh_chu_ho).unwrap(),
            ho_ten_cha: decoded_text(self.ho_ten_cha).unwrap(),
            dien_uu_tien: decoded_text(self.dien_uu_tien).unwrap(),
            dien_thoai: decoded_text(self.dien_thoai).unwrap(),
            ghi_chu: decoded_text(self.ghi_chu).unwrap(),
            gioi_tinh: decoded_text(self.gioi_tinh).unwrap(),
            ma_dantoc: decoded_text(self.ma_dantoc).unwrap(),
            ton_giao: decoded_text(self.ton_giao).unwrap(),
            hoan_canh_db: decoded_text(self.hoan_canh_db).unwrap(),
            ma_phieu: decoded_option(self.ma_phieu),
            ma_dot: decoded_text(self.ma_dot).unwrap(),
            khuyet_tat_benh: decoded_text(self.khuyet_tat_benh).unwrap(),
        }
    }
}

/// The resident record of a row.
pub open spec fn resident_from_row(
    row: Seq<Cell>,
) -> ResidentView {
    ResidentView {
        ho_ten: full_name(
            row[COL_FAMILY_NAME as int].rendered@,
            row[COL_GIVEN_NAME as int].rendered@,
        ),
        ngay_sinh: birth_date(
            row[COL_BIRTH_DAY as int].rendered@,
            row[COL_BIRTH_MONTH as int].rendered@,
            row[COL_BIRTH_YEAR as int].rendered@,
        ),
        chi_tiet_hoan_canh_db: row[COL_CHANGE_DETAIL as int].rendered@,
        qh_chu_ho: row[COL_RELATIONSHIP as int].rendered@,
        ho_ten_cha: row[COL_FATHER_NAME as int].rendered@,
        dien_uu_tien: row[COL_PRIORITY as int].rendered@,
        dien_thoai: row[COL_PHONE as int].rendered@,
        ghi_chu: row[COL_NOTES as int].rendered@,
        gioi_tinh: sex_code(row[COL_SEX as int].rendered@),
        ma_dantoc: folded_code(row[COL_ETHNICITY as int].rendered@),
        ton_giao: folded_code(row[COL_RELIGION as int].rendered@),
        hoan_canh_db: change_reason_code(row[COL_CHANGE_REASON as int].rendered@),
        ma_phieu: None,
        ma_dot: Seq::empty(),
        khuyet_tat_benh: disability_codes(row),
    }
}

impl ValueFieldHouseResident {
    /// Builds the resident record of a row.  The record id of the
    /// household is not known yet and stays unset.
    pub fn new(col: &[Cell]) -> (r: Self)
        requires
            col@.len() >= ROW_WIDTH,
        ensures
            r@ == resident_from_row(col@),
    {
        let hoan_canh_db = change_reason(col[COL_CHANGE_REASON].rendered.as_str());
        let gioi_tinh = sex(col[COL_SEX].rendered.as_str());
        let khuyet_tat_benh = disabilities(col);
        let ngay_sinh = make_birth_date(
            col[COL_BIRTH_DAY].rendered.as_str(),
            col[COL_BIRTH_MONTH].rendered.as_str(),
            col[COL_BIRTH_YEAR].rendered.as_str(),
        );
        let ho_ten = make_full_name(
            col[COL_FAMILY_NAME].rendered.as_str(),
            col[COL_GIVEN_NAME].rendered.as_str(),
        );
        ValueFieldHouseResident {
            ho_ten,
            ngay_sinh,
            chi_tiet_hoan_canh_db: col[COL_CHANGE_DETAIL].to_text(),
            qh_chu_ho: col[COL_RELATIONSHIP].to_text(),
            ho_ten_cha: col[COL_FATHER_NAME].to_text(),
            dien_uu_tien: col[COL_PRIORITY].to_text(),
            dien_thoai: col[COL_PHONE].to_text(),
            ghi_chu: col[COL_NOTES].to_text(),
            gioi_tinh,
            ma_dantoc: fold_code(col[COL_ETHNICITY].rendered.as_str()),
            ton_giao: fold_code(col[COL_RELIGION].rendered.as_str()),
            hoan_canh_db,
            ma_phieu: None,
            ma_dot: String::new(),
            khuyet_tat_benh,
        }
    }

    /// Binds the record id of the household to the resident.  Nothing else
    /// changes.
    pub fn update_ma_phieu(&mut self, ma_phieu: String)
        ensures
            final(self)@ == (ResidentView { ma_phieu: Some(ma_phieu@), ..old(self)@ }),
    {
        self.ma_phieu = Some(ma_phieu);
    }

    /// A copy of the resident that carries the record id of its household.
    pub fn bound(&self, ma_phieu: &str) -> (r: Self)
        ensures
            r@ == (ResidentView { ma_phieu: Some(ma_phieu@), ..self@ }),
    {
        ValueFieldHouseResident {
            ho_ten: self.ho_ten.clone(),
            ngay_sinh: self.ngay_sinh.clone(),
            chi_tiet_hoan_canh_db: self.chi_tiet_hoan_canh_db.clone(),
            qh_chu_ho: self.qh_chu_ho.clone(),
            ho_ten_cha: self.ho_ten_cha.clone(),
            dien_uu_tien: self.dien_uu_tien.clone(),
            dien_thoai: self.dien_thoai.clone(),
            ghi_chu: self.ghi_chu.clone(),
            gioi_tinh: self.gioi_tinh.clone(),
            ma_dantoc: self.ma_dantoc.clone(),
            ton_giao: self.ton_giao.clone(),
            hoan_canh_db: self.hoan_canh_db.clone(),
            ma_phieu: Some(ma_phieu.to_owned()),
            ma_dot: self.ma_dot.clone(),
            khuyet_tat_benh: self.khuyet_tat_benh.clone(),
        }
    }

    /// The encoded twin of the record: every field value in base64.  The
    /// record id must have been bound.
    pub fn build(&self) -> (r: Self)
        requires
            self.ma_phieu is Some,
        ensures
            r@ == self@.encoded(),
    {
        ValueFieldHouseResident {
            ho_ten: encode_field(self.ho_ten.as_str()),
            ngay_sinh: encode_field(self.ngay_sinh.as_str()),
            chi_tiet_hoan_canh_db: encode_field(self.chi_tiet_hoan_canh_db.as_str()),
            qh_chu_ho: encode_field(self.qh_chu_ho.as_str()),
            ho_ten_cha: encode_field(self.ho_ten_cha.as_str()),
            dien_uu_tien: encode_field(self.dien_uu_tien.as_str()),
            dien_thoai: encode_field(self.dien_thoai.as_str()),
            ghi_chu: encode_field(self.ghi_chu.as_str()),
            gioi_tinh: encode_field(self.gioi_tinh.as_str()),
            ma_dantoc: encode_field(self.ma_dantoc.as_str()),
            ton_giao: encode_field(self.ton_giao.as_str()),
            hoan_canh_db: encode_field(self.hoan_canh_db.as_str()),
            ma_phieu: Some(encode_field(self.ma_phieu.as_ref().unwrap().as_str())),
            ma_dot: encode_field(self.ma_dot.as_str()),
            khuyet_tat_benh: encode_field(self.khuyet_tat_benh.as_str()),
        }
    }

    /// The record that an encoded record stands for, if every field value
    /// decodes.  Decoding the encoded twin of a record gives that record
    /// back, field for field.
    pub fn decode(&self) -> (r: Option<Self>)
        ensures
            r is Some <==> self@.decodable(),
            r is Some ==> r.unwrap()@ == self@.decoded(),
            forall|v: ResidentView|
                self@ == #[trigger] v.encoded() ==> r is Some && r.unwrap()@ == v,
    {
        let ho_ten = decode_field(self.ho_ten.as_str())?;
        let ngay_sinh = decode_field(self.ngay_sinh.as_str())?;
        let chi_tiet_hoan_canh_db = decode_field(self.chi_tiet_hoan_canh_db.as_str())?;
        let qh_chu_ho = decode_field(self.qh_chu_ho.as_str())?;
        let ho_ten_cha = decode_field(self.ho_ten_cha.as_str())?;
        let dien_uu_tien = decode_field(self.dien_uu_tien.as_str())?;
        let dien_thoai = decode_field(self.dien_thoai.as_str())?;
        let ghi_chu = decode_field(self.ghi_chu.as_str())?;
        let gioi_tinh = decode_field(self.gioi_tinh.as_str())?;
        let ma_dantoc = decode_field(self.ma_dantoc.as_str())?;
        let ton_giao = decode_field(self.ton_giao.as_str())?;
        let hoan_canh_db = decode_field(self.hoan_canh_db.as_str())?;
        let ma_phieu = match &self.ma_phieu {
            Some(id) => Some(decode_field(id.as_str())?),
            None => None,
        };
        let ma_dot = decode_field(self.ma_dot.as_str())?;
        let khuyet_tat_benh = decode_field(self.khuyet_tat_benh.as_str())?;
        Some(
            ValueFieldHouseResident {
                ho_ten,
                ngay_sinh,
                chi_tiet_hoan_canh_db,
                qh_chu_ho,
                ho_ten_cha,
                dien_uu_tien,
                dien_thoai,
                ghi_chu,
                gioi_tinh,
                ma_dantoc,
                ton_giao,
                hoan_canh_db,
                ma_phieu,
                ma_dot,
                khuyet_tat_benh,
            },
        )
    }
}

/// The general education of a resident.
#[derive(Debug, Clone, PartialEq, Eq)]
pub struct ValueFieldHouseResidentGeneralEducation {
    /// Year of graduation.
    pub tn_nam: String,
    /// Number of the diploma; always empty.
    pub so_bang_tn: String,
    /// Year of vocational graduation.
    pub nam_tn_nghe: String,
    /// Year of completion; always empty.
    pub nam_hx: String,
    /// Year in which the resident dropped out.
    pub bohoc_nam: String,
    /// Highest level graduated from.
    pub cap_tn: String,
    /// Vocational level, "0" where the sheet holds the empty text.
    pub bac_tn_nghe: String,
    /// Completion; always one space.
    pub hoc_xong: String,
    /// Grade at which the resident dropped out, "0" where the sheet holds the empty text.
    pub bohoc_lop: String,
    /// Relapse into illiteracy, "0" where the sheet holds the empty text.
    pub tai_mu_chu: String,
    /// Literacy class attended, "0" where the sheet holds the empty text.
    pub hoc_xmc_lop: String,
    /// Literacy recognised, "0" where the sheet holds the empty text.
    pub congnhan_xmc: String,
    /// Supplementary education; always empty.
    pub bo_tuc: String,
    /// Kind of lower-secondary school; always empty.
    pub tnc2_loaitruong: String,
}

/// What a [`ValueFieldHouseResidentGeneralEducation`] holds, as texts.
pub struct GeneralEducationView {
    pub tn_nam: Seq<char>,
    pub so_bang_tn: Seq<char>,
    pub nam_tn_nghe: Seq<char>,
    pub nam_hx: Seq<char>,
    pub bohoc_nam: Seq<char>,
    pub cap_tn: Seq<char>,
    pub bac_tn_nghe: Seq<char>,
    pub hoc_xong: Seq<char>,
    pub bohoc_lop: Seq<char>,
    pub tai_mu_chu: Seq<char>,
    pub hoc_xmc_lop: Seq<char>,
    pub congnhan_xmc: Seq<char>,
    pub bo_tuc: Seq<char>,
    pub tnc2_loaitruong: Seq<char>,
}

impl View for ValueFieldHouseResidentGeneralEducation {
    type V = GeneralEducationView;

    open spec fn view(&self) -> GeneralEducationView {
        GeneralEducationView {
            tn_nam: self.tn_nam@,
            so_bang_tn: self.so_bang_tn@,
            nam_tn_nghe: self.nam_tn_nghe@,
            nam_hx: self.nam_hx@,
            bohoc_nam: self.bohoc_nam@,
            cap_tn: self.cap_tn@,
            bac_tn_nghe: self.bac_tn_nghe@,
            hoc_xong: self.hoc_xong@,
            bohoc_lop: self.bohoc_lop@,
            tai_mu_chu: self.tai_mu_chu@,
            hoc_xmc_lop: self.hoc_xmc_lop@,
            congnhan_xmc: self.congnhan_xmc@,
            bo_tuc: self.bo_tuc@,
            tnc2_loaitruong: self.tnc2_loaitruong@,
        }
    }
}

impl GeneralEducationView {
    /// The record as it travels: every field value in base64.
    pub open spec fn encoded(self) -> GeneralEducationView {
        GeneralEducationView {
            tn_nam: base64_text(self.tn_nam),
            so_bang_tn: base64_text(self.so_bang_tn),
            nam_tn_nghe: base64_text(self.nam_tn_nghe),
            nam_hx: base64_text(self.nam_hx),
            bohoc_nam: base64_text(self.bohoc_nam),
            cap_tn: base64_text(self.cap_tn),
            bac_tn_nghe: base64_text(self.bac_tn_nghe),
            hoc_xong: base64_text(self.hoc_xong),
            bohoc_lop: base64_text(self.bohoc_lop),
            tai_mu_chu: base64_text(self.tai_mu_chu),
            hoc_xmc_lop: base64_text(self.hoc_xmc_lop),
            congnhan_xmc: base64_text(self.congnhan_xmc),
            bo_tuc: base64_text(self.bo_tuc),
            tnc2_loaitruong: base64_text(self.tnc2_loaitruong),
        }
    }

    /// Whether every encoded field value decodes to a text.
    pub open spec fn decodable(self) -> bool {
        &&& decoded_text(self.tn_nam) is Some
        &&& decoded_text(self.so_bang_tn) is Some
        &&& decoded_text(self.nam_tn_nghe) is Some
        &&& decoded_text(self.nam_hx) is Some
        &&& decoded_text(self.bohoc_nam) is Some
        &&& decoded_text(self.cap_tn) is Some
        &&& decoded_text(self.bac_tn_nghe) is Some
        &&& decoded_text(self.hoc_xong) is Some
        &&& decoded_text(self.bohoc_lop) is Some
        &&& decoded_text(self.tai_mu_chu) is Some
        &&& decoded_text(self.hoc_xmc_lop) is Some
        &&& decoded_text(self.congnhan_xmc) is Some
        &&& decoded_text(self.bo_tuc) is Some
        &&& decoded_text(self.tnc2_loaitruong) is Some
    }

    /// The record that an encoded record stands for: every field value
    /// decoded.  Meaningful where the record is
    /// [`decodable`](Self::decodable).
    pub open spec fn decoded(self) -> GeneralEducationView {
        GeneralEducationView {
            tn_nam: decoded_text(self.tn_nam).unwrap(),
            so_bang_tn: decoded_text(self.so_bang_tn).unwrap(),
            nam_tn_nghe: decoded_text(self.nam_tn_nghe).unwrap(),
            nam_hx: decoded_text(self.nam_hx).unwrap(),
            bohoc_nam: decoded_text(self.bohoc_nam).unwrap(),
            cap_tn: decoded_text(self.cap_tn).unwrap(),
            bac_tn_nghe: decoded_text(self.bac_tn_nghe).unwrap(),
            hoc_xong: decoded_text(self.hoc_xong).unwrap(),
            bohoc_lop: decoded_text(self.bohoc_lop).unwrap(),
            tai_mu_chu: decoded_text(self.tai_mu_chu).unwrap(),
            hoc_xmc_lop: decoded_text(self.hoc_xmc_lop).unwrap(),
            congnhan_xmc: decoded_text(self.congnhan_xmc).unwrap(),
            bo_tuc: decoded_text(self.bo_tuc).unwrap(),
            tnc2_loaitruong: decoded_text(self.tnc2_loaitruong).unwrap(),
        }
    }
}

/// The general-education record of a row.
pub open spec fn general_education_from_row(
    row: Seq<Cell>,
) -> GeneralEducationView {
    GeneralEducationView {
        tn_nam: row[COL_GRADUATION_YEAR as int].rendered@,
        so_bang_tn: Seq::empty(),
        nam_tn_nghe: row[COL_VOCATIONAL_YEAR as int].rendered@,
        nam_hx: Seq::empty(),
        bohoc_nam: row[COL_DROPOUT_YEAR as int].rendered@,
        cap_tn: row[COL_GRADUATED_LEVEL as int].rendered@,
        bac_tn_nghe: row[COL_VOCATIONAL_LEVEL as int].or_zero(),
        hoc_xong: seq![' '],
        bohoc_lop: row[COL_DROPOUT_GRADE as int].or_zero(),
        tai_mu_chu: row[COL_ILLITERACY_RELAPSE as int].or_zero(),
        hoc_xmc_lop: row[COL_LITERACY_CLASS as int].or_zero(),
        congnhan_xmc: row[COL_LITERACY_RECOGNISED as int].or_zero(),
        bo_tuc: Seq::empty(),
        tnc2_loaitruong: Seq::empty(),
    }
}

impl ValueFieldHouseResidentGeneralEducation {
    /// Builds the general-education record of a row.
    pub fn new(col: &[Cell]) -> (r: Self)
        requires
            col@.len() >= ROW_WIDTH,
        ensures
            r@ == general_education_from_row(col@),
    {
        let mut hoc_xong = String::new();
        hoc_xong.push(' ');
        ValueFieldHouseResidentGeneralEducation {
            tn_nam: col[COL_GRADUATION_YEAR].to_text(),
            so_bang_tn: String::new(),
            nam_tn_nghe: col[COL_VOCATIONAL_YEAR].to_text(),
            nam_hx: String::new(),
            bohoc_nam: col[COL_DROPOUT_YEAR].to_text(),
            cap_tn: col[COL_GRADUATED_LEVEL].to_text(),
            bac_tn_nghe: col[COL_VOCATIONAL_LEVEL].to_text_or_zero(),
            hoc_xong,
            bohoc_lop: col[COL_DROPOUT_GRADE].to_text_or_zero(),
            tai_mu_chu: col[COL_ILLITERACY_RELAPSE].to_text_or_zero(),
            hoc_xmc_lop: col[COL_LITERACY_CLASS].to_text_or_zero(),
            congnhan_xmc: col[COL_LITERACY_RECOGNISED].to_text_or_zero(),
            bo_tuc: String::new(),
            tnc2_loaitruong: String::new(),
        }
    }

    /// The encoded twin of the record: every field value in base64.
    pub fn build(&self) -> (r: Self)
        ensures
            r@ == self@.encoded(),
    {
        ValueFieldHouseResidentGeneralEducation {
            tn_nam: encode_field(self.tn_nam.as_str()),
            so_bang_tn: encode_field(self.so_bang_tn.as_str()),
            nam_tn_nghe: encode_field(self.nam_tn_nghe.as_str()),
            nam_hx: encode_field(self.nam_hx.as_str()),
            bohoc_nam: encode_field(self.bohoc_nam.as_str()),
            cap_tn: encode_field(self.cap_tn.as_str()),
            bac_tn_nghe: encode_field(self.bac_tn_nghe.as_str()),
            hoc_xong: encode_field(self.hoc_xong.as_str()),
            bohoc_lop: encode_field(self.bohoc_lop.as_str()),
            tai_mu_chu: encode_field(self.tai_mu_chu.as_str()),
            hoc_xmc_lop: encode_field(self.hoc_xmc_lop.as_str()),
            congnhan_xmc: encode_field(self.congnhan_xmc.as_str()),
            bo_tuc: encode_field(self.bo_tuc.as_str()),
            tnc2_loaitruong: encode_field(self.tnc2_loaitruong.as_str()),
        }
    }

    /// The record that an encoded record stands for, if every field value
    /// decodes.  Decoding the encoded twin of a record gives that record
    /// back, field for field.
    pub fn decode(&self) -> (r: Option<Self>)
        ensures
            r is Some <==> self@.decodable(),
            r is Some ==> r.unwrap()@ == self@.decoded(),
            forall|v: GeneralEducationView|
                self@ == #[trigger] v.encoded() ==> r is Some && r.unwrap()@ == v,
    {
        let tn_nam = decode_field(self.tn_nam.as_str())?;
        let so_bang_tn = decode_field(self.so_bang_tn.as_str())?;
        let nam_tn_nghe = decode_field(self.nam_tn_nghe.as_str())?;
        let nam_hx = decode_field(self.nam_hx.as_str())?;
        let bohoc_nam = decode_field(self.bohoc_nam.as_str())?;
        let cap_tn = decode_field(self.cap_tn.as_str())?;
        let bac_tn_nghe = decode_field(self.bac_tn_nghe.as_str())?;
        let hoc_xong = decode_field(self.hoc_xong.as_str())?;
        let bohoc_lop = decode_field(self.bohoc_lop.as_str())?;
        let tai_mu_chu = decode_field(self.tai_mu_chu.as_str())?;
        let hoc_xmc_lop = decode_field(self.hoc_xmc_lop.as_str())?;
        let congnhan_xmc = decode_field(self.congnhan_xmc.as_str())?;
        let bo_tuc = decode_field(self.bo_tuc.as_str())?;
        let tnc2_loaitruong = decode_field(self.tnc2_loaitruong.as_str())?;
        Some(
            ValueFieldHouseResidentGeneralEducation {
                tn_nam,
                so_bang_tn,
                nam_tn_nghe,
                nam_hx,
                bohoc_nam,
                cap_tn,
                bac_tn_nghe,
                hoc_xong,
                bohoc_lop,
                tai_mu_chu,
                hoc_xmc_lop,
                congnhan_xmc,
                bo_tuc,
                tnc2_loaitruong,
            },
        )
    }
}

/// The education of a resident in the survey year.
#[derive(Debug, Clone, PartialEq, Eq)]
pub struct ValueFieldHouseResident2024Education {
    /// Class attended.
    pub lophoc_2024: String,
    /// Province code.
    pub ma_tinh: String,
    /// District code, qualified by the province.
    pub ma_quanhuyen: String,
    /// Grade code.
    pub khoi: String,
    /// School code.
    pub ma_truong: String,
    /// Kind of study; always empty.
    pub ma_hoctap_2024: String,
    /// School year the record is for; always "2024".
    pub nam_hoc_re: String,
    /// Preschool view; always empty.
    pub cb_view_mamnon_2024: String,
    /// Repeated class; always empty.
    pub luuban_2024: String,
    /// Form of study; always empty.
    pub hinhthuchoc_2024: String,
    /// "1" where the sheet marks supplementary education, empty otherwise.
    pub hoc_bo_tuc: String,
}

/// What a [`ValueFieldHouseResident2024Education`] holds, as texts.
pub struct Education2024View {
    pub lophoc_2024: Seq<char>,
    pub ma_tinh: Seq<char>,
    pub ma_quanhuyen: Seq<char>,
    pub khoi: Seq<char>,
    pub ma_truong: Seq<char>,
    pub ma_hoctap_2024: Seq<char>,
    pub nam_hoc_re: Seq<char>,
    pub cb_view_mamnon_2024: Seq<char>,
    pub luuban_2024: Seq<char>,
    pub hinhthuchoc_2024: Seq<char>,
    pub hoc_bo_tuc: Seq<char>,
}

impl View for ValueFieldHouseResident2024Education {
    type V = Education2024View;

    open spec fn view(&self) -> Education2024View {
        Education2024View {
            lophoc_2024: self.lophoc_2024@,
            ma_tinh: self.ma_tinh@,
            ma_quanhuyen: self.ma_quanhuyen@,
            khoi: self.khoi@,
            ma_truong: self.ma_truong@,
            ma_hoctap_2024: self.ma_hoctap_2024@,
            nam_hoc_re: self.nam_hoc_re@,
            cb_view_mamnon_2024: self.cb_view_mamnon_2024@,
            luuban_2024: self.luuban_2024@,
            hinhthuchoc_2024: self.hinhthuchoc_2024@,
            hoc_bo_tuc: self.hoc_bo_tuc@,
        }
    }
}

impl Education2024View {
    /// The record as it travels: every field value in base64.
    pub open spec fn encoded(self) -> Education2024View {
        Education2024View {
            lophoc_2024: base64_text(self.lophoc_2024),
            ma_tinh: base64_text(self.ma_tinh),
            ma_quanhuyen: base64_text(self.ma_quanhuyen),
            khoi: base64_text(self.khoi),
            ma_truong: base64_text(self.ma_truong),
            ma_hoctap_2024: base64_text(self.ma_hoctap_2024),
            nam_hoc_re: base64_text(self.nam_hoc_re),
            cb_view_mamnon_2024: base64_text(self.cb_view_mamnon_2024),
            luuban_2024: base64_text(self.luuban_2024),
            hinhthuchoc_2024: base64_text(self.hinhthuchoc_2024),
            hoc_bo_tuc: base64_text(self.hoc_bo_tuc),
        }
    }

    /// Whether every encoded field value decodes to a text.
    pub open spec fn decodable(self) -> bool {
        &&& decoded_text(self.lophoc_2024) is Some
        &&& decoded_text(self.ma_tinh) is Some
        &&& decoded_text(self.ma_quanhuyen) is Some
        &&& decoded_text(self.khoi) is Some
        &&& decoded_text(self.ma_truong) is Some
        &&& decoded_text(self.ma_hoctap_2024) is Some
        &&& decoded_text(self.nam_hoc_re) is Some
        &&& decoded_text(self.cb_view_mamnon_2024) is Some
        &&& decoded_text(self.luuban_2024) is Some
        &&& decoded_text(self.hinhthuchoc_2024) is Some
        &&& decoded_text(self.hoc_bo_tuc) is Some
    }

    /// The record that an encoded record stands for: every field value
    /// decoded.  Meaningful where the record is
    /// [`decodable`](Self::decodable).
    pub open spec fn decoded(self) -> Education2024View {
        Education2024View {
            lophoc_2024: decoded_text(self.lophoc_2024).unwrap(),
            ma_tinh: decoded_text(self.ma_tinh).unwrap(),
            ma_quanhuyen: decoded_text(self.ma_quanhuyen).unwrap(),
            khoi: decoded_text(self.khoi).unwrap(),
            ma_truong: decoded_text(self.ma_truong).unwrap(),
            ma_hoctap_2024: decoded_text(self.ma_hoctap_2024).unwrap(),
            nam_hoc_re: decoded_text(self.nam_hoc_re).unwrap(),
            cb_view_mamnon_2024: decoded_text(self.cb_view_mamnon_2024).unwrap(),
            luuban_2024: decoded_text(self.luuban_2024).unwrap(),
            hinhthuchoc_2024: decoded_text(self.hinhthuchoc_2024).unwrap(),
            hoc_bo_tuc: decoded_text(self.hoc_bo_tuc).unwrap(),
        }
    }
}

/// The survey-year education record of a row in the province and district given.
pub open spec fn education_2024_from_row(
    row: Seq<Cell>,
    ma_tinh: Seq<char>,
    ma_quanhuyen: Seq<char>,
) -> Education2024View {
    Education2024View {
        lophoc_2024: row[COL_CLASS as int].rendered@,
        ma_tinh: ma_tinh,
        ma_quanhuyen: ma_quanhuyen,
        khoi: grade_code(row[COL_GRADE as int].rendered@),
        ma_truong: row[COL_SCHOOL as int].rendered@,
        ma_hoctap_2024: Seq::empty(),
        nam_hoc_re: "2024"@,
        cb_view_mamnon_2024: Seq::empty(),
        luuban_2024: Seq::empty(),
        hinhthuchoc_2024: Seq::empty(),
        hoc_bo_tuc: supplementary_code(row[COL_SUPPLEMENTARY as int].rendered@),
    }
}

impl ValueFieldHouseResident2024Education {
    /// Builds the survey-year education record of a row in the province
    /// and district given.
    pub fn new(col: &[Cell], ma_tinh: String, ma_quanhuyen: String) -> (r: Self)
        requires
            col@.len() >= ROW_WIDTH,
        ensures
            r@ == education_2024_from_row(col@, ma_tinh@, ma_quanhuyen@),
    {
        let hoc_bo_tuc = supplementary(col[COL_SUPPLEMENTARY].rendered.as_str());
        ValueFieldHouseResident2024Education {
            lophoc_2024: col[COL_CLASS].to_text(),
            ma_tinh,
            ma_quanhuyen,
            khoi: grade(col[COL_GRADE].rendered.as_str()),
            ma_truong: col[COL_SCHOOL].to_text(),
            ma_hoctap_2024: String::new(),
            nam_hoc_re: "2024".to_owned(),
            cb_view_mamnon_2024: String::new(),
            luuban_2024: String::new(),
            hinhthuchoc_2024: String::new(),
            hoc_bo_tuc,
        }
    }

    /// The encoded twin of the record: every field value in base64.
    pub fn build(&self) -> (r: Self)
        ensures
            r@ == self@.encoded(),
    {
        ValueFieldHouseResident2024Education {
            lophoc_2024: encode_field(self.lophoc_2024.as_str()),
            ma_tinh: encode_field(self.ma_tinh.as_str()),
            ma_quanhuyen: encode_field(self.ma_quanhuyen.as_str()),
            khoi: encode_field(self.khoi.as_str()),
            ma_truong: encode_field(self.ma_truong.as_str()),
            ma_hoctap_2024: encode_field(self.ma_hoctap_2024.as_str()),
            nam_hoc_re: encode_field(self.nam_hoc_re.as_str()),
            cb_view_mamnon_2024: encode_field(self.cb_view_mamnon_2024.as_str()),
            luuban_2024: encode_field(self.luuban_2024.as_str()),
            hinhthuchoc_2024: encode_field(self.hinhthuchoc_2024.as_str()),
            hoc_bo_tuc: encode_field(self.hoc_bo_tuc.as_str()),
        }
    }

    /// The record that an encoded record stands for, if every field value
    /// decodes.  Decoding the encoded twin of a record gives that record
    /// back, field for field.
    pub fn decode(&self) -> (r: Option<Self>)
        ensures
            r is Some <==> self@.decodable(),
            r is Some ==> r.unwrap()@ == self@.decoded(),
            forall|v: Education2024View|
                self@ == #[trigger] v.encoded() ==> r is Some && r.unwrap()@ == v,
    {
        let lophoc_2024 = decode_field(self.lophoc_2024.as_str())?;
        let ma_tinh = decode_field(self.ma_tinh.as_str())?;
        let ma_quanhuyen = decode_field(self.ma_quanhuyen.as_str())?;
        let khoi = decode_field(self.khoi.as_str())?;
        let ma_truong = decode_field(self.ma_truong.as_str())?;
        let ma_hoctap_2024 = decode_field(self.ma_hoctap_2024.as_str())?;
        let nam_hoc_re = decode_field(self.nam_hoc_re.as_str())?;
        let cb_view_mamnon_2024 = decode_field(self.cb_view_mamnon_2024.as_str())?;
        let luuban_2024 = decode_field(self.luuban_2024.as_str())?;
        let hinhthuchoc_2024 = decode_field(self.hinhthuchoc_2024.as_str())?;
        let hoc_bo_tuc = decode_field(self.hoc_bo_tuc.as_str())?;
        Some(
            ValueFieldHouseResident2024Education {
                lophoc_2024,
                ma_tinh,
                ma_quanhuyen,
                khoi,
                ma_truong,
                ma_hoctap_2024,
                nam_hoc_re,
                cb_view_mamnon_2024,
                luuban_2024,
                hinhthuchoc_2024,
                hoc_bo_tuc,
            },
        )
    }
}

} // verus!
