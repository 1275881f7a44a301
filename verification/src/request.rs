//! The requests of the remote service.
//!
//! Every request is a form posted to one address.  Records travel as JSON
//! texts inside form fields; the program around the library writes those
//! texts and hands them in, the library frames them.

use crate::location::LocationCodes;
use crate::text::views;
use crate::wire::{base64_text, encode_field};
use vstd::prelude::*;
use vstd::string::StringExecFns;

verus! {

/// Where an owner is created or updated.
pub const OWNER_URL: &'static str = "https://pcgd.moet.gov.vn/doing/phieudieutra/update";

/// Where household records are searched.
pub const SEARCH_URL: &'static str = "https://pcgd.moet.gov.vn/doing/phieudieutra/lay_phieu";

/// Where the dependents of a household are listed; the record id follows.
pub const LIST_URL: &'static str = "https://pcgd.moet.gov.vn/doing/doituong/lay_doituong?phieu=";

/// Where dependents are deleted.
pub const DELETE_URL: &'static str = "https://pcgd.moet.gov.vn/doing/doituong/delete";

/// Where a resident is created.
pub const RESIDENT_URL: &'static str = "https://pcgd.moet.gov.vn/doing/doituong/add";

/// Name of the form field that carries the session token.
pub const TOKEN_FIELD: &'static str = "pcgd-csrf-token";

/// A form to post: the address and the fields in order.
#[derive(Debug, Clone, PartialEq, Eq)]
pub struct Request {
    pub url: String,
    pub form: Vec<(String, String)>,
}

/// What a [`Request`] holds, as texts.
pub struct RequestView {
    pub url: Seq<char>,
    pub form: Seq<(Seq<char>, Seq<char>)>,
}

/// The views of the fields of a form.
pub open spec fn field_views(form: Seq<(String, String)>) -> Seq<(Seq<char>, Seq<char>)> {
    form.map_values(|field: (String, String)| (field.0@, field.1@))
}

impl View for Request {
    type V = RequestView;

    open spec fn view(&self) -> RequestView {
        RequestView { url: self.url@, form: field_views(self.form@) }
    }
}

/// The request that submits an owner, given as JSON text.
pub open spec fn owner_request_of(owner_json: Seq<char>, token: Seq<char>) -> RequestView {
    RequestView { url: OWNER_URL@, form: seq![("data"@, owner_json), (TOKEN_FIELD@, token)] }
}

/// The request that searches the household records of a ward for a
/// ticket number.
pub open spec fn search_request_of(
    ma_tinh: Seq<char>,
    ma_quanhuyen: Seq<char>,
    ma_phuongxa: Seq<char>,
    so_phieu: Seq<char>,
    token: Seq<char>,
) -> RequestView {
    RequestView {
        url: SEARCH_URL@,
        form: seq![
            ("tinh"@, ma_tinh),
            ("quanhuyen"@, ma_quanhuyen),
            ("phuongxa"@, ma_phuongxa),
            ("tukhoa"@, so_phieu),
            ("_search"@, "false"@),
            ("rows"@, "5"@),
            ("page"@, "1"@),
            ("sidx"@, "so_phieu"@),
            (TOKEN_FIELD@, token),
        ],
    }
}

/// The request that lists the first page of the dependents of a
/// household.
pub open spec fn list_request_of(ma_phieu: Seq<char>, token: Seq<char>) -> RequestView {
    RequestView {
        url: LIST_URL@ + ma_phieu,
        form: seq![
            ("_search"@, "false"@),
            ("rows"@, "10"@),
            ("page"@, "1"@),
            ("sord"@, "asc"@),
            ("sidx"@, "ngay_sinh"@),
            (TOKEN_FIELD@, token),
        ],
    }
}

/// The request that deletes the dependents with the ids given: one field
/// for each id, in order, then the token.
pub open spec fn delete_request_of(ids: Seq<Seq<char>>, token: Seq<char>) -> RequestView {
    RequestView {
        url: DELETE_URL@,
        form: ids.map_values(|id: Seq<char>| ("id[]"@, id)).push((TOKEN_FIELD@, token)),
    }
}

/// The token as the third part of a resident: a JSON object of one member.
pub open spec fn token_part(token: Seq<char>) -> Seq<char> {
    "{\"pcgd-csrf-token\" : \""@ + token + "\"}"@
}

/// An encoded text as the member "2024" of a JSON object.
pub open spec fn education_frame(encoded: Seq<char>) -> Seq<char> {
    "{\"2024\": \""@ + encoded + "\"}"@
}

/// The survey-year education of a resident as it travels: its JSON text in
/// base64, as the member "2024" of a JSON object.
pub open spec fn education_part(education_json: Seq<char>) -> Seq<char> {
    education_frame(base64_text(education_json))
}

/// The request that submits a resident, whose three records are given as
/// JSON texts.
pub open spec fn resident_request_of(
    resident_json: Seq<char>,
    general_json: Seq<char>,
    education_json: Seq<char>,
    token: Seq<char>,
) -> RequestView {
    RequestView {
        url: RESIDENT_URL@,
        form: seq![
            ("data1"@, resident_json),
            ("data2"@, general_json),
            ("data3"@, token_part(token)),
            ("data_dtht"@, education_part(education_json)),
            (TOKEN_FIELD@, token),
        ],
    }
}

/// One field of a form.
pub fn field(name: &str, value: &str) -> (r: (String, String))
    ensures
        r.0@ == name@,
        r.1@ == value@,
{
    (name.to_owned(), value.to_owned())
}

/// Builds the request that submits an owner.
pub fn owner_request(owner_json: &str, token: &str) -> (r: Request)
    ensures
        r@ == owner_request_of(owner_json@, token@),
{
    let mut form: Vec<(String, String)> = Vec::new();
    form.push(field("data", owner_json));
    form.push(field(TOKEN_FIELD, token));
    let r = Request { url: OWNER_URL.to_owned(), form };
    assert(r@.form =~= owner_request_of(owner_json@, token@).form);
    r
}

/// Builds the request that searches for a ticket number.
pub fn search_request(codes: &LocationCodes, so_phieu: &str, token: &str) -> (r: Request)
    ensures
        r@ == search_request_of(
            codes.ma_tinh@,
            codes.ma_quanhuyen@,
            codes.ma_phuongxa@,
            so_phieu@,
            token@,
        ),
{
    let mut form: Vec<(String, String)> = Vec::new();
    form.push(field("tinh", codes.ma_tinh.as_str()));
    form.push(field("quanhuyen", codes.ma_quanhuyen.as_str()));
    form.push(field("phuongxa", codes.ma_phuongxa.as_str()));
    form.push(field("tukhoa", so_phieu));
    form.push(field("_search", "false"));
    form.push(field("rows", "5"));
    form.push(field("page", "1"));
    form.push(field("sidx", "so_phieu"));
    form.push(field(TOKEN_FIELD, token));
    let r = Request { url: SEARCH_URL.to_owned(), form };
    assert(r@.form =~= search_request_of(
        codes.ma_tinh@,
        codes.ma_quanhuyen@,
        codes.ma_phuongxa@,
        so_phieu@,
        token@,
    ).form);
    r
}

/// Builds the request that lists the dependents of a household.
pub fn list_request(ma_phieu: &str, token: &str) -> (r: Request)
    ensures
        r@ == list_request_of(ma_phieu@, token@),
{
    let mut url = LIST_URL.to_owned();
    url.append(ma_phieu);
    let mut form: Vec<(String, String)> = Vec::new();
    form.push(field("_search", "false"));
    form.push(field("rows", "10"));
    form.push(field("page", "1"));
    form.push(field("sord", "asc"));
    form.push(field("sidx", "ngay_sinh"));
    form.push(field(TOKEN_FIELD, token));
    let r = Request { url, form };
    assert(r@.form =~= list_request_of(ma_phieu@, token@).form);
    r
}

/// Builds the request that deletes a batch of dependents.
pub fn delete_request(ids: &Vec<String>, token: &str) -> (r: Request)
    ensures
        r@ == delete_request_of(views(ids@), token@),
{
    let mut form: Vec<(String, String)> = Vec::new();
    let mut i: usize = 0;
    while i < ids.len()
        invariant
            i <= ids.len(),
            form.len() == i,
            forall|j: int|
                0 <= j < i ==> (#[trigger] form@[j]).0@ == "id[]"@ && form@[j].1@ == ids@[j]@,
        decreases ids.len() - i,
    {
        form.push(field("id[]", ids[i].as_str()));
        i = i + 1;
    }
    form.push(field(TOKEN_FIELD, token));
    let r = Request { url: DELETE_URL.to_owned(), form };
    assert(r@.form =~= delete_request_of(views(ids@), token@).form);
    r
}

/// Frames the token as the third part of a resident.
pub fn frame_token(token: &str) -> (r: String)
    ensures
        r@ == token_part(token@),
{
    let mut part = "{\"pcgd-csrf-token\" : \"".to_owned();
    part.append(token);
    part.append("\"}");
    part
}

/// Frames an encoded text as the member "2024" of a JSON object.
pub fn frame_education(encoded: &str) -> (r: String)
    ensures
        r@ == education_frame(encoded@),
{
    let mut part = "{\"2024\": \"".to_owned();
    part.append(encoded);
    part.append("\"}");
    part
}

/// Builds the request that submits a resident.
pub fn resident_request(
    resident_json: &str,
    general_json: &str,
    education_json: &str,
    token: &str,
) -> (r: Request)
    ensures
        r@ == resident_request_of(resident_json@, general_json@, education_json@, token@),
{
    let token_json = frame_token(token);
    let encoded = encode_field(education_json);
    let education = frame_education(encoded.as_str());
    let mut form: Vec<(String, String)> = Vec::new();
    form.push(field("data1", resident_json));
    form.push(field("data2", general_json));
    form.push(field("data3", token_json.as_str()));
    form.push(field("data_dtht", education.as_str()));
    form.push(field(TOKEN_FIELD, token));
    let r = Request { url: RESIDENT_URL.to_owned(), form };
    assert(r@.form =~= resident_request_of(
        resident_json@,
        general_json@,
        education_json@,
        token@,
    ).form);
    r
}

} // verus!
