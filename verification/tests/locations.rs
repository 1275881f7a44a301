use pcgd_sync::http_client::header_preset;
use pcgd_sync::location::{find_delimiter, LocationCodes};
use pcgd_sync::request::{
    delete_request, frame_education, frame_token, list_request, owner_request,
    resident_request, search_request,
};

fn pair(name: &str, value: &str) -> (String, String) {
    (name.to_string(), value.to_string())
}

#[test]
fn prefix_gives_four_qualified_codes() {
    let codes = LocationCodes::parse("79_760_26734_3_").unwrap();
    assert_eq!(codes.ma_tinh, "79");
    assert_eq!(codes.ma_quanhuyen, "79_760");
    assert_eq!(codes.ma_phuongxa, "79_760_26734");
    assert_eq!(codes.ma_thonxom, "79_760_26734_3");
}

#[test]
fn prefix_without_trailing_delimiter() {
    let codes = LocationCodes::parse("a_b_c_d").unwrap();
    assert_eq!(codes.ma_tinh, "a");
    assert_eq!(codes.ma_quanhuyen, "a_b");
    assert_eq!(codes.ma_phuongxa, "a_b_c");
    assert_eq!(codes.ma_thonxom, "a_b_c_d");
}

#[test]
fn prefix_with_empty_segments() {
    let codes = LocationCodes::parse("___").unwrap();
    assert_eq!(codes.ma_tinh, "");
    assert_eq!(codes.ma_quanhuyen, "_");
    assert_eq!(codes.ma_phuongxa, "__");
    assert_eq!(codes.ma_thonxom, "___");
    let more = LocationCodes::parse("a_b_c_d_e_f").unwrap();
    assert_eq!(more.ma_thonxom, "a_b_c_d");
}

#[test]
fn prefix_with_too_few_segments() {
    assert_eq!(LocationCodes::parse(""), None);
    assert_eq!(LocationCodes::parse("79"), None);
    assert_eq!(LocationCodes::parse("79_760"), None);
    assert_eq!(LocationCodes::parse("79_760_26734"), None);
}

#[test]
fn delimiter_is_found_from_a_position() {
    let chars: Vec<char> = "ab_cd_".chars().collect();
    assert_eq!(find_delimiter(&chars, 0), 2);
    assert_eq!(find_delimiter(&chars, 2), 2);
    assert_eq!(find_delimiter(&chars, 3), 5);
    assert_eq!(find_delimiter(&chars, 6), 6);
    let none: Vec<char> = "abc".chars().collect();
    assert_eq!(find_delimiter(&none, 0), 3);
}

#[test]
fn owner_request_carries_json_and_token() {
    let request = owner_request("{\"a\":\"b\"}", "tok");
    assert_eq!(request.url, "https://pcgd.moet.gov.vn/doing/phieudieutra/update");
    assert_eq!(request.form, vec![pair("data", "{\"a\":\"b\"}"), pair("pcgd-csrf-token", "tok")]);
}

#[test]
fn search_request_names_the_ward_and_ticket() {
    let codes = LocationCodes::parse("79_760_26734_3_").unwrap();
    let request = search_request(&codes, "T1", "tok");
    assert_eq!(request.url, "https://pcgd.moet.gov.vn/doing/phieudieutra/lay_phieu");
    assert_eq!(
        request.form,
        vec![
            pair("tinh", "79"),
            pair("quanhuyen", "79_760"),
            pair("phuongxa", "79_760_26734"),
            pair("tukhoa", "T1"),
            pair("_search", "false"),
            pair("rows", "5"),
            pair("page", "1"),
            pair("sidx", "so_phieu"),
            pair("pcgd-csrf-token", "tok"),
        ]
    );
}

#[test]
fn list_request_names_the_record() {
    let request = list_request("HH123", "tok");
    assert_eq!(request.url, "https://pcgd.moet.gov.vn/doing/doituong/lay_doituong?phieu=HH123");
    assert_eq!(
        request.form,
        vec![
            pair("_search", "false"),
            pair("rows", "10"),
            pair("page", "1"),
            pair("sord", "asc"),
            pair("sidx", "ngay_sinh"),
            pair("pcgd-csrf-token", "tok"),
        ]
    );
}

#[test]
fn delete_request_lists_every_id() {
    let ids = vec!["d1".to_string(), "d2".to_string()];
    let request = delete_request(&ids, "tok");
    assert_eq!(request.url, "https://pcgd.moet.gov.vn/doing/doituong/delete");
    assert_eq!(
        request.form,
        vec![pair("id[]", "d1"), pair("id[]", "d2"), pair("pcgd-csrf-token", "tok")]
    );
    let none = delete_request(&Vec::new(), "tok");
    assert_eq!(none.form, vec![pair("pcgd-csrf-token", "tok")]);
}

#[test]
fn resident_request_frames_its_parts() {
    let request = resident_request("{\"r\":1}", "{\"g\":2}", "{\"a\":\"b\"}", "tok");
    assert_eq!(request.url, "https://pcgd.moet.gov.vn/doing/doituong/add");
    assert_eq!(
        request.form,
        vec![
            pair("data1", "{\"r\":1}"),
            pair("data2", "{\"g\":2}"),
            pair("data3", "{\"pcgd-csrf-token\" : \"tok\"}"),
            pair("data_dtht", "{\"2024\": \"eyJhIjoiYiJ9\"}"),
            pair("pcgd-csrf-token", "tok"),
        ]
    );
}

#[test]
fn frames_are_json_objects_of_one_member() {
    assert_eq!(frame_token("tok"), "{\"pcgd-csrf-token\" : \"tok\"}");
    assert_eq!(frame_token(""), "{\"pcgd-csrf-token\" : \"\"}");
    assert_eq!(frame_education("eyJhIjoiYiJ9"), "{\"2024\": \"eyJhIjoiYiJ9\"}");
}

#[test]
fn header_preset_carries_the_cookies() {
    let headers = header_preset("sid=1; theme=dark");
    assert_eq!(headers.len(), 12);
    assert_eq!(headers[0], pair("Accept", "application/json, text/javascript, */*"));
    assert_eq!(headers[1], pair("Connection", "keep-alive"));
    assert_eq!(headers[3], pair("Cookie", "sid=1; theme=dark"));
    assert_eq!(headers[4], pair("Origin", "https://pcgd.moet.gov.vn"));
    assert_eq!(headers[7], pair("Sec-Fetch-Site", "same-origin"));
    assert_eq!(headers[10], pair("sec-ch-ua-mobile", "?0"));
    assert_eq!(headers[11], pair("sec-ch-ua-platform", "\"Windows\""));
}
