//! The headers that every request to the remote service carries.
//!
//! The service answers only to what looks like its own web page in a
//! browser, so the requests carry that page's headers and the cookies of
//! the operator's session.  The client itself belongs to the program
//! around the library; the library says what the headers are.

use crate::request::{field, field_views};
use vstd::prelude::*;

verus! {

/// The headers of a session with the cookies given, in the order in which
/// they are set.
pub open spec fn header_preset_of(cookies: Seq<char>) -> Seq<(Seq<char>, Seq<char>)> {
    seq![
        ("Accept"@, "application/json, text/javascript, */*"@),
        ("Connection"@, "keep-alive"@),
        ("Accept-Language"@, "vi-VN,vi;q=0.9,fr-FR;q=0.8,fr;q=0.7,en-US;q=0.6,en;q=0.5"@),
        ("Cookie"@, cookies),
        ("Origin"@, "https://pcgd.moet.gov.vn"@),
        ("Sec-Fetch-Dest"@, "empty"@),
        ("Sec-Fetch-Mode"@, "cors"@),
        ("Sec-Fetch-Site"@, "same-origin"@),
        (
            "User-Agent"@,
            "Mozilla/5.0 (Windows NT 10.0; Win64; x64) AppleWebKit/537.36 (KHTML, like Gecko) Chrome/130.0.0.0 Safari/537.36"@,
        ),
        (
            "sec-ch-ua"@,
            "\"Chromium\";v=\"130\", \"Google Chrome\";v=\"130\", \"Not?A_Brand\";v=\"99\""@,
        ),
        ("sec-ch-ua-mobile"@, "?0"@),
        ("sec-ch-ua-platform"@, "\"Windows\""@),
    ]
}

/// Lists the headers of a session with the cookies given.
pub fn header_preset(cookies: &str) -> (headers: Vec<(String, String)>)
    ensures
        field_views(headers@) == header_preset_of(cookies@),
{
    let mut headers: Vec<(String, String)> = Vec::new();
    headers.push(field("Accept", "application/json, text/javascript, */*"));
    headers.push(field("Connection", "keep-alive"));
    headers.push(
        field("Accept-Language", "vi-VN,vi;q=0.9,fr-FR;q=0.8,fr;q=0.7,en-US;q=0.6,en;q=0.5"),
    );
    headers.push(field("Cookie", cookies));
    headers.push(field("Origin", "https://pcgd.moet.gov.vn"));
    headers.push(field("Sec-Fetch-Dest", "empty"));
    headers.push(field("Sec-Fetch-Mode", "cors"));
    headers.push(field("Sec-Fetch-Site", "same-origin"));
    headers.push(
        field(
            "User-Agent",
            "Mozilla/5.0 (Windows NT 10.0; Win64; x64) AppleWebKit/537.36 (KHTML, like Gecko) Chrome/130.0.0.0 Safari/537.36",
        ),
    );
    headers.push(
        field(
            "sec-ch-ua",
            "\"Chromium\";v=\"130\", \"Google Chrome\";v=\"130\", \"Not?A_Brand\";v=\"99\"",
        ),
    );
    headers.push(field("sec-ch-ua-mobile", "?0"));
    headers.push(field("sec-ch-ua-platform", "\"Windows\""));
    headers
}

} // verus!
