//! Decoding percent escapes in a URL, with an optional separator put in
//! place of the decoded spaces.

use vstd::prelude::*;
use crate::text::chars_of;
use crate::text::replace_all;
use crate::text::replace_chars;
use crate::text::string_from_chars;

verus! {

#[verifier::external_type_specification]
#[verifier::external_body]
pub struct ExFromUtf8Error(std::string::FromUtf8Error);

/// What percent-decoding a text yields: the decoded characters, or nothing
/// when the decoded bytes are not well-formed text. The result depends on
/// the input alone.
pub uninterp spec fn percent_decoded(s: Seq<char>) -> Option<Seq<char>>;

/// Relies on urlencoding's `decode`: percent escapes are decoded and the
/// rest of the text is kept; a decode that is not well-formed text is the
/// error. The body only converts the borrowed result into an owned one.
#[verifier::external_body]
fn decode_url(url: &str) -> (r: Result<String, std::string::FromUtf8Error>)
    ensures
        match r {
            Ok(out) => percent_decoded(url@) == Some(out@),
            Err(_) => percent_decoded(url@) is None,
        },
{
    match urlencoding::decode(url) {
        Ok(decoded) => Ok(decoded.into_owned()),
        Err(e) => Err(e),
    }
}

/// Decodes the percent escapes of a URL; when a separator is given, it
/// replaces every space of the decoded text.
pub fn url_fix(url: &str, separator: Option<&str>) -> (r: Result<
    String,
    std::string::FromUtf8Error,
>)
    ensures
        ({
            match percent_decoded(url@) {
                Some(d) => r matches Ok(out) && out@ == match separator {
                    Some(sep) => replace_all(d, " "@, sep@),
                    None => d,
                },
                None => r is Err,
            }
        }),
{
    let decoded = match decode_url(url) {
        Ok(d) => d,
        Err(e) => {
            return Err(e);
        },
    };
    match separator {
        Some(sep) => {
            proof {
                reveal_strlit(" ");
            }
            let v = chars_of(decoded.as_str());
            let p = chars_of(" ");
            let q = chars_of(sep);
            let out = replace_chars(&v, &p, &q);
            Ok(string_from_chars(&out))
        },
        None => Ok(decoded),
    }
}

} // verus!
