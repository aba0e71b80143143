//! The theme: a flat map from literal search strings to replacement
//! strings, loaded from a JSON object of string keys and string values.
//! Keys and values are kept as their UTF-8 bytes, in the order the
//! parser's map hands them out — that order is arbitrary, and the
//! substitution engine applies the pairs in it.

use vstd::prelude::*;
use crate::errors::ToolError;
use crate::subst;
use crate::subst::pairs_view;

verus! {

/// Declares `serde_json::Error`, the opaque error the JSON parser
/// returns, so the trusted parse wrapper can hand it through.
#[verifier::external_type_specification]
#[verifier::external_body]
pub struct ExSerdeJsonError(serde_json::Error);

/// The string-to-string map that serde_json reads out of `bytes`, keys
/// and values as their UTF-8 bytes, or nothing when `bytes` is not a
/// JSON object of string keys and string values. The map is a function
/// of the bytes alone; only the order a `HashMap` hands the pairs out in
/// varies from run to run.
pub uninterp spec fn parsed_theme(bytes: Seq<u8>) -> Option<Map<Seq<u8>, Seq<u8>>>;

/// No two pairs share a key.
pub open spec fn distinct_keys(pairs: Seq<(Seq<u8>, Seq<u8>)>) -> bool {
    forall|i: int, j: int| 0 <= i < j < pairs.len() ==> (#[trigger] pairs[i]).0 != (
    #[trigger] pairs[j]).0
}

/// The map a sequence of key/value pairs denotes.
pub open spec fn map_of_pairs(pairs: Seq<(Seq<u8>, Seq<u8>)>) -> Map<Seq<u8>, Seq<u8>>
    decreases pairs.len(),
{
    if pairs.len() == 0 {
        Map::empty()
    } else {
        map_of_pairs(pairs.drop_last()).insert(pairs.last().0, pairs.last().1)
    }
}

/// Relies on `serde_json::from_slice::<HashMap<String, String>>`:
/// parsing succeeds exactly when the bytes are a JSON document whose
/// structure matches a map of strings to strings, and the map read out
/// is a function of the bytes alone. The order of the returned pairs is
/// whatever order the `HashMap` is walked in, so nothing is said of it.
#[verifier::external_body]
fn parse_theme_pairs(bytes: &Vec<u8>) -> (r: Result<Vec<(Vec<u8>, Vec<u8>)>, serde_json::Error>)
    ensures
        r is Ok <==> parsed_theme(bytes@) is Some,
        r matches Ok(pairs) ==> distinct_keys(pairs_view(pairs@)) && map_of_pairs(
            pairs_view(pairs@),
        ) == parsed_theme(bytes@).unwrap(),
{
    match serde_json::from_slice::<std::collections::HashMap<String, String>>(bytes.as_slice()) {
        Ok(m) => Ok(m.into_iter().map(|(k, v)| (k.into_bytes(), v.into_bytes())).collect()),
        Err(e) => Err(e),
    }
}

/// Relies on the `Display` impl of `serde_json::Error`: renders the
/// parser's diagnostic so the binary can report it.
#[verifier::external_body]
fn json_error_message(e: &serde_json::Error) -> String {
    e.to_string()
}

/// The active theme: key/value pairs in the order the parser's map
/// handed them out, each key's replacement pass run in that order.
#[derive(Debug)]
pub struct Theme {
    /// The search string and its replacement, both as UTF-8 bytes.
    pub pairs: Vec<(Vec<u8>, Vec<u8>)>,
}

impl View for Theme {
    type V = Seq<(Seq<u8>, Seq<u8>)>;

    open spec fn view(&self) -> Seq<(Seq<u8>, Seq<u8>)> {
        pairs_view(self.pairs@)
    }
}

impl Theme {
    /// Builds a theme directly from pairs, fixing the application order.
    pub fn from_pairs(pairs: Vec<(Vec<u8>, Vec<u8>)>) -> (t: Theme)
        ensures
            t@ == pairs_view(pairs@),
    {
        Theme { pairs }
    }

    /// Parses a theme document. Succeeds exactly when the bytes are a
    /// flat JSON object of string keys and string values; any other
    /// document is a fatal parse error.
    pub fn from_bytes(bytes: &Vec<u8>) -> (r: Result<Theme, ToolError>)
        ensures
            r is Ok <==> parsed_theme(bytes@) is Some,
            r matches Ok(t) ==> distinct_keys(t@) && map_of_pairs(t@) == parsed_theme(
                bytes@,
            ).unwrap(),
            r matches Err(e) ==> e matches ToolError::ThemeParse(_),
    {
        match parse_theme_pairs(bytes) {
            Result::Ok(pairs) => Result::Ok(Theme { pairs }),
            Result::Err(e) => Result::Err(ToolError::ThemeParse(json_error_message(&e))),
        }
    }

    /// Applies every pair of the theme to the text, in the theme's
    /// order.
    pub fn apply(&self, text: &Vec<u8>) -> (out: Vec<u8>)
        ensures
            out@ == subst::applied(text@, self@),
    {
        subst::apply_pairs(text, &self.pairs)
    }
}

} // verus!
