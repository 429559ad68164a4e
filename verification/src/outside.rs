use vstd::prelude::*;

verus! {

/// The file type that magic-number sniffing recognizes in `bytes`, as a pair
/// of the MIME type and the file extension, or `None` where no signature
/// matches. A function of the byte content alone.
pub uninterp spec fn sniffed(bytes: Seq<u8>) -> Option<(Seq<char>, Seq<char>)>;

/// Relies on `infer::get` and `infer::Type::{mime_type, extension}`: the
/// recognized type is a function of the byte content alone, found by matching
/// `bytes` against infer's built-in table of file signatures.
#[verifier::external_body]
pub(crate) fn sniff_type(bytes: &[u8]) -> (r: Option<(String, String)>)
    ensures
        (match r {
            Some(t) => sniffed(bytes@) == Some((t.0@, t.1@)),
            None => sniffed(bytes@) is None,
        }),
{
    match infer::get(bytes) {
        Some(t) => Some((t.mime_type().to_string(), t.extension().to_string())),
        None => None,
    }
}

/// Whether `text` is a well-formed JSON document. A function of the text
/// alone.
pub uninterp spec fn json_well_formed(text: Seq<char>) -> bool;

/// The string held by the field `id` of the JSON document `text`, or `None`
/// where the document has no such field or it holds no string. Meaningful
/// only where `json_well_formed(text)`; a function of the text alone.
pub uninterp spec fn json_id_of(text: Seq<char>) -> Option<Seq<char>>;

/// Relies on `serde_json::from_str` and `serde_json::Value::{get, as_str}`:
/// whether `text` parses, and what its `"id"` string field holds, are
/// functions of the text alone. `Err` carries the parser's description of
/// why `text` is not JSON.
#[verifier::external_body]
pub(crate) fn json_id_field(text: &str) -> (r: Result<Option<String>, String>)
    ensures
        r is Ok <==> json_well_formed(text@),
        (match r {
            Ok(Some(id)) => json_id_of(text@) == Some(id@),
            Ok(None) => json_id_of(text@) is None,
            Err(_) => true,
        }),
{
    match serde_json::from_str::<serde_json::Value>(text) {
        Ok(v) => match v.get("id") {
            Some(f) => match f.as_str() {
                Some(s) => Ok(Some(s.to_string())),
                None => Ok(None),
            },
            None => Ok(None),
        },
        Err(e) => Err(e.to_string()),
    }
}

/// The serialization of the URL `base` with its path component replaced by
/// `path`, or `None` where `base` is no valid URL. A function of the two
/// strings alone.
pub uninterp spec fn url_with_path(base: Seq<char>, path: Seq<char>) -> Option<Seq<char>>;

/// Relies on `url::Url::{parse, set_path, as_str}`: parsing is deterministic,
/// `set_path` replaces exactly the path component (keeping scheme, host,
/// query and fragment), and the serialization is a function of `base` and
/// `path` alone. `Err` carries the parser's description of why `base` is no
/// URL.
#[verifier::external_body]
pub(crate) fn resolve_with_path(base: &str, path: &str) -> (r: Result<String, String>)
    ensures
        r is Ok <==> url_with_path(base@, path@) is Some,
        (match r {
            Ok(u) => url_with_path(base@, path@) == Some(u@),
            Err(_) => true,
        }),
{
    match url::Url::parse(base) {
        Ok(mut u) => {
            u.set_path(path);
            Ok(u.as_str().to_string())
        },
        Err(e) => Err(e.to_string()),
    }
}

} // verus!
