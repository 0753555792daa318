//! The content validator: inspects a declared or observed media type,
//! rejects everything whose top-level type is not `image`, and selects the
//! storage extension for accepted payloads.

use vstd::prelude::*;
use vstd::string::*;
use crate::text::str_eq;

verus! {

/// A validation failure: the media type named something other than an image,
/// or no media type was available at all. Both are client-attributable and
/// short-circuit a unit before any bytes are persisted.
#[derive(Clone, Copy, Debug, PartialEq, Eq, Structural)]
pub enum ValidationError {
    InvalidMediaType,
    MissingMediaType,
}

/// What `mime::Mime::from_str` makes of a media type text: `None` when the
/// text is not a well-formed media type, otherwise its top-level type and
/// subtype (the parser lowercases them). A function of the characters alone.
pub uninterp spec fn mime_parse_of(s: Seq<char>) -> Option<(Seq<char>, Seq<char>)>;

/// Relies on `mime::Mime::from_str`, with `Mime::type_`, `Mime::subtype` and
/// `Name::as_str` reading the two parts out of the parsed value.
#[verifier::external_body]
pub(crate) fn parse_media_type(raw: &str) -> (r: Option<(String, String)>)
    ensures
        r is Some == mime_parse_of(raw@) is Some,
        r matches Some(p) ==> mime_parse_of(raw@) == Some((p.0@, p.1@)),
{
    match raw.parse::<mime::Mime>() {
        Ok(m) => Some((m.type_().as_str().to_owned(), m.subtype().as_str().to_owned())),
        Err(_) => None,
    }
}

/// The storage extension chosen for an accepted image subtype: recognized
/// raster subtypes keep their own extension; everything else (JPEG included)
/// is stored as `jpg`, since previews are re-encoded as JPEG anyway.
pub open spec fn ext_for_subtype(sub: Seq<char>) -> Seq<char> {
    if sub == "png"@ {
        "png"@
    } else if sub == "bmp"@ {
        "bmp"@
    } else if sub == "gif"@ {
        "gif"@
    } else {
        "jpg"@
    }
}

/// Every chosen storage extension is one of the four fixed names, and none
/// of them holds a `'.'`.
pub proof fn lemma_ext_plain(sub: Seq<char>)
    ensures
        forall|k: int| 0 <= k < ext_for_subtype(sub).len() ==> ext_for_subtype(sub)[k] != '.',
        ext_for_subtype(sub).len() == 3,
{
    reveal_strlit("png");
    reveal_strlit("bmp");
    reveal_strlit("gif");
    reveal_strlit("jpg");
}

/// Maps an already-parsed media type to a storage extension, or rejects it
/// when its top-level type is not `image`.
pub fn validate_media_type(top: &str, sub: &str) -> (r: Result<String, ValidationError>)
    ensures
        top@ == "image"@ ==> (r matches Ok(e) && e@ == ext_for_subtype(sub@)),
        top@ != "image"@ ==> r == Err::<String, ValidationError>(ValidationError::InvalidMediaType),
{
    if !str_eq(top, "image") {
        return Err(ValidationError::InvalidMediaType);
    }
    if str_eq(sub, "png") {
        Ok(String::from_str("png"))
    } else if str_eq(sub, "bmp") {
        Ok(String::from_str("bmp"))
    } else if str_eq(sub, "gif") {
        Ok(String::from_str("gif"))
    } else {
        Ok(String::from_str("jpg"))
    }
}

/// The view of an optional header text.
pub open spec fn opt_view(o: Option<&str>) -> Option<Seq<char>> {
    match o {
        Some(h) => Some(h@),
        None => None,
    }
}

/// What validating a response's content type yields: no header at all is
/// `MissingMediaType`; a header that does not parse as a media type, or
/// parses to a non-image, is `InvalidMediaType`; an image subtype maps to
/// its storage extension.
pub open spec fn response_ext_spec(h: Option<Seq<char>>) -> Result<Seq<char>, ValidationError> {
    match h {
        None => Err(ValidationError::MissingMediaType),
        Some(raw) => match mime_parse_of(raw) {
            None => Err(ValidationError::InvalidMediaType),
            Some(p) => if p.0 == "image"@ {
                Ok(ext_for_subtype(p.1))
            } else {
                Err(ValidationError::InvalidMediaType)
            },
        },
    }
}

/// A storage extension chosen by the response validator never holds a dot.
pub proof fn lemma_ext_plain_of_response(h: Option<Seq<char>>, e: Seq<char>)
    requires
        response_ext_spec(h) == Ok::<Seq<char>, ValidationError>(e),
    ensures
        forall|k: int| 0 <= k < e.len() ==> e[k] != '.',
{
    match h {
        Some(raw) => match mime_parse_of(raw) {
            Some(p) => lemma_ext_plain(p.1),
            None => (),
        },
        None => (),
    }
}

/// Validates the `content-type` of a fetched response and selects the
/// storage extension, before any body bytes are read or written.
pub fn get_image_ext_from_response(content_type: Option<&str>) -> (r: Result<
    String,
    ValidationError,
>)
    ensures
        r matches Ok(e) ==> response_ext_spec(opt_view(content_type)) == Ok::<
            Seq<char>,
            ValidationError,
        >(e@),
        r matches Err(er) ==> response_ext_spec(opt_view(content_type)) == Err::<
            Seq<char>,
            ValidationError,
        >(er),
{
    match content_type {
        None => Err(ValidationError::MissingMediaType),
        Some(raw) => match parse_media_type(raw) {
            None => Err(ValidationError::InvalidMediaType),
            Some(p) => validate_media_type(p.0.as_str(), p.1.as_str()),
        },
    }
}

} // verus!
