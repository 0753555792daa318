//! Validator, path, id and guard behaviour on concrete values.

use api_service::guards::{check_content_length, is_multipart, MAX_CONTENT_LENGTH};
use api_service::ids::make_id;
use api_service::media::{get_image_ext_from_response, validate_media_type, ValidationError};
use api_service::paths::get_file_ext_from_path;
use api_service::text::{contains_str, parse_usize, str_eq, u64_to_string};

#[test]
fn test_get_image_ext_from_response() {
    let ext = get_image_ext_from_response(Some("image/bmp")).unwrap();
    assert_eq!(ext, "bmp");
}

#[test]
fn test_get_file_ext_from_path() {
    assert_eq!(get_file_ext_from_path("example.com/filename.jpg"), "jpg");
}

#[test]
fn file_ext_without_dot_is_whole_name() {
    assert_eq!(get_file_ext_from_path("photo"), "photo");
    assert_eq!(get_file_ext_from_path("archive.tar.gz"), "gz");
    assert_eq!(get_file_ext_from_path("trailing."), "");
}

#[test]
fn response_ext_maps_every_subtype() {
    assert_eq!(get_image_ext_from_response(Some("image/png")).unwrap(), "png");
    assert_eq!(get_image_ext_from_response(Some("image/gif")).unwrap(), "gif");
    assert_eq!(get_image_ext_from_response(Some("image/jpeg")).unwrap(), "jpg");
    assert_eq!(get_image_ext_from_response(Some("image/webp")).unwrap(), "jpg");
}

#[test]
fn text_plain_is_rejected() {
    assert_eq!(
        get_image_ext_from_response(Some("text/plain")),
        Err(ValidationError::InvalidMediaType)
    );
}

#[test]
fn missing_content_type_is_rejected() {
    assert_eq!(
        get_image_ext_from_response(None),
        Err(ValidationError::MissingMediaType)
    );
}

#[test]
fn unparseable_content_type_is_rejected() {
    assert_eq!(
        get_image_ext_from_response(Some("not a media type")),
        Err(ValidationError::InvalidMediaType)
    );
}

#[test]
fn validator_checks_top_level_type() {
    assert_eq!(validate_media_type("image", "png").unwrap(), "png");
    assert_eq!(validate_media_type("image", "svg").unwrap(), "jpg");
    assert_eq!(
        validate_media_type("text", "plain"),
        Err(ValidationError::InvalidMediaType)
    );
}

#[test]
fn ids_are_decimal_pairs() {
    assert_eq!(make_id(7, 42), "7_42");
    assert_eq!(make_id(0, 0), "0_0");
    assert_eq!(make_id(u32::MAX, 1_700_000_000_000), "4294967295_1700000000000");
    assert_eq!(u64_to_string(0), "0");
    assert_eq!(u64_to_string(90710), "90710");
}

#[test]
fn content_length_guard() {
    let max = MAX_CONTENT_LENGTH * 1024 * 1024;
    assert!(check_content_length(true, None, max));
    assert!(check_content_length(false, Some("123"), max));
    assert!(check_content_length(false, Some("+123"), max));
    assert!(!check_content_length(false, Some("10485760"), max));
    assert!(check_content_length(false, Some("10485759"), max));
    assert!(!check_content_length(false, Some("abc"), max));
    assert!(!check_content_length(false, None, max));
}

#[test]
fn parse_usize_accepts_plain_decimals() {
    assert_eq!(parse_usize("0"), Some(0));
    assert_eq!(parse_usize("+7"), Some(7));
    assert_eq!(parse_usize(""), None);
    assert_eq!(parse_usize("+"), None);
    assert_eq!(parse_usize("12a"), None);
    assert_eq!(parse_usize("99999999999999999999999999"), None);
}

#[test]
fn multipart_guard_looks_for_form_data() {
    assert!(is_multipart(Some(
        "multipart/form-data; boundary=----x"
    )));
    assert!(!is_multipart(Some("application/json")));
    assert!(!is_multipart(None));
}

#[test]
fn text_helpers_behave() {
    assert!(str_eq("abc", "abc"));
    assert!(!str_eq("abc", "abd"));
    assert!(contains_str("hello world", "lo wo"));
    assert!(!contains_str("hello", "world"));
}
