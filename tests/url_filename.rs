use image_upload::url::get_filename_from_url;

#[test]
fn url_plain_filename() {
    assert_eq!(get_filename_from_url("http://x.com/a/b/photo.png".to_string()), "photo.png");
}

#[test]
fn url_query_is_stripped() {
    assert_eq!(get_filename_from_url("http://x.com/a/b/photo.png?size=1".to_string()), "photo.png");
}

#[test]
fn url_trailing_slash_gives_empty_name() {
    assert_eq!(get_filename_from_url("http://x.com/a/b/".to_string()), "");
}

#[test]
fn url_only_first_question_mark_cuts() {
    assert_eq!(get_filename_from_url("http://x.com/p.jpg?a=1?b=2".to_string()), "p.jpg");
}

#[test]
fn url_without_slash_is_whole_name() {
    assert_eq!(get_filename_from_url("photo.png".to_string()), "photo.png");
    assert_eq!(get_filename_from_url("".to_string()), "");
}

#[test]
fn url_query_only_segment() {
    assert_eq!(get_filename_from_url("http://x.com/?q=1".to_string()), "");
}

#[test]
fn url_non_ascii_name() {
    assert_eq!(get_filename_from_url("http://x.com/ü/bild-é.png?x".to_string()), "bild-é.png");
}
