use circle_to_search::config::Config;

#[test]
fn addresses() {
    assert_eq!(Config::IMAGE_SEARCH_ENGINE_URL, "https://lens.google.com/uploadbyurl?url=");
    assert_eq!(Config::UPLOAD_ENDPOINT, "https://uguu.se/upload");
}

#[test]
fn upload_form() {
    assert_eq!(Config::UPLOAD_FIELD_NAME, "files[]");
    assert_eq!(Config::CROP_FILE_NAME, "crop.png");
    assert_eq!(Config::CROP_MIME_TYPE, "image/png");
    assert!(Config::USER_AGENT.starts_with("Mozilla/5.0 "));
}

#[test]
fn session_files() {
    assert_eq!(Config::TEMP_DIR_NAME, "circle-to-search");
    assert_eq!(Config::CAPTURE_FILE_NAME, "capture.png");
    assert_eq!(Config::SESSION_TYPE_VARIABLE, "XDG_SESSION_TYPE");
    assert_eq!(Config::WAYLAND_SESSION, "wayland");
}

#[test]
fn overlay_colours() {
    assert_eq!(Config::SELECTION_COLOR, (66, 133, 244));
    assert_eq!(Config::DIM_ALPHA, 100);
}

#[test]
fn search_url_is_prefix_then_file() {
    assert_eq!(Config::search_url("abc123"), "https://lens.google.com/uploadbyurl?url=abc123");
}
