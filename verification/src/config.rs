//! The constants of a session.

use vstd::prelude::*;

verus! {

/// The fixed settings of the program. It has no fields: every setting is a constant.
pub struct Config;

impl Config {
    /// Prefix of the reverse-image-search address; the hosted file's address follows it.
    pub const IMAGE_SEARCH_ENGINE_URL: &'static str = "https://lens.google.com/uploadbyurl?url=";

    /// Address that the cropped image is posted to.
    pub const UPLOAD_ENDPOINT: &'static str = "https://uguu.se/upload";

    /// Name of the directory, below the system's temporary directory, that holds the files
    /// of a session.
    pub const TEMP_DIR_NAME: &'static str = "circle-to-search";

    /// File name of the full capture inside the session's directory.
    pub const CAPTURE_FILE_NAME: &'static str = "capture.png";

    /// File name of the crop inside the session's directory, and the name it is posted under.
    pub const CROP_FILE_NAME: &'static str = "crop.png";

    /// Name of the form field that carries the crop.
    pub const UPLOAD_FIELD_NAME: &'static str = "files[]";

    /// Media type that the crop is posted with.
    pub const CROP_MIME_TYPE: &'static str = "image/png";

    /// The user agent that the upload presents.
    pub const USER_AGENT: &'static str = "Mozilla/5.0 (X11; Linux x86_64) AppleWebKit/537.36 (KHTML, like Gecko) Chrome/120.0.0.0 Safari/537.36";

    /// Name of the environment variable that tells the session's type.
    pub const SESSION_TYPE_VARIABLE: &'static str = "XDG_SESSION_TYPE";

    /// Red, green and blue of the border around the selection.
    pub const SELECTION_COLOR: (u8, u8, u8) = (66, 133, 244);

    /// Opacity, out of 255, of the black layer that dims the capture.
    pub const DIM_ALPHA: u8 = 100;

    /// Value of the session-type variable that selects the compositor's capture path.
    pub const WAYLAND_SESSION: &'static str = "wayland";
}

/// The address that opens the search for a hosted file: the prefix, then the file's address
/// as it came, with nothing encoded.
pub open spec fn search_address(file_url: Seq<char>) -> Seq<char> {
    Config::IMAGE_SEARCH_ENGINE_URL@ + file_url
}

impl Config {
    /// Builds the search address for a hosted file.
    pub fn search_url(file_url: &str) -> (url: String)
        ensures
            url@ == search_address(file_url@),
    {
        let mut url = String::from_str(Config::IMAGE_SEARCH_ENGINE_URL);
        url.append(file_url);
        url
    }
}

} // verus!
