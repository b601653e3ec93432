//! The search for a selected region: crop, upload, read the host's reply, open the search
//! address in a browser. Each step depends on the one before.
//!
//! The pipeline opens no file and sends nothing. It names the next thing to do; the caller
//! does it and reports what came of it.

use vstd::prelude::*;
use crate::config::{search_address, Config};
use crate::geometry::PixelRegion;
use crate::imaging::{clamped_extent, crop_region, image_height, image_width, region_of};
use crate::json::{
    as_bool,
    as_items,
    as_text,
    json_bool,
    json_document,
    json_items,
    json_member,
    json_text,
    member,
    parse_document,
};
use crate::text::outcome_view;

verus! {

/// What the host said of an upload.
#[derive(Debug, PartialEq, Eq)]
pub struct UploadResult {
    /// Whether the host accepted the upload.
    pub success: bool,
    /// The address of the first hosted file, if the host listed one.
    pub url: Option<String>,
}

/// An upload result as plain values.
pub struct UploadResultModel {
    pub success: bool,
    pub url: Option<Seq<char>>,
}

impl View for UploadResult {
    type V = UploadResultModel;

    open spec fn view(&self) -> UploadResultModel {
        UploadResultModel {
            success: self.success,
            url: match self.url {
                Some(u) => Some(u@),
                None => None,
            },
        }
    }
}

/// The address that a JSON value gives for a hosted file: the text under `url` of an object.
pub open spec fn file_url_of(value: serde_json::Value) -> Option<Seq<char>> {
    match json_member(value, "url"@) {
        Some(url) => json_text(url),
        None => None,
    }
}

/// The addresses of the hosted files that a reply lists under `files`, in order. A reply
/// without that member lists none. `None` where the member is no array, or one of its items
/// gives no address.
pub open spec fn files_of(document: serde_json::Value) -> Option<Seq<Seq<char>>> {
    match json_member(document, "files"@) {
        Some(list) => match json_items(list) {
            Some(items) => if forall|i: int|
                0 <= i < items.len() ==> (#[trigger] file_url_of(items[i])) is Some {
                Some(Seq::new(items.len(), |i: int| file_url_of(items[i]).unwrap()))
            } else {
                None
            },
            None => None,
        },
        None => Some(Seq::empty()),
    }
}

/// The upload result that a JSON document describes: an object with a boolean under
/// `success` and, if it has the member `files`, an array of hosted files there.
pub open spec fn upload_of(document: serde_json::Value) -> Option<UploadResultModel> {
    match json_member(document, "success"@) {
        Some(flag) => match (json_bool(flag), files_of(document)) {
            (Some(success), Some(files)) => Some(
                UploadResultModel {
                    success,
                    url: if files.len() > 0 {
                        Some(files[0])
                    } else {
                        None
                    },
                },
            ),
            _ => None,
        },
        None => None,
    }
}

/// The address to open for an upload result: the search address of the hosted file, where
/// the upload succeeded and a file is listed.
pub open spec fn result_target(result: UploadResultModel) -> Option<Seq<char>> {
    match result.url {
        Some(url) => if result.success {
            Some(search_address(url))
        } else {
            None
        },
        None => None,
    }
}

/// The address to open for the host's reply, where the reply is JSON of the expected shape,
/// reports success and lists a file.
pub open spec fn reply_target(text: Seq<char>) -> Option<Seq<char>> {
    match json_document(text) {
        Some(document) => match upload_of(document) {
            Some(result) => result_target(result),
            None => None,
        },
        None => None,
    }
}

/// The error for a reply that gives no address: the reply itself is the detail.
pub open spec fn upload_failure(text: Seq<char>) -> Seq<char> {
    "Upload failed: "@ + text
}

/// The error for a browser that could not be opened.
pub open spec fn browser_failure(detail: Seq<char>) -> Seq<char> {
    "Failed to open browser: "@ + detail
}

/// Reads the address of one hosted file.
pub fn decode_file_url(value: &serde_json::Value) -> (url: Option<String>)
    ensures
        match url {
            Some(u) => file_url_of(*value) == Some(u@),
            None => file_url_of(*value) is None,
        },
{
    match member(value, "url") {
        Some(field) => match as_text(field) {
            Some(text) => Some(String::from_str(text)),
            None => None,
        },
        None => None,
    }
}

/// Reads the upload result from the host's reply, already parsed. `None` where the document
/// has not the expected shape.
pub fn decode_upload(document: &serde_json::Value) -> (result: Option<UploadResult>)
    ensures
        match result {
            Some(r) => upload_of(*document) == Some(r@),
            None => upload_of(*document) is None,
        },
{
    let success = match member(document, "success") {
        Some(flag) => match as_bool(flag) {
            Some(b) => b,
            None => {
                return None;
            },
        },
        None => {
            return None;
        },
    };
    let list = match member(document, "files") {
        Some(list) => list,
        None => {
            return Some(UploadResult { success, url: None });
        },
    };
    let items = match as_items(list) {
        Some(items) => items,
        None => {
            return None;
        },
    };
    let mut first: Option<String> = None;
    let mut i: usize = 0;
    while i < items.len()
        invariant
            i <= items.len(),
            json_member(*document, "success"@) matches Some(flag) && json_bool(flag) == Some(
                success,
            ),
            json_member(*document, "files"@) == Some(*list),
            json_items(*list) == Some(items@),
            forall|k: int| 0 <= k < i ==> (#[trigger] file_url_of(items[k])) is Some,
            match first {
                Some(u) => i > 0 && file_url_of(items[0]) == Some(u@),
                None => i == 0,
            },
        decreases items.len() - i,
    {
        match decode_file_url(&items[i]) {
            Some(url) => {
                if i == 0 {
                    first = Some(url);
                }
            },
            None => {
                assert(file_url_of(items@[i as int]) is None);
                return None;
            },
        }
        i = i + 1;
    }
    assert(files_of(*document) matches Some(files) && files.len() == items@.len() && (
    files.len() > 0 ==> files[0] == file_url_of(items@[0]).unwrap()));
    Some(UploadResult { success, url: first })
}

impl UploadResult {
    /// The address to open for this result, if the upload succeeded and a file is listed.
    pub fn search_url(&self) -> (url: Option<String>)
        ensures
            match url {
                Some(u) => result_target(self@) == Some(u@),
                None => result_target(self@) is None,
            },
    {
        match &self.url {
            Some(file) => if self.success {
                Some(Config::search_url(file.as_str()))
            } else {
                None
            },
            None => None,
        }
    }
}

/// Reads the host's reply and builds the address to open. A reply that is no JSON, has not
/// the expected shape, does not report success or lists no file is an error, with the reply
/// as its detail.
pub fn interpret_reply(text: &str) -> (target: Result<String, String>)
    ensures
        match target {
            Ok(url) => reply_target(text@) == Some(url@),
            Err(e) => reply_target(text@) is None && e@ == upload_failure(text@),
        },
{
    let found: Option<String> = match parse_document(text) {
        Some(document) => match decode_upload(&document) {
            Some(result) => result.search_url(),
            None => None,
        },
        None => None,
    };
    match found {
        Some(url) => Ok(url),
        None => {
            let mut message = String::from_str("Upload failed: ");
            message.append(text);
            Err(message)
        },
    }
}

/// Where the pipeline stands.
#[derive(Clone, Copy, Debug, PartialEq, Eq, Structural)]
pub enum SearchPhase {
    /// The captured image is being opened.
    AwaitSource,
    /// The crop is being saved.
    AwaitCrop,
    /// The crop is being uploaded.
    AwaitUpload,
    /// The browser is being opened.
    AwaitBrowser,
    /// The pipeline is done.
    Finished,
}

/// What the caller does next.
#[derive(Debug, PartialEq, Eq)]
pub enum SearchAction {
    /// Open the captured image and report it.
    OpenSource,
    /// Save the pipeline's crop in the session's directory, over any earlier crop.
    SaveCrop,
    /// Post the saved crop to the upload endpoint and report the reply's text.
    Upload,
    /// Open this address in a browser.
    OpenBrowser { url: String },
    /// Stop, with this result.
    Finish { result: Result<(), String> },
}

/// An action as texts.
pub enum SearchActionModel {
    OpenSource,
    SaveCrop,
    Upload,
    OpenBrowser { url: Seq<char> },
    Finish { result: Result<(), Seq<char>> },
}

impl View for SearchAction {
    type V = SearchActionModel;

    open spec fn view(&self) -> SearchActionModel {
        match *self {
            SearchAction::OpenSource => SearchActionModel::OpenSource,
            SearchAction::SaveCrop => SearchActionModel::SaveCrop,
            SearchAction::Upload => SearchActionModel::Upload,
            SearchAction::OpenBrowser { url } => SearchActionModel::OpenBrowser { url: url@ },
            SearchAction::Finish { result } => SearchActionModel::Finish {
                result: outcome_view(result),
            },
        }
    }
}

/// What the caller reports.
pub enum SearchEvent {
    /// The captured image, or why it could not be opened.
    SourceOpened { source: Result<image::DynamicImage, String> },
    /// The crop was saved, or why not.
    CropSaved { saved: Result<(), String> },
    /// The text of the host's reply, or why the upload failed.
    Uploaded { reply: Result<String, String> },
    /// The browser was opened, or why not.
    BrowserOpened { opened: Result<(), String> },
}

/// A pipeline as plain values.
pub struct SearchModel {
    pub region: PixelRegion,
    pub phase: SearchPhase,
    /// The crop, from the moment the source is open until the crop is saved.
    pub crop: Option<image::DynamicImage>,
    /// The address to open, once the host's reply has given it.
    pub url: Seq<char>,
    /// Why the search failed, once the pipeline is done; `None` for a search that
    /// succeeded.
    pub failure: Option<Seq<char>>,
}

impl SearchModel {
    /// The pipeline before anything was done.
    pub open spec fn start(region: PixelRegion) -> SearchModel {
        SearchModel {
            region,
            phase: SearchPhase::AwaitSource,
            crop: None,
            url: Seq::empty(),
            failure: None,
        }
    }

    /// The pipeline done, with this failure or none.
    pub open spec fn finished(self, failure: Option<Seq<char>>) -> SearchModel {
        SearchModel { phase: SearchPhase::Finished, crop: None, failure, ..self }
    }

    /// The pipeline after a report. Every failure that is reported ends the pipeline; a
    /// report that does not answer what the pipeline waits for changes nothing.
    pub open spec fn next(self, event: SearchEvent) -> SearchModel {
        match (self.phase, event) {
            (SearchPhase::AwaitSource, SearchEvent::SourceOpened { source }) => match source {
                Ok(image) => SearchModel {
                    phase: SearchPhase::AwaitCrop,
                    crop: Some(region_of(image, self.region)),
                    ..self
                },
                Err(e) => self.finished(Some(e@)),
            },
            (SearchPhase::AwaitCrop, SearchEvent::CropSaved { saved }) => match saved {
                Ok(_) => SearchModel { phase: SearchPhase::AwaitUpload, crop: None, ..self },
                Err(e) => self.finished(Some(e@)),
            },
            (SearchPhase::AwaitUpload, SearchEvent::Uploaded { reply }) => match reply {
                Ok(text) => match reply_target(text@) {
                    Some(url) => SearchModel { phase: SearchPhase::AwaitBrowser, url, ..self },
                    None => self.finished(Some(upload_failure(text@))),
                },
                Err(e) => self.finished(Some(e@)),
            },
            (SearchPhase::AwaitBrowser, SearchEvent::BrowserOpened { opened }) => match opened {
                Ok(_) => self.finished(None),
                Err(e) => self.finished(Some(browser_failure(e@))),
            },
            _ => self,
        }
    }

    /// What the caller is to do in this state.
    pub open spec fn pending(self) -> SearchActionModel {
        match self.phase {
            SearchPhase::AwaitSource => SearchActionModel::OpenSource,
            SearchPhase::AwaitCrop => SearchActionModel::SaveCrop,
            SearchPhase::AwaitUpload => SearchActionModel::Upload,
            SearchPhase::AwaitBrowser => SearchActionModel::OpenBrowser { url: self.url },
            SearchPhase::Finished => SearchActionModel::Finish {
                result: match self.failure {
                    Some(e) => Err(e),
                    None => Ok(()),
                },
            },
        }
    }
}

/// Decides, step by step, how a region of the captured image is searched for.
pub struct SearchPipeline {
    region: PixelRegion,
    phase: SearchPhase,
    crop: Option<image::DynamicImage>,
    url: String,
    failure: Option<String>,
}

impl View for SearchPipeline {
    type V = SearchModel;

    closed spec fn view(&self) -> SearchModel {
        SearchModel {
            region: self.region,
            phase: self.phase,
            crop: self.crop,
            url: self.url@,
            failure: match self.failure {
                Some(e) => Some(e@),
                None => None,
            },
        }
    }
}

/// A pipeline that searches for the given rectangle of the captured image, in physical
/// pixels.
pub fn search(x: u32, y: u32, width: u32, height: u32) -> (pipeline: SearchPipeline)
    ensures
        pipeline@ == SearchModel::start(PixelRegion { x, y, width, height }),
{
    SearchPipeline {
        region: PixelRegion { x, y, width, height },
        phase: SearchPhase::AwaitSource,
        crop: None,
        url: String::new(),
        failure: None,
    }
}

impl SearchPipeline {
    /// Where the pipeline stands.
    pub fn phase(&self) -> (phase: SearchPhase)
        ensures
            phase == self@.phase,
    {
        self.phase
    }

    /// The region that is searched for.
    pub fn region(&self) -> (region: PixelRegion)
        ensures
            region == self@.region,
    {
        self.region
    }

    /// The crop to save, while the pipeline waits for that.
    pub fn cropped(&self) -> (crop: Option<&image::DynamicImage>)
        ensures
            match crop {
                Some(image) => self@.crop == Some(*image),
                None => self@.crop is None,
            },
    {
        self.crop.as_ref()
    }

    /// What the caller is to do now.
    pub fn pending_action(&self) -> (action: SearchAction)
        ensures
            action@ == self@.pending(),
    {
        match self.phase {
            SearchPhase::AwaitSource => SearchAction::OpenSource,
            SearchPhase::AwaitCrop => SearchAction::SaveCrop,
            SearchPhase::AwaitUpload => SearchAction::Upload,
            SearchPhase::AwaitBrowser => SearchAction::OpenBrowser { url: self.url.clone() },
            SearchPhase::Finished => SearchAction::Finish {
                result: match &self.failure {
                    Some(e) => Err(e.clone()),
                    None => Ok(()),
                },
            },
        }
    }

    /// Takes a report and names what to do next.
    ///
    /// The opened image is cropped to the region and the crop is to be saved; the saved crop
    /// is to be uploaded; the host's reply gives the address of the hosted file, and the
    /// search address made from it is to be opened. The first failure ends the pipeline: a
    /// reported error as it came, a reply that gives no address as "Upload failed: " and the
    /// reply, a browser that could not be opened as "Failed to open browser: " and the
    /// reported error.
    pub fn step(&mut self, event: SearchEvent) -> (action: SearchAction)
        ensures
            final(self)@ == old(self)@.next(event),
            action@ == final(self)@.pending(),
            old(self)@.phase == SearchPhase::AwaitSource ==> (event matches SearchEvent::SourceOpened {
                source: Ok(image),
            } ==> final(self)@.crop matches Some(cut) && image_width(cut) == clamped_extent(
                image_width(image) as int,
                old(self)@.region.x as int,
                old(self)@.region.width as int,
            ) && image_height(cut) == clamped_extent(
                image_height(image) as int,
                old(self)@.region.y as int,
                old(self)@.region.height as int,
            )),
    {
        match self.phase {
            SearchPhase::AwaitSource => {
                if let SearchEvent::SourceOpened { source } = event {
                    match source {
                        Ok(image) => {
                            self.crop = Some(crop_region(&image, self.region));
                            self.phase = SearchPhase::AwaitCrop;
                        },
                        Err(e) => {
                            self.fail(e);
                        },
                    }
                }
            },
            SearchPhase::AwaitCrop => {
                if let SearchEvent::CropSaved { saved } = event {
                    self.crop = None;
                    match saved {
                        Ok(_) => {
                            self.phase = SearchPhase::AwaitUpload;
                        },
                        Err(e) => {
                            self.fail(e);
                        },
                    }
                }
            },
            SearchPhase::AwaitUpload => {
                if let SearchEvent::Uploaded { reply } = event {
                    match reply {
                        Ok(text) => match interpret_reply(text.as_str()) {
                            Ok(url) => {
                                self.url = url;
                                self.phase = SearchPhase::AwaitBrowser;
                            },
                            Err(e) => {
                                self.fail(e);
                            },
                        },
                        Err(e) => {
                            self.fail(e);
                        },
                    }
                }
            },
            SearchPhase::AwaitBrowser => {
                if let SearchEvent::BrowserOpened { opened } = event {
                    match opened {
                        Ok(_) => {
                            self.phase = SearchPhase::Finished;
                            self.crop = None;
                            self.failure = None;
                        },
                        Err(e) => {
                            let mut message = String::from_str("Failed to open browser: ");
                            message.append(e.as_str());
                            self.fail(message);
                        },
                    }
                }
            },
            SearchPhase::Finished => {},
        }
        self.pending_action()
    }

    /// Ends the pipeline with a failure.
    fn fail(&mut self, message: String)
        ensures
            final(self)@ == old(self)@.finished(Some(message@)),
    {
        self.phase = SearchPhase::Finished;
        self.crop = None;
        self.failure = Some(message);
    }
}

/// How far a pipeline has come.
pub open spec fn progress(phase: SearchPhase) -> int {
    match phase {
        SearchPhase::AwaitSource => 0,
        SearchPhase::AwaitCrop => 1,
        SearchPhase::AwaitUpload => 2,
        SearchPhase::AwaitBrowser => 3,
        SearchPhase::Finished => 4,
    }
}

/// A pipeline never goes back: a report either leaves it as it is or takes it further. So
/// the browser is asked for in one stretch at most, and a pipeline that is done stays done.
pub proof fn lemma_pipeline_only_advances(pipeline: SearchModel, event: SearchEvent)
    ensures
        progress(pipeline.next(event).phase) >= progress(pipeline.phase),
        pipeline.next(event) == pipeline || progress(pipeline.next(event).phase) > progress(
            pipeline.phase,
        ),
        pipeline.phase == SearchPhase::Finished ==> pipeline.next(event) == pipeline,
        pipeline.next(event).pending() is OpenBrowser ==> pipeline.phase
            == SearchPhase::AwaitUpload || pipeline.phase == SearchPhase::AwaitBrowser,
{
}

/// The host's reply decides what follows the upload. A reply that gives an address has the
/// browser opened with the search address, the prefix followed by the hosted file's address
/// as it came; once the browser is open the search has succeeded. Any other reply ends the
/// search with "Upload failed: " and the reply, and the browser is not asked for.
pub proof fn lemma_reply_decides(pipeline: SearchModel, text: String)
    requires
        pipeline.phase == SearchPhase::AwaitUpload,
    ensures
        ({
            let replied = pipeline.next(SearchEvent::Uploaded { reply: Ok(text) });
            match reply_target(text@) {
                Some(url) => {
                    &&& replied.pending() == (SearchActionModel::OpenBrowser { url })
                    &&& replied.next(SearchEvent::BrowserOpened { opened: Ok(()) }).pending() == (
                    SearchActionModel::Finish { result: Ok(()) })
                },
                None => {
                    &&& replied.pending() == (SearchActionModel::Finish {
                        result: Err(upload_failure(text@)),
                    })
                    &&& replied.phase == SearchPhase::Finished
                },
            }
        }),
{
}

/// The address that is opened for a reply is the search prefix followed by the address that
/// the reply's first file gives, with nothing changed in it.
pub proof fn lemma_target_is_prefix_then_file(text: Seq<char>, url: Seq<char>)
    requires
        reply_target(text) == Some(url),
    ensures
        ({
            &&& json_document(text) matches Some(document)
            &&& upload_of(document) matches Some(result)
            &&& result.success
            &&& result.url matches Some(file)
            &&& url == Config::IMAGE_SEARCH_ENGINE_URL@ + file
        }),
{
}

/// Every failure that is reported ends the search with that failure: an error of opening the
/// source, of saving the crop or of the upload as it came, an error of the browser behind
/// "Failed to open browser: ".
pub proof fn lemma_failures_end_the_search(pipeline: SearchModel, error: String)
    ensures
        pipeline.phase == SearchPhase::AwaitSource ==> pipeline.next(
            SearchEvent::SourceOpened { source: Err(error) },
        ).pending() == (SearchActionModel::Finish { result: Err(error@) }),
        pipeline.phase == SearchPhase::AwaitCrop ==> pipeline.next(
            SearchEvent::CropSaved { saved: Err(error) },
        ).pending() == (SearchActionModel::Finish { result: Err(error@) }),
        pipeline.phase == SearchPhase::AwaitUpload ==> pipeline.next(
            SearchEvent::Uploaded { reply: Err(error) },
        ).pending() == (SearchActionModel::Finish { result: Err(error@) }),
        pipeline.phase == SearchPhase::AwaitBrowser ==> pipeline.next(
            SearchEvent::BrowserOpened { opened: Err(error) },
        ).pending() == (SearchActionModel::Finish { result: Err(browser_failure(error@)) }),
{
}

} // verus!
