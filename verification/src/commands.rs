//! The decisions of the two operations a session offers: take an image in, and upload a
//! cached one. Reading files, clocks and sockets is left to the caller, who hands over
//! what came back.
//!
//! An upload goes by stages. The caller looks the cached bytes up, calls [`begin_upload`]
//! and sends the request it gets; it hands the provider's answer to
//! [`PendingUpload::replied`] and stores the history line it gets; it hands the store's
//! answer to [`AcceptedUpload::recorded`], which alone touches the cache. A failure at any
//! stage ends the upload and leaves the cached bytes where they are.

use crate::cloudinary::{is_form_of, CloudinaryUploader, MultipartRequest};
use crate::image_processor::{
    decoded, raster_of, size_text, thumbnail_in_bounds, thumbnail_outcome, ImageProcessor,
};
use crate::models::{Config, HistoryItem, ProcessedImageResult, UploadResult};
use crate::r2::{is_put_of, object_key_text, PutObjectRequest, R2Uploader};
use crate::state::{fresh_id, hyphenated, id_text, parse_id, parsed_id, AppState};
use vstd::prelude::*;
use vstd::string::*;

verus! {

/// `bytes` in the standard base64 alphabet, with padding.
pub uninterp spec fn base64_standard(bytes: Seq<u8>) -> Seq<char>;

/// Encodes with the engine `general_purpose::STANDARD` of `base64`: the text that
/// [`base64_standard`] names.
#[verifier::external_body]
fn base64_string(bytes: &[u8]) -> (text: String)
    ensures
        text@ == base64_standard(bytes@),
{
    base64::Engine::encode(&base64::engine::general_purpose::STANDARD, bytes)
}

/// Reads the clock with `Utc::now` and `DateTime::timestamp` of `chrono`. Nothing is
/// claimed of the value.
#[verifier::external_body]
fn unix_seconds() -> (now: i64) {
    chrono::Utc::now().timestamp()
}

/// The two providers an upload can go to.
#[derive(Debug, Clone, Copy, PartialEq, Eq, Structural)]
pub enum Provider {
    Cloudinary,
    R2,
}

/// What is to be sent to the chosen provider.
#[derive(Debug, Clone)]
pub enum ProviderRequest {
    Multipart(MultipartRequest),
    PutObject(PutObjectRequest),
}

/// The provider that a tag names: `cloudinary` and `r2` are the tags, nothing else is one.
pub open spec fn provider_of(tag: Seq<char>) -> Option<Provider> {
    if tag == "cloudinary"@ {
        Some(Provider::Cloudinary)
    } else if tag == "r2"@ {
        Some(Provider::R2)
    } else {
        None
    }
}

/// The handle that a text denotes: the identifier whose hyphenated form the text is.
pub open spec fn handle_of(text: Seq<char>) -> Option<u128> {
    match parsed_id(text) {
        Some(id) => if hyphenated(id) == text {
            Some(id)
        } else {
            None
        },
        None => None,
    }
}

/// The history line of an upload, but for its identifier and its time.
pub open spec fn is_record_of(
    item: HistoryItem,
    provider: Seq<char>,
    url: Seq<char>,
    thumbnail: Seq<u8>,
) -> bool {
    &&& item.provider@ == provider
    &&& item.original_name@ == "image.webp"@
    &&& item.url@ == url
    &&& item.thumbnail_base64@ == base64_standard(thumbnail)
}

/// Greets the user by name.
pub fn greet(name: &str) -> (greeting: String)
    ensures
        greeting@ == "Hello, "@ + name@ + "! Welcome to OptiBridge."@,
{
    String::from_str("Hello, ").concat(name).concat("! Welcome to OptiBridge.")
}

/// What is sent to a provider for `image_data` at `timestamp`: the signed form with the
/// account's credentials, or the put with the store's credentials under a key made of some
/// identifier; the file is always named `image.webp`.
pub open spec fn is_request_of(
    request: ProviderRequest,
    provider: Provider,
    config: Config,
    image_data: Seq<u8>,
    timestamp: u64,
) -> bool {
    match (provider, request) {
        (Provider::Cloudinary, ProviderRequest::Multipart(req)) => is_form_of(
            req,
            config.cloudinary_cloud_name@,
            config.cloudinary_api_key@,
            config.cloudinary_api_secret@,
            image_data,
            "image.webp"@,
            timestamp,
        ),
        (Provider::R2, ProviderRequest::PutObject(req)) => exists|id: u128|
            is_put_of(
                req,
                config.r2_access_key_id@,
                config.r2_secret_access_key@,
                config.r2_bucket_name@,
                config.r2_endpoint@,
                #[trigger] object_key_text(hyphenated(id), "image.webp"@),
                image_data,
            ),
        _ => false,
    }
}

/// What making the history line of an upload comes to: the message of the decoder or of
/// the encoder where the thumbnail cannot be made, else a line with the provider, the
/// fixed file name, the address, the thumbnail of at most 200 pixels a side in base64,
/// and an identifier in its canonical text.
pub open spec fn is_record_outcome(
    res: Result<HistoryItem, String>,
    provider: Seq<char>,
    url: Seq<char>,
    image_data: Seq<u8>,
) -> bool {
    match decoded(image_data) {
        Err(e) => res matches Err(message) && message@ == "Failed to load image: "@ + e,
        Ok(d) => match thumbnail_outcome(raster_of(d), 200) {
            Err(e) => res matches Err(message) && message@ == e,
            Ok(thumbnail) => res matches Ok(item) && is_record_of(item, provider, url, thumbnail)
                && handle_of(item.id@) is Some && (raster_of(d).nonempty()
                ==> thumbnail_in_bounds(raster_of(d), 200)),
        },
    }
}

/// The text of a handle, which denotes that handle again.
pub fn handle_text(id: u128) -> (text: String)
    ensures
        text@ == hyphenated(id),
        handle_of(text@) == Some(id),
{
    id_text(id)
}

/// The handle that a text denotes.
pub fn resolve_handle(text: &str) -> (handle: Option<u128>)
    ensures
        handle == handle_of(text@),
{
    match parse_id(text) {
        Some(id) => {
            let canonical = id_text(id);
            let given = String::from_str(text);
            if canonical.eq(&given) {
                Some(id)
            } else {
                None
            }
        },
        None => None,
    }
}

/// The provider that a tag names; any other tag is refused.
pub fn parse_provider(tag: &str) -> (res: Result<Provider, String>)
    ensures
        match res {
            Ok(p) => provider_of(tag@) == Some(p),
            Err(message) => provider_of(tag@) is None && message@ == "Invalid provider"@,
        },
{
    let given = String::from_str(tag);
    if given.eq(&String::from_str("cloudinary")) {
        Ok(Provider::Cloudinary)
    } else if given.eq(&String::from_str("r2")) {
        Ok(Provider::R2)
    } else {
        Err(String::from_str("Invalid provider"))
    }
}

/// Caches transcoded bytes and describes them for the caller: a base64 preview, the size
/// in words, and the text of the handle under which they now wait.
pub fn cache_processed(state: &mut AppState, processor: &ImageProcessor, processed: Vec<u8>) -> (res:
    ProcessedImageResult)
    ensures
        res.preview_base64@ == base64_standard(processed@),
        res.size_info@ == size_text(processed@.len()),
        handle_of(res.temp_id@) is Some,
        final(state)@ == old(state)@.insert(handle_of(res.temp_id@).unwrap(), processed@),
{
    let preview_base64 = base64_string(processed.as_slice());
    let size_info = processor.get_size_info(processed.as_slice());
    let id = state.insert(processed);
    ProcessedImageResult { preview_base64, size_info, temp_id: handle_text(id) }
}

/// A copy of the cached bytes that the handle of the text `temp_id` resolves to.
pub fn lookup_cached(state: &AppState, temp_id: &str) -> (res: Result<Vec<u8>, String>)
    ensures
        match res {
            Ok(bytes) => handle_of(temp_id@) is Some && state@.contains_key(
                handle_of(temp_id@).unwrap(),
            ) && bytes@ == state@[handle_of(temp_id@).unwrap()],
            Err(message) => message@ == "Image not found in cache"@ && !(handle_of(temp_id@)
                is Some && state@.contains_key(handle_of(temp_id@).unwrap())),
        },
{
    match resolve_handle(temp_id) {
        Some(id) => match state.get(id) {
            Some(bytes) => Ok(bytes),
            None => Err(String::from_str("Image not found in cache")),
        },
        None => Err(String::from_str("Image not found in cache")),
    }
}

/// What to send for `image_data` to the provider that `provider` names, with the
/// credentials of `config`, at `timestamp` in seconds since the epoch. An unknown tag is
/// refused before anything is built.
pub fn prepare_upload(provider: &str, config: &Config, image_data: &[u8], timestamp: u64) -> (res:
    Result<ProviderRequest, String>)
    ensures
        match provider_of(provider@) {
            Some(p) => res matches Ok(request) && is_request_of(
                request,
                p,
                *config,
                image_data@,
                timestamp,
            ),
            None => res matches Err(message) && message@ == "Invalid provider"@,
        },
{
    match parse_provider(provider) {
        Ok(Provider::Cloudinary) => {
            let uploader = CloudinaryUploader::new(
                config.cloudinary_cloud_name.clone(),
                config.cloudinary_api_key.clone(),
                config.cloudinary_api_secret.clone(),
            );
            Ok(ProviderRequest::Multipart(uploader.build_request(image_data, "image.webp", timestamp)))
        },
        Ok(Provider::R2) => {
            let uploader = R2Uploader::new(
                config.r2_access_key_id.clone(),
                config.r2_secret_access_key.clone(),
                config.r2_bucket_name.clone(),
                config.r2_endpoint.clone(),
                config.r2_public_domain.clone(),
            );
            let id = fresh_id();
            let req = uploader.build_put_with(id, image_data, "image.webp");
            assert(is_put_of(
                req,
                config.r2_access_key_id@,
                config.r2_secret_access_key@,
                config.r2_bucket_name@,
                config.r2_endpoint@,
                object_key_text(hyphenated(id), "image.webp"@),
                image_data@,
            ));
            Ok(ProviderRequest::PutObject(req))
        },
        Err(message) => Err(message),
    }
}

/// The history line of an upload with the identifier `id` at the time `now`.
pub fn history_record_with(id: u128, now: i64, provider: &str, url: &str, thumbnail: &[u8]) -> (item:
    HistoryItem)
    ensures
        item.id@ == hyphenated(id),
        handle_of(item.id@) == Some(id),
        item.created_at == now,
        is_record_of(item, provider@, url@, thumbnail@),
{
    HistoryItem {
        id: handle_text(id),
        provider: String::from_str(provider),
        original_name: String::from_str("image.webp"),
        url: String::from_str(url),
        created_at: now,
        thumbnail_base64: base64_string(thumbnail),
    }
}

/// The history line of an upload that succeeded just now: a thumbnail of at most 200
/// pixels a side is made of the uploaded bytes, and the line gets a fresh identifier and
/// the clock's time.
pub fn history_record(provider: &str, url: &str, image_data: &[u8], max_width: u32) -> (res: Result<
    HistoryItem,
    String,
>)
    ensures
        is_record_outcome(res, provider@, url@, image_data@),
{
    let processor = ImageProcessor::new(max_width);
    match processor.create_thumbnail(image_data, 200) {
        Ok(thumbnail) => {
            let id = fresh_id();
            let now = unix_seconds();
            Ok(history_record_with(id, now, provider, url, thumbnail.as_slice()))
        },
        Err(message) => Err(message),
    }
}

/// Ends an upload. After a success the cached bytes are dropped and the address is handed
/// out; after a failure of the provider, or of anything that followed it, the cache keeps
/// the bytes and the failure is handed on as it came.
pub fn finish_upload(state: &mut AppState, temp_id: &str, outcome: Result<String, String>) -> (res:
    Result<UploadResult, String>)
    ensures
        match outcome {
            Ok(url) => res matches Ok(done) && done.url@ == url@ && final(state)@ == (match handle_of(
                temp_id@,
            ) {
                Some(id) => old(state)@.remove(id),
                None => old(state)@,
            }),
            Err(e) => res matches Err(message) && message@ == e@ && final(state)@ == old(state)@,
        },
{
    match outcome {
        Ok(url) => {
            match resolve_handle(temp_id) {
                Some(id) => {
                    state.remove(id);
                },
                None => {},
            }
            Ok(UploadResult { url })
        },
        Err(e) => Err(e),
    }
}

/// An upload whose request is with the provider.
pub struct PendingUpload {
    pub temp_id: String,
    pub provider: String,
    pub image_data: Vec<u8>,
    pub max_width: u32,
}

/// An upload that the provider took and whose history line is with the store.
pub struct AcceptedUpload {
    pub temp_id: String,
    pub url: String,
}

/// Starts the upload of cached bytes: says what to send to the provider that the tag names,
/// and keeps what the later steps need. An unknown tag ends the upload before anything is
/// sent.
pub fn begin_upload(
    temp_id: &str,
    provider: &str,
    config: &Config,
    image_data: Vec<u8>,
    timestamp: u64,
) -> (res: Result<(PendingUpload, ProviderRequest), String>)
    ensures
        match provider_of(provider@) {
            Some(p) => res matches Ok((pending, request)) && is_request_of(
                request,
                p,
                *config,
                image_data@,
                timestamp,
            ) && pending.temp_id@ == temp_id@ && pending.provider@ == provider@
                && pending.image_data@ == image_data@ && pending.max_width
                == config.settings_max_width,
            None => res matches Err(message) && message@ == "Invalid provider"@,
        },
{
    match prepare_upload(provider, config, image_data.as_slice(), timestamp) {
        Ok(request) => {
            let pending = PendingUpload {
                temp_id: String::from_str(temp_id),
                provider: String::from_str(provider),
                image_data,
                max_width: config.settings_max_width,
            };
            Ok((pending, request))
        },
        Err(message) => Err(message),
    }
}

impl PendingUpload {
    /// Takes the provider's answer. A failure ends the upload with the provider's message;
    /// an address is followed by the history line to store, or by the message of a
    /// thumbnail that could not be made.
    pub fn replied(self, reply: Result<String, String>) -> (res: Result<
        (AcceptedUpload, HistoryItem),
        String,
    >)
        ensures
            match reply {
                Err(e) => res matches Err(message) && message@ == e@,
                Ok(url) => match res {
                    Ok((accepted, item)) => accepted.temp_id@ == self.temp_id@ && accepted.url@
                        == url@ && is_record_outcome(
                        Ok(item),
                        self.provider@,
                        url@,
                        self.image_data@,
                    ),
                    Err(message) => is_record_outcome(
                        Err(message),
                        self.provider@,
                        url@,
                        self.image_data@,
                    ),
                },
            },
    {
        match reply {
            Err(e) => Err(e),
            Ok(url) => {
                match history_record(
                    self.provider.as_str(),
                    url.as_str(),
                    self.image_data.as_slice(),
                    self.max_width,
                ) {
                    Ok(item) => Ok((AcceptedUpload { temp_id: self.temp_id, url }, item)),
                    Err(message) => Err(message),
                }
            },
        }
    }
}

impl AcceptedUpload {
    /// Takes the history store's answer. Once the line is stored the cached bytes are
    /// dropped and the address is handed out; a failure leaves the cache as it is.
    pub fn recorded(self, state: &mut AppState, saved: Result<(), String>) -> (res: Result<
        UploadResult,
        String,
    >)
        ensures
            match saved {
                Ok(_) => res matches Ok(done) && done.url@ == self.url@ && final(state)@ == (
                match handle_of(self.temp_id@) {
                    Some(id) => old(state)@.remove(id),
                    None => old(state)@,
                }),
                Err(e) => res matches Err(message) && message@ == e@ && final(state)@ == old(
                    state,
                )@,
            },
    {
        match saved {
            Ok(_) => finish_upload(state, self.temp_id.as_str(), Ok(self.url)),
            Err(e) => finish_upload(state, self.temp_id.as_str(), Err(e)),
        }
    }
}

} // verus!
