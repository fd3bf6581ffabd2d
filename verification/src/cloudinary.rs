//! The signed multipart provider: what is sent, and how the reply is read.

use crate::text::{decimal_string, decimal_text, digit_char, text_outcome_view};
use vstd::prelude::*;
use vstd::string::*;
use vstd::utf8::encode_utf8;

verus! {

/// The SHA-1 digest of `data`.
pub uninterp spec fn sha1_of(data: Seq<u8>) -> Seq<u8>;

/// What reading `body` as JSON and taking the member `field` of the top value as a string
/// gives: the string, nothing where the value has no such member or it is no string, or
/// the parser's message where `body` is no JSON.
pub uninterp spec fn json_text_field(body: Seq<char>, field: Seq<char>) -> Result<
    Option<Seq<char>>,
    Seq<char>,
>;

/// The lower-case character of a hexadecimal digit.
pub open spec fn hex_digit(n: nat) -> char
    recommends
        n < 16,
{
    if n < 10 {
        digit_char(n)
    } else if n == 10 {
        'a'
    } else if n == 11 {
        'b'
    } else if n == 12 {
        'c'
    } else if n == 13 {
        'd'
    } else if n == 14 {
        'e'
    } else {
        'f'
    }
}

/// Two lower-case hexadecimal digits for each byte, the high half first.
pub open spec fn hex_text(bytes: Seq<u8>) -> Seq<char> {
    Seq::new(
        2 * bytes.len(),
        |i: int|
            if i % 2 == 0 {
                hex_digit((bytes[i / 2] / 16) as nat)
            } else {
                hex_digit((bytes[i / 2] % 16) as nat)
            },
    )
}

/// The text that is hashed to sign an upload.
pub open spec fn signature_payload(timestamp: u64, api_secret: Seq<char>) -> Seq<char> {
    "timestamp="@ + decimal_text(timestamp as nat) + api_secret
}

/// The signature of an upload at `timestamp`: the SHA-1 digest of the payload's UTF-8
/// bytes in hexadecimal. The secret is appended as it is; no keyed hash is involved.
pub open spec fn signature_text(timestamp: u64, api_secret: Seq<char>) -> Seq<char> {
    hex_text(sha1_of(encode_utf8(signature_payload(timestamp, api_secret))))
}

/// The address that takes the uploads of an account.
pub open spec fn endpoint_text(cloud_name: Seq<char>) -> Seq<char> {
    "https://api.cloudinary.com/v1_1/"@ + cloud_name + "/image/upload"@
}

/// The outcome of an upload, from the reply's status and body.
pub open spec fn response_outcome(success: bool, body: Seq<char>) -> Result<
    Seq<char>,
    Seq<char>,
> {
    if !success {
        Err("Upload failed: "@ + body)
    } else {
        secure_url_outcome(json_text_field(body, "secure_url"@))
    }
}

/// The outcome of an accepted upload, from what the reply's body holds.
pub open spec fn secure_url_outcome(field: Result<Option<Seq<char>>, Seq<char>>) -> Result<
    Seq<char>,
    Seq<char>,
> {
    match field {
        Ok(Some(url)) => Ok(url),
        Ok(None) => Err("No URL in response"@),
        Err(e) => Err("Failed to parse response: "@ + e),
    }
}

/// Hashes with `Sha1::digest`: the 20 bytes that [`sha1_of`] names.
#[verifier::external_body]
fn sha1_digest(data: &[u8]) -> (digest: Vec<u8>)
    ensures
        digest@ == sha1_of(data@),
        digest@.len() == 20,
{
    <sha1::Sha1 as sha1::Digest>::digest(data).to_vec()
}

/// Writes bytes with `hex::encode`: two lower-case hexadecimal digits for each byte.
#[verifier::external_body]
fn hex_string(bytes: &[u8]) -> (text: String)
    ensures
        text@ == hex_text(bytes@),
{
    hex::encode(bytes)
}

/// Parses with `serde_json::from_str` into a `Value`, indexes it by `field` and asks
/// `Value::as_str`: the result that [`json_text_field`] names.
#[verifier::external_body]
fn read_json_text_field(body: &str, field: &str) -> (res: Result<Option<String>, String>)
    ensures
        match res {
            Ok(Some(text)) => json_text_field(body@, field@) == Ok::<
                Option<Seq<char>>,
                Seq<char>,
            >(Some(text@)),
            Ok(None) => json_text_field(body@, field@) == Ok::<Option<Seq<char>>, Seq<char>>(
                None,
            ),
            Err(e) => json_text_field(body@, field@) == Err::<Option<Seq<char>>, Seq<char>>(e@),
        },
{
    match serde_json::from_str::<serde_json::Value>(body) {
        Ok(value) => Ok(value[field].as_str().map(|s| s.to_string())),
        Err(e) => Err(e.to_string()),
    }
}

/// The form of one upload: a file part and three text fields, for one address.
#[derive(Debug, Clone)]
pub struct MultipartRequest {
    pub url: String,
    pub file: Vec<u8>,
    pub file_name: String,
    pub mime: String,
    pub timestamp: String,
    pub api_key: String,
    pub signature: String,
}

/// What the form of an upload holds: the account's address, the file part with its name and
/// the fixed content type, the timestamp in decimal, the key, and the signature.
pub open spec fn is_form_of(
    req: MultipartRequest,
    cloud_name: Seq<char>,
    api_key: Seq<char>,
    api_secret: Seq<char>,
    image_data: Seq<u8>,
    filename: Seq<char>,
    timestamp: u64,
) -> bool {
    &&& req.url@ == endpoint_text(cloud_name)
    &&& req.file@ == image_data
    &&& req.file_name@ == filename
    &&& req.mime@ == "image/webp"@
    &&& req.timestamp@ == decimal_text(timestamp as nat)
    &&& req.api_key@ == api_key
    &&& req.signature@ == signature_text(timestamp, api_secret)
}

/// Uploads through an account's signed multipart endpoint.
pub struct CloudinaryUploader {
    cloud_name: String,
    api_key: String,
    api_secret: String,
}

impl CloudinaryUploader {
    pub closed spec fn cloud_name(&self) -> Seq<char> {
        self.cloud_name@
    }

    pub closed spec fn api_key(&self) -> Seq<char> {
        self.api_key@
    }

    pub closed spec fn api_secret(&self) -> Seq<char> {
        self.api_secret@
    }

    pub fn new(cloud_name: String, api_key: String, api_secret: String) -> (uploader: Self)
        ensures
            uploader.cloud_name() == cloud_name@,
            uploader.api_key() == api_key@,
            uploader.api_secret() == api_secret@,
    {
        Self { cloud_name, api_key, api_secret }
    }

    /// Signs an upload at `timestamp`, in seconds since the epoch.
    pub fn signature(&self, timestamp: u64) -> (text: String)
        ensures
            text@ == signature_text(timestamp, self.api_secret()),
            text@.len() == 40,
    {
        let mut payload = String::from_str("timestamp=");
        let digits = decimal_string(timestamp as u128);
        payload.append(digits.as_str());
        payload.append(self.api_secret.as_str());
        let digest = sha1_digest(payload.as_str().as_bytes());
        hex_string(digest.as_slice())
    }

    /// The address that takes this account's uploads.
    pub fn endpoint(&self) -> (url: String)
        ensures
            url@ == endpoint_text(self.cloud_name()),
    {
        let mut url = String::from_str("https://api.cloudinary.com/v1_1/");
        url.append(self.cloud_name.as_str());
        url.append("/image/upload");
        url
    }

    /// The form to send for `image_data` at `timestamp`.
    pub fn build_request(&self, image_data: &[u8], filename: &str, timestamp: u64) -> (req:
        MultipartRequest)
        ensures
            is_form_of(
                req,
                self.cloud_name(),
                self.api_key(),
                self.api_secret(),
                image_data@,
                filename@,
                timestamp,
            ),
    {
        MultipartRequest {
            url: self.endpoint(),
            file: vstd::slice::slice_to_vec(image_data),
            file_name: String::from_str(filename),
            mime: String::from_str("image/webp"),
            timestamp: decimal_string(timestamp as u128),
            api_key: self.api_key.clone(),
            signature: self.signature(timestamp),
        }
    }

    /// The message for a request that got no reply.
    pub fn request_failed(detail: &str) -> (message: String)
        ensures
            message@ == "Upload request failed: "@ + detail@,
    {
        String::from_str("Upload request failed: ").concat(detail)
    }

    /// The outcome of an accepted upload, from what the body's `secure_url` member held.
    pub fn secure_url(field: Result<Option<String>, String>) -> (res: Result<String, String>)
        ensures
            text_outcome_view(res) == secure_url_outcome(
                match field {
                    Ok(Some(url)) => Ok(Some(url@)),
                    Ok(None) => Ok(None),
                    Err(e) => Err(e@),
                },
            ),
    {
        match field {
            Ok(Some(url)) => Ok(url),
            Ok(None) => Err(String::from_str("No URL in response")),
            Err(e) => Err(String::from_str("Failed to parse response: ").concat(e.as_str())),
        }
    }

    /// Reads a reply: a refusal carries the body as its detail, an acceptance must hold the
    /// public address in its JSON body.
    pub fn read_response(success: bool, body: &str) -> (res: Result<String, String>)
        ensures
            text_outcome_view(res) == response_outcome(success, body@),
    {
        if !success {
            Err(String::from_str("Upload failed: ").concat(body))
        } else {
            Self::secure_url(read_json_text_field(body, "secure_url"))
        }
    }
}

} // verus!
