//! The object-storage provider: the object's key, the put request, the public address.

use crate::text::text_outcome_view;
use crate::state::{fresh_id, hyphenated, id_text};
use vstd::prelude::*;
use vstd::string::*;

verus! {

/// The index of the last `.` in `name`, or -1 where it has none.
pub open spec fn last_dot(name: Seq<char>) -> int
    decreases name.len(),
{
    if name.len() == 0 {
        -1
    } else if name.last() == '.' {
        name.len() - 1
    } else {
        last_dot(name.drop_last())
    }
}

/// What follows the last `.` of a file name; `webp` for a name without one.
pub open spec fn extension_text(name: Seq<char>) -> Seq<char> {
    if last_dot(name) < 0 {
        "webp"@
    } else {
        name.subrange(last_dot(name) + 1, name.len() as int)
    }
}

/// The length of `s` without the `/` characters at its end.
pub open spec fn trimmed_len(s: Seq<char>) -> nat
    decreases s.len(),
{
    if s.len() > 0 && s.last() == '/' {
        trimmed_len(s.drop_last())
    } else {
        s.len()
    }
}

/// `s` without the `/` characters at its end.
pub open spec fn trim_slashes(s: Seq<char>) -> Seq<char> {
    s.subrange(0, trimmed_len(s) as int)
}

/// The key of an object: a unique identifier, a point, and the file's extension.
pub open spec fn object_key_text(unique: Seq<char>, filename: Seq<char>) -> Seq<char> {
    unique + "."@ + extension_text(filename)
}

/// The address under which an object is served.
pub open spec fn public_url_text(public_domain: Seq<char>, key: Seq<char>) -> Seq<char> {
    trim_slashes(public_domain) + "/"@ + key
}

/// The last `.` is a `.`, nothing after it is one, and -1 means that there is none.
pub proof fn lemma_last_dot(name: Seq<char>)
    ensures
        -1 <= last_dot(name) < name.len(),
        last_dot(name) >= 0 ==> name[last_dot(name)] == '.',
        forall|j: int| last_dot(name) < j < name.len() ==> name[j] != '.',
    decreases name.len(),
{
    if name.len() > 0 && name.last() != '.' {
        let front = name.drop_last();
        lemma_last_dot(front);
        assert forall|j: int| last_dot(name) < j < name.len() implies name[j] != '.' by {
            if j < front.len() {
                assert(front[j] != '.');
            }
        }
    }
}

/// Trimming leaves a prefix that does not end in `/`, and only `/` was cut.
pub proof fn lemma_trimmed_len(s: Seq<char>)
    ensures
        trimmed_len(s) <= s.len(),
        trimmed_len(s) > 0 ==> s[trimmed_len(s) - 1] != '/',
        forall|j: int| trimmed_len(s) <= j < s.len() ==> s[j] == '/',
    decreases s.len(),
{
    if s.len() > 0 && s.last() == '/' {
        let front = s.drop_last();
        lemma_trimmed_len(front);
        assert forall|j: int| trimmed_len(s) <= j < s.len() implies s[j] == '/' by {
            if j < front.len() {
                assert(front[j] == '/');
            }
        }
    }
}

/// The extension of a file name.
pub fn extension(filename: &str) -> (ext: String)
    ensures
        ext@ == extension_text(filename@),
{
    let len = filename.unicode_len();
    let mut i: usize = len;
    assert(filename@.subrange(0, i as int) =~= filename@);
    while i > 0 && filename.get_char(i - 1) != '.'
        invariant
            i <= len,
            len == filename@.len(),
            last_dot(filename@) == last_dot(filename@.subrange(0, i as int)),
        decreases i,
    {
        assert(filename@.subrange(0, i as int).drop_last() =~= filename@.subrange(
            0,
            i as int - 1,
        ));
        i = i - 1;
    }
    if i == 0 {
        String::from_str("webp")
    } else {
        proof {
            assert(filename@.subrange(0, i as int).last() == '.');
        }
        String::from_str(filename.substring_char(i, len))
    }
}

/// `text` without the `/` characters at its end.
pub fn trim_trailing_slashes(text: &str) -> (trimmed: String)
    ensures
        trimmed@ == trim_slashes(text@),
{
    let len = text.unicode_len();
    let mut n: usize = len;
    assert(text@.subrange(0, n as int) =~= text@);
    while n > 0 && text.get_char(n - 1) == '/'
        invariant
            n <= len,
            len == text@.len(),
            trimmed_len(text@) == trimmed_len(text@.subrange(0, n as int)),
        decreases n,
    {
        assert(text@.subrange(0, n as int).drop_last() =~= text@.subrange(0, n as int - 1));
        n = n - 1;
    }
    String::from_str(text.substring_char(0, n))
}

/// The key under which a file is stored, for the identifier `id`.
pub fn object_key(id: u128, filename: &str) -> (key: String)
    ensures
        key@ == object_key_text(hyphenated(id), filename@),
{
    let mut key = id_text(id);
    key.append(".");
    let ext = extension(filename);
    key.append(ext.as_str());
    key
}

/// One put of an object: where, with which static credentials, and what.
#[derive(Debug, Clone)]
pub struct PutObjectRequest {
    pub endpoint: String,
    pub region: String,
    pub access_key_id: String,
    pub secret_access_key: String,
    pub credentials_name: String,
    pub bucket: String,
    pub key: String,
    pub body: Vec<u8>,
    pub content_type: String,
}

/// What a put holds: the store's endpoint and the fixed region, the static credentials
/// under their fixed name, the bucket, the key, the payload and the fixed content type.
pub open spec fn is_put_of(
    req: PutObjectRequest,
    access_key_id: Seq<char>,
    secret_access_key: Seq<char>,
    bucket_name: Seq<char>,
    endpoint: Seq<char>,
    key: Seq<char>,
    image_data: Seq<u8>,
) -> bool {
    &&& req.endpoint@ == endpoint
    &&& req.region@ == "auto"@
    &&& req.access_key_id@ == access_key_id
    &&& req.secret_access_key@ == secret_access_key
    &&& req.credentials_name@ == "r2-uploader"@
    &&& req.bucket@ == bucket_name
    &&& req.key@ == key
    &&& req.body@ == image_data
    &&& req.content_type@ == "image/webp"@
}

/// Uploads into a bucket of an S3-compatible store that is served under a public domain.
pub struct R2Uploader {
    access_key_id: String,
    secret_access_key: String,
    bucket_name: String,
    endpoint: String,
    public_domain: String,
}

impl R2Uploader {
    pub closed spec fn access_key_id(&self) -> Seq<char> {
        self.access_key_id@
    }

    pub closed spec fn secret_access_key(&self) -> Seq<char> {
        self.secret_access_key@
    }

    pub closed spec fn bucket_name(&self) -> Seq<char> {
        self.bucket_name@
    }

    pub closed spec fn endpoint(&self) -> Seq<char> {
        self.endpoint@
    }

    pub closed spec fn public_domain(&self) -> Seq<char> {
        self.public_domain@
    }

    /// What a put of `image_data` under `key` holds for this uploader.
    pub open spec fn describes(&self, req: PutObjectRequest, key: Seq<char>, image_data: Seq<u8>)
        -> bool {
        is_put_of(
            req,
            self.access_key_id(),
            self.secret_access_key(),
            self.bucket_name(),
            self.endpoint(),
            key,
            image_data,
        )
    }

    pub fn new(
        access_key_id: String,
        secret_access_key: String,
        bucket_name: String,
        endpoint: String,
        public_domain: String,
    ) -> (uploader: Self)
        ensures
            uploader.access_key_id() == access_key_id@,
            uploader.secret_access_key() == secret_access_key@,
            uploader.bucket_name() == bucket_name@,
            uploader.endpoint() == endpoint@,
            uploader.public_domain() == public_domain@,
    {
        Self { access_key_id, secret_access_key, bucket_name, endpoint, public_domain }
    }

    /// The put of `image_data` under the key that `id` and the file's extension give.
    pub fn build_put_with(&self, id: u128, image_data: &[u8], filename: &str) -> (req:
        PutObjectRequest)
        ensures
            self.describes(req, object_key_text(hyphenated(id), filename@), image_data@),
    {
        PutObjectRequest {
            endpoint: self.endpoint.clone(),
            region: String::from_str("auto"),
            access_key_id: self.access_key_id.clone(),
            secret_access_key: self.secret_access_key.clone(),
            credentials_name: String::from_str("r2-uploader"),
            bucket: self.bucket_name.clone(),
            key: object_key(id, filename),
            body: vstd::slice::slice_to_vec(image_data),
            content_type: String::from_str("image/webp"),
        }
    }

    /// The put of `image_data` under a key made of a freshly drawn identifier.
    pub fn build_put(&self, image_data: &[u8], filename: &str) -> (req: PutObjectRequest)
        ensures
            exists|id: u128|
                self.describes(
                    req,
                    #[trigger] object_key_text(hyphenated(id), filename@),
                    image_data@,
                ),
    {
        let id = fresh_id();
        self.build_put_with(id, image_data, filename)
    }

    /// The address under which the object of `key` is served: the public domain, not the
    /// store's own endpoint.
    pub fn public_url(&self, key: &str) -> (url: String)
        ensures
            url@ == public_url_text(self.public_domain(), key@),
    {
        let mut url = trim_trailing_slashes(self.public_domain.as_str());
        url.append("/");
        url.append(key);
        url
    }

    /// The outcome of an upload, from what the put of `key` came to.
    pub fn conclude(&self, key: &str, sent: Result<(), String>) -> (res: Result<String, String>)
        ensures
            text_outcome_view(res) == match sent {
                Ok(_) => Ok::<Seq<char>, Seq<char>>(public_url_text(self.public_domain(), key@)),
                Err(e) => Err::<Seq<char>, Seq<char>>("Upload failed: "@ + e@),
            },
    {
        match sent {
            Ok(_) => Ok(self.public_url(key)),
            Err(e) => Err(String::from_str("Upload failed: ").concat(e.as_str())),
        }
    }
}

} // verus!
