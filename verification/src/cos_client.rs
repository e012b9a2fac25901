//! Object storage: the client of a bucket, and what is sent where when an
//! image is uploaded or fetched.
//!
//! The functions here only plan a transfer; carrying it out over the
//! network is left to the caller.

use crate::path::{extension, file_name, spec_extension, spec_file_name};
use vstd::prelude::*;
use vstd::string::StringExecFns;

verus! {

/// The content type an object is stored with.
#[derive(Clone, Copy, Debug, PartialEq, Eq, Structural)]
pub enum MimeType {
    ImageJpeg,
    ImagePng,
    ImageGif,
    /// Any other content, stored as a stream of bytes.
    ApplicationOctetStream,
}

/// Why a client could not be set up.
#[derive(Clone, Copy, Debug, PartialEq, Eq, Structural)]
pub enum CosError {
    /// The store's client refused the settings.
    Rejected,
}

/// An upload to carry out: the file at `path`, stored under `object_name`
/// with `mime_type`.
#[derive(Debug)]
pub struct UploadRequest {
    pub path: String,
    pub object_name: String,
    pub mime_type: MimeType,
}

/// A download to carry out: the object `key`, saved as the file `name`.
#[derive(Debug)]
pub struct DownloadRequest {
    pub key: String,
    pub name: String,
}

/// The content type that goes with a file extension.
pub open spec fn spec_mime_type(suffix: Seq<char>) -> MimeType {
    if suffix == "jpg"@ || suffix == "jpeg"@ {
        MimeType::ImageJpeg
    } else if suffix == "png"@ {
        MimeType::ImagePng
    } else if suffix == "gif"@ {
        MimeType::ImageGif
    } else {
        MimeType::ApplicationOctetStream
    }
}

/// The name a file is stored under: the final component of its path, or
/// `default_name` where the path has none.
pub open spec fn spec_object_name(path: Seq<char>) -> Seq<char> {
    if spec_file_name(path).len() == 0 {
        "default_name"@
    } else {
        spec_file_name(path)
    }
}

/// The extension a file's content type goes by: that of its path, or the
/// empty string.
pub open spec fn spec_suffix(path: Seq<char>) -> Seq<char> {
    match spec_extension(path) {
        Some(ext) => ext,
        None => Seq::empty(),
    }
}

/// The content type that goes with a file extension, compared as written.
pub fn mime_type_for(suffix: &String) -> (m: MimeType)
    ensures
        m == spec_mime_type(suffix@),
{
    if *suffix == String::from_str("jpg") || *suffix == String::from_str("jpeg") {
        MimeType::ImageJpeg
    } else if *suffix == String::from_str("png") {
        MimeType::ImagePng
    } else if *suffix == String::from_str("gif") {
        MimeType::ImageGif
    } else {
        MimeType::ApplicationOctetStream
    }
}

impl MimeType {
    /// The content type as it is written in a request header.
    pub open spec fn spec_as_str(&self) -> Seq<char> {
        match self {
            MimeType::ImageJpeg => "image/jpeg"@,
            MimeType::ImagePng => "image/png"@,
            MimeType::ImageGif => "image/gif"@,
            MimeType::ApplicationOctetStream => "application/octet-stream"@,
        }
    }

    /// The content type as it is written in a request header.
    pub fn as_str(&self) -> (s: &'static str)
        ensures
            s@ == self.spec_as_str(),
    {
        match self {
            MimeType::ImageJpeg => "image/jpeg",
            MimeType::ImagePng => "image/png",
            MimeType::ImageGif => "image/gif",
            MimeType::ApplicationOctetStream => "application/octet-stream",
        }
    }
}

/// A client of an object store.
pub trait CosFunction: Sized {
    /// A client for `bucket` in `region`, with the given credentials.
    fn create_cos_client(
        secret_id: String,
        secret_key: String,
        region: String,
        bucket: String,
    ) -> Result<Self, CosError>;

    /// The upload of the file at `path`: it is stored under the final
    /// component of the path, with the content type of its extension.
    fn upload_object(&self, path: String) -> (request: UploadRequest)
        ensures
            request.path@ == path@,
            request.object_name@ == spec_object_name(path@),
            request.mime_type == spec_mime_type(spec_suffix(path@)),
    ;

    /// The download of the object `key` into the file `name`.
    fn download_object(&self, key: String, name: String) -> (request: DownloadRequest)
        ensures
            request.key@ == key@,
            request.name@ == name@,
    ;
}

/// `qcos::client::Client`, which carries requests to the object store.
/// Nothing is read from it.
#[verifier::external_type_specification]
#[verifier::external_body]
pub struct ExCosClient(qcos::client::Client);

/// `Clone::clone` of `qcos::client::Client`, which is derived: the copy holds
/// the same credentials, bucket and region.
pub assume_specification[ <qcos::client::Client as Clone>::clone ](
    client: &qcos::client::Client,
) -> (copy: qcos::client::Client)
    ensures
        copy == *client,
;

/// `qcos::client::Client::new`, which keeps the credentials, the bucket and
/// the region for later requests.  Nothing is claimed of the client.
#[verifier::external_body]
fn new_client(
    secret_id: String,
    secret_key: String,
    bucket: String,
    region: String,
) -> qcos::client::Client {
    qcos::client::Client::new(secret_id, secret_key, bucket, region)
}

/// A client of a bucket in Tencent's object store.
#[derive(Debug)]
pub struct TecentCosUtil {
    client: qcos::client::Client,
    bucket: String,
}

impl TecentCosUtil {
    /// The name of the bucket.
    pub closed spec fn spec_bucket(&self) -> Seq<char> {
        self.bucket@
    }

    /// The name of the bucket.
    pub fn bucket(&self) -> (b: &String)
        ensures
            b@ == self.spec_bucket(),
    {
        &self.bucket
    }

    /// The client that was made for the bucket when this value was set up.
    pub closed spec fn spec_client(&self) -> qcos::client::Client {
        self.client
    }

    /// The client that carries requests out: the one that was made for the
    /// bucket when this value was set up.
    pub fn client(&self) -> (c: &qcos::client::Client)
        ensures
            *c == self.spec_client(),
    {
        &self.client
    }
}

impl Clone for TecentCosUtil {
    /// A copy with a copy of the client, for the same bucket.
    fn clone(&self) -> (copy: TecentCosUtil)
        ensures
            copy.spec_client() == self.spec_client(),
            copy.spec_bucket() == self.spec_bucket(),
    {
        TecentCosUtil { client: self.client.clone(), bucket: self.bucket.clone() }
    }
}

impl CosFunction for TecentCosUtil {
    fn create_cos_client(
        secret_id: String,
        secret_key: String,
        region: String,
        bucket: String,
    ) -> (r: Result<Self, CosError>)
        ensures
            r matches Ok(util) && util.spec_bucket() == bucket@,
    {
        let client = new_client(secret_id, secret_key, bucket.clone(), region);
        Ok(TecentCosUtil { client, bucket })
    }

    fn upload_object(&self, path: String) -> (request: UploadRequest) {
        let name = file_name(path.as_str());
        let object_name = if name.as_str().unicode_len() == 0 {
            String::from_str("default_name")
        } else {
            name
        };
        let suffix = match extension(path.as_str()) {
            Some(ext) => ext,
            None => String::new(),
        };
        let mime_type = mime_type_for(&suffix);
        UploadRequest { path, object_name, mime_type }
    }

    fn download_object(&self, key: String, name: String) -> (request: DownloadRequest) {
        DownloadRequest { key, name }
    }
}

} // verus!
