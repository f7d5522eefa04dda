//! A resolved model: its artifact stem and the cache directory it lives in.

use vstd::prelude::*;
use vstd::string::*;
use crate::error::ServiceError;
use crate::models::{is_stem, lookup_stem, lowercase_of, lowercased, stem_of};

verus! {

/// The remote store that artifacts are fetched from.
pub const BASE_URL: &'static str = "https://hf-mirror.com/ggerganov/whisper.cpp/resolve/main";

/// `<prefix>/<stem>.bin`: how an artifact is addressed, locally and remotely.
pub open spec fn artifact_location(prefix: Seq<char>, stem: Seq<char>) -> Seq<char> {
    prefix + "/"@ + stem + ".bin"@
}

fn locate(prefix: &str, stem: &str) -> (r: String)
    ensures
        r@ == artifact_location(prefix@, stem@),
{
    let mut out = String::from_str(prefix);
    out.append("/");
    out.append(stem);
    out.append(".bin");
    out
}

/// A model whose logical name has been resolved against the table. Holding
/// one says nothing yet about the artifact being on disk.
pub struct ModelHandler {
    model_name: String,
    models_dir: String,
}

impl ModelHandler {
    /// The resolved artifact stem.
    pub closed spec fn stem(&self) -> Seq<char> {
        self.model_name@
    }

    /// The cache directory, as given at construction.
    pub closed spec fn dir(&self) -> Seq<char> {
        self.models_dir@
    }

    /// The handler's stem is the table's answer for `key`.
    pub open spec fn resolves(&self, key: Seq<char>) -> bool {
        stem_of(key) == Some(self.stem())
    }

    /// The handler's stem is one the table holds.
    pub open spec fn wf(&self) -> bool {
        is_stem(self.stem())
    }

    /// Where the artifact is cached.
    pub open spec fn artifact_path(&self) -> Seq<char> {
        artifact_location(self.dir(), self.stem())
    }

    /// Where the artifact is fetched from.
    pub open spec fn artifact_url(&self) -> Seq<char> {
        artifact_location(BASE_URL@, self.stem())
    }

    /// Builds a handler from a key that is already lowercase. Fails with
    /// `UnknownModel` exactly when the table has no entry for the key.
    pub fn from_key(key: &str, models_dir: &str) -> (r: Result<ModelHandler, ServiceError>)
        ensures
            match r {
                Ok(h) => h.resolves(key@) && h.dir() == models_dir@ && h.wf(),
                Err(e) => e == ServiceError::UnknownModel && stem_of(key@) is None,
            },
    {
        match lookup_stem(key) {
            Some(stem) => {
                assert(is_stem(stem@)) by {
                    assert(stem_of(key@) == Some(stem@));
                }
                Ok(
                    ModelHandler {
                        model_name: String::from_str(stem),
                        models_dir: String::from_str(models_dir),
                    },
                )
            },
            None => Err(ServiceError::UnknownModel),
        }
    }

    /// Resolves `model_name` without regard to case. No file or network is
    /// touched: an unknown name is refused before anything else happens.
    pub fn new(model_name: &str, models_dir: &str) -> (r: Result<ModelHandler, ServiceError>)
        ensures
            match r {
                Ok(h) => h.resolves(lowercase_of(model_name@)) && h.dir() == models_dir@ && h.wf(),
                Err(e) => e == ServiceError::UnknownModel && stem_of(lowercase_of(model_name@))
                    is None,
            },
    {
        let key = lowercased(model_name);
        ModelHandler::from_key(key.as_str(), models_dir)
    }

    /// The path of the cached artifact.
    pub fn get_model_dir(&self) -> (r: String)
        ensures
            r@ == self.artifact_path(),
    {
        locate(self.models_dir.as_str(), self.model_name.as_str())
    }

    /// The address the artifact is downloaded from.
    pub fn download_url(&self) -> (r: String)
        ensures
            r@ == self.artifact_url(),
    {
        locate(BASE_URL, self.model_name.as_str())
    }

    /// The resolved artifact stem.
    pub fn model_name(&self) -> (r: &str)
        ensures
            r@ == self.stem(),
    {
        self.model_name.as_str()
    }

    /// The cache directory.
    pub fn models_dir(&self) -> (r: &str)
        ensures
            r@ == self.dir(),
    {
        self.models_dir.as_str()
    }
}

/// Two handlers made for the same key and directory address the same
/// artifact, in the cache and in the store.
pub proof fn lemma_same_request_same_artifact(a: ModelHandler, b: ModelHandler, key: Seq<char>)
    requires
        a.resolves(key),
        b.resolves(key),
        a.dir() == b.dir(),
    ensures
        a.artifact_path() == b.artifact_path(),
        a.artifact_url() == b.artifact_url(),
{
}

} // verus!
