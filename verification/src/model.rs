//! Logical model identifiers and their fixed remote/local descriptors.
//!
//! Every identifier maps to exactly one canonical remote URL and one
//! canonical filename under the process-local model directory; the mapping
//! is total by construction (every match below is exhaustive).

use vstd::prelude::*;
use vstd::string::StringExecFns;

verus! {

/// A logical pretrained model known to this library.
#[derive(Clone, Copy, PartialEq, Eq, Structural, Debug, Hash)]
pub enum Model {
    /// The click-point detector model.
    Yolo11n,
    /// The image-similarity model.
    Siamese,
}

/// Canonical filename of a model inside the model directory.
pub open spec fn spec_filename(m: Model) -> Seq<char> {
    match m {
        Model::Yolo11n => "yolov11n_captcha.onnx"@,
        Model::Siamese => "siamese.onnx"@,
    }
}

/// Canonical remote URL from which a model is fetched on a cache miss.
pub open spec fn spec_url(m: Model) -> Seq<char> {
    match m {
        Model::Yolo11n => "https://www.modelscope.cn/models/Amorter/CaptchaBreakerModels/resolve/master/yolov11n_captcha.onnx"@,
        Model::Siamese => "https://www.modelscope.cn/models/Amorter/CaptchaBreakerModels/resolve/master/siamese.onnx"@,
    }
}

/// The process-local directory that holds cached model files.
pub open spec fn spec_model_dir() -> Seq<char> {
    "models"@
}

/// Canonical cache path of a model: `<model dir>/<filename>`.
pub open spec fn spec_cache_path(m: Model) -> Seq<char> {
    spec_model_dir() + "/"@ + spec_filename(m)
}

impl Model {
    /// The filename this model is stored under inside the model directory.
    pub fn filename(&self) -> (r: String)
        ensures
            r@ == spec_filename(*self),
    {
        match self {
            Model::Yolo11n => "yolov11n_captcha.onnx".to_owned(),
            Model::Siamese => "siamese.onnx".to_owned(),
        }
    }

    /// The remote URL this model is fetched from.
    pub fn url(&self) -> (r: String)
        ensures
            r@ == spec_url(*self),
    {
        match self {
            Model::Yolo11n => "https://www.modelscope.cn/models/Amorter/CaptchaBreakerModels/resolve/master/yolov11n_captcha.onnx".to_owned(),
            Model::Siamese => "https://www.modelscope.cn/models/Amorter/CaptchaBreakerModels/resolve/master/siamese.onnx".to_owned(),
        }
    }

    /// The on-disk cache path of this model, relative to the process
    /// working directory.
    pub fn cache_path(&self) -> (r: String)
        ensures
            r@ == spec_cache_path(*self),
    {
        let mut p = model_dir();
        p.append("/");
        let name = self.filename();
        p.append(name.as_str());
        p
    }
}

/// The model directory, relative to the process working directory. The
/// driver creates it (idempotently) before any cache probe or fetch.
pub fn model_dir() -> (r: String)
    ensures
        r@ == spec_model_dir(),
{
    "models".to_owned()
}

/// Distinct models never share a cache file: their filenames differ, and so
/// do their cache paths and their remote URLs.
pub proof fn lemma_model_descriptors_distinct(a: Model, b: Model)
    requires
        a != b,
    ensures
        spec_filename(a) != spec_filename(b),
        spec_cache_path(a) != spec_cache_path(b),
        spec_url(a) != spec_url(b),
{
    reveal_strlit("models");
    reveal_strlit("/");
    reveal_strlit("yolov11n_captcha.onnx");
    reveal_strlit("siamese.onnx");
    reveal_strlit("https://www.modelscope.cn/models/Amorter/CaptchaBreakerModels/resolve/master/yolov11n_captcha.onnx");
    reveal_strlit("https://www.modelscope.cn/models/Amorter/CaptchaBreakerModels/resolve/master/siamese.onnx");
    assert(spec_filename(Model::Yolo11n).len() != spec_filename(Model::Siamese).len());
    assert(spec_url(Model::Yolo11n).len() != spec_url(Model::Siamese).len());
    assert(spec_cache_path(a).len() == spec_model_dir().len() + 1 + spec_filename(a).len());
    assert(spec_cache_path(b).len() == spec_model_dir().len() + 1 + spec_filename(b).len());
}

} // verus!
