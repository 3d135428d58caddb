use model_loader::error::LoadError;
use model_loader::model::{model_dir, Model};
use model_loader::text::decimal;

#[test]
fn detector_descriptor() {
    let m = Model::Yolo11n;
    assert_eq!(m.filename(), "yolov11n_captcha.onnx");
    assert_eq!(
        m.url(),
        "https://www.modelscope.cn/models/Amorter/CaptchaBreakerModels/resolve/master/yolov11n_captcha.onnx"
    );
    assert_eq!(m.cache_path(), "models/yolov11n_captcha.onnx");
}

#[test]
fn similarity_descriptor() {
    let m = Model::Siamese;
    assert_eq!(m.filename(), "siamese.onnx");
    assert_eq!(
        m.url(),
        "https://www.modelscope.cn/models/Amorter/CaptchaBreakerModels/resolve/master/siamese.onnx"
    );
    assert_eq!(m.cache_path(), "models/siamese.onnx");
}

#[test]
fn model_dir_is_fixed() {
    assert_eq!(model_dir(), "models");
}

#[test]
fn descriptors_are_distinct() {
    assert_ne!(Model::Yolo11n.filename(), Model::Siamese.filename());
    assert_ne!(Model::Yolo11n.cache_path(), Model::Siamese.cache_path());
    assert_ne!(Model::Yolo11n.url(), Model::Siamese.url());
}

#[test]
fn decimal_rendering() {
    assert_eq!(decimal(0), "0");
    assert_eq!(decimal(7), "7");
    assert_eq!(decimal(10), "10");
    assert_eq!(decimal(404), "404");
    assert_eq!(decimal(65535), "65535");
    assert_eq!(decimal(1_048_576), "1048576");
    assert_eq!(decimal(u64::MAX), "18446744073709551615");
}

#[test]
fn error_messages() {
    assert_eq!(
        LoadError::HttpStatus(404).message(),
        "request failed with status: 404"
    );
    assert_eq!(
        LoadError::Network("connection reset".to_string()).message(),
        "network failure: connection reset"
    );
    assert_eq!(
        LoadError::Filesystem("rename failed".to_string()).message(),
        "filesystem failure: rename failed"
    );
    assert_eq!(LoadError::InvalidUrl.message(), "invalid model source URL");
    assert_eq!(
        LoadError::InvalidModel("bad magic".to_string()).message(),
        "invalid model encoding: bad magic"
    );
    assert_eq!(
        LoadError::ProviderUnavailable("no such device".to_string()).message(),
        "execution provider unavailable: no such device"
    );
}
