use model_loader::error::LoadError;
use model_loader::fetch::Download;
use model_loader::loader::{
    default_plan, DefaultModelLoader, LoadPlan, ModelLoader, ModelLoaderTrait,
};
use model_loader::model::Model;
use model_loader::providers::{default_execution_providers, ExecutionProvider};
use model_loader::session::build_session;

#[test]
fn default_strategy_is_stateless() {
    assert_eq!(DefaultModelLoader::default(), DefaultModelLoader);
}

#[test]
fn default_providers_are_one_cpu() {
    assert_eq!(default_execution_providers(), vec![ExecutionProvider::Cpu]);
}

#[test]
fn plan_on_cache_hit_never_fetches() {
    let plan = default_plan(Model::Siamese, true);
    assert_eq!(
        plan,
        LoadPlan::UseCache { path: "models/siamese.onnx".to_string() }
    );
}

#[test]
fn plan_on_cache_miss_fetches_canonical_url() {
    let plan = default_plan(Model::Yolo11n, false);
    assert_eq!(
        plan,
        LoadPlan::Fetch {
            url: "https://www.modelscope.cn/models/Amorter/CaptchaBreakerModels/resolve/master/yolov11n_captcha.onnx".to_string(),
            path: "models/yolov11n_captcha.onnx".to_string(),
        }
    );
}

#[test]
fn session_binds_bytes_and_providers_unchanged() {
    let s = build_session(
        Model::Siamese,
        vec![1, 2, 3],
        vec![ExecutionProvider::Cuda, ExecutionProvider::Cpu],
    );
    assert_eq!(s.model, Model::Siamese);
    assert_eq!(s.model_bytes, vec![1, 2, 3]);
    assert_eq!(
        s.providers,
        vec![ExecutionProvider::Cuda, ExecutionProvider::Cpu]
    );
}

#[test]
fn provider_defaulting() {
    let loader = DefaultModelLoader;
    let from_load = loader.load(Model::Yolo11n, vec![5, 6, 7]).unwrap();
    let from_explicit = loader
        .load_with_execution_providers(
            Model::Yolo11n,
            vec![5, 6, 7],
            default_execution_providers(),
        )
        .unwrap();
    assert_eq!(from_load, from_explicit);
    assert_eq!(from_load.providers, vec![ExecutionProvider::Cpu]);
}

#[test]
fn loader_selection_dispatches() {
    let strategy = ModelLoader::DefaultModelLoader.get_model_loader();
    let session = strategy.load(Model::Siamese, vec![8]).unwrap();
    assert_eq!(session.model, Model::Siamese);
    assert_eq!(session.model_bytes, vec![8]);

    let custom = ModelLoader::CustomModelLoader(Box::new(DefaultModelLoader)).get_model_loader();
    let plan = custom.plan(Model::Siamese, false);
    assert!(matches!(plan, LoadPlan::Fetch { .. }));
}

#[test]
fn scenario_cache_miss_then_hit() {
    // Cache empty: the planner orders one fetch from the canonical URL.
    let loader = DefaultModelLoader;
    let plan = loader.plan(Model::Yolo11n, false);
    let (url, path) = match plan {
        LoadPlan::Fetch { url, path } => (url, path),
        LoadPlan::UseCache { .. } => panic!("an empty cache must order a fetch"),
    };
    assert_eq!(url, Model::Yolo11n.url());
    assert_eq!(path, "models/yolov11n_captcha.onnx");

    // One GET answered 200; the body arrives in chunks, each written to the
    // temporary sibling as it is accepted.
    let mut d = Download::begin(200, Some(4)).unwrap();
    d.push_chunk(&[0xAA, 0xBB]);
    d.push_chunk(&[0xCC, 0xDD]);
    let fetched = d.finish();
    let session = loader.load(Model::Yolo11n, fetched.clone()).unwrap();
    assert_eq!(session.model_bytes, vec![0xAA, 0xBB, 0xCC, 0xDD]);

    // Re-invoking with the cache now present: no fetch is planned, and the
    // session is built from the identical cached bytes.
    let plan2 = loader.plan(Model::Yolo11n, true);
    assert_eq!(
        plan2,
        LoadPlan::UseCache { path: "models/yolov11n_captcha.onnx".to_string() }
    );
    let session2 = loader.load(Model::Yolo11n, fetched).unwrap();
    assert_eq!(session2, session);
}

#[test]
fn scenario_not_found_fails_with_status() {
    // A 404 answer fails the load before anything is written.
    match Download::begin(404, Some(100)) {
        Err(e) => {
            assert_eq!(e, LoadError::HttpStatus(404));
            assert_eq!(e.message(), "request failed with status: 404");
        }
        Ok(_) => panic!("a 404 response must fail the load"),
    }
}

#[test]
fn loading_inside_and_outside_a_scheduler_agree() {
    // The facade's decisions depend only on their arguments, so driving
    // them from a worker of a cooperative scheduler and from a plain
    // synchronous caller must give equal results, and both must complete.
    let loader = DefaultModelLoader;
    let plain_plan = loader.plan(Model::Siamese, false);
    let plain_session = loader.load(Model::Siamese, vec![1, 2, 3]).unwrap();

    let rt = tokio::runtime::Builder::new_multi_thread()
        .enable_all()
        .build()
        .unwrap();
    let (scheduled_plan, scheduled_session) = rt.block_on(async {
        let loader = DefaultModelLoader;
        let plan = loader.plan(Model::Siamese, false);
        let session = loader.load(Model::Siamese, vec![1, 2, 3]).unwrap();
        (plan, session)
    });

    assert_eq!(plain_plan, scheduled_plan);
    assert_eq!(plain_session, scheduled_session);
}
