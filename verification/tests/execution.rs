use ort::ep::{CoreML, Vitis, QNN};
use ort::session::builder::SessionBuilder;
use parakeet_tdt::execution::{ExecutionProvider, ModelConfig};
use std::path::PathBuf;

type Config = ModelConfig<fn(SessionBuilder) -> Result<SessionBuilder, ort::Error>>;

fn unchanged(builder: SessionBuilder) -> Result<SessionBuilder, ort::Error> {
    Ok(builder)
}

fn shown(config: &Config) -> Vec<String> {
    config
        .execution_providers()
        .iter()
        .map(|provider| format!("{provider:?}"))
        .collect()
}

#[test]
fn default_is_the_cpu() {
    assert_eq!(ExecutionProvider::default(), ExecutionProvider::Cpu);
    for config in [Config::new(), Config::default()] {
        assert_eq!(config.execution_provider, ExecutionProvider::Cpu);
        assert_eq!(config.intra_threads, 4);
        assert_eq!(config.inter_threads, 1);
        assert!(config.configure.is_none());
        assert_eq!(config.configure_label(), "None");
        assert_eq!(config.coreml_cache_dir, None);
        assert_eq!(config.vitisai_config_file, None);
        assert_eq!(config.vitisai_cache_dir, None);
        assert_eq!(config.vitisai_cache_key, None);
        assert_eq!(config.ep_context_cache_dir, None);
        assert!(config.execution_providers().is_empty());
    }
}

#[test]
fn settings_are_kept() {
    let config = Config::new()
        .with_execution_provider(ExecutionProvider::OpenVINO)
        .with_intra_threads(8)
        .with_inter_threads(2)
        .with_custom_configure(unchanged)
        .with_coreml_cache_dir("coreml")
        .with_vitisai_config_file(PathBuf::from("vai_ep_config.json"))
        .with_vitisai_cache_dir("vitis".to_string())
        .with_vitisai_cache_key("key")
        .with_ep_context_cache_dir("contexts");
    let config = config.clone();
    assert_eq!(config.execution_provider, ExecutionProvider::OpenVINO);
    assert_eq!(config.intra_threads, 8);
    assert_eq!(config.inter_threads, 2);
    assert!(config.configure.is_some());
    assert_eq!(config.configure_label(), "<fn>");
    assert_eq!(config.coreml_cache_dir, Some(PathBuf::from("coreml")));
    assert_eq!(config.vitisai_config_file, Some(PathBuf::from("vai_ep_config.json")));
    assert_eq!(config.vitisai_cache_dir, Some(PathBuf::from("vitis")));
    assert_eq!(config.vitisai_cache_key, Some("key".to_string()));
    assert_eq!(config.ep_context_cache_dir, Some(PathBuf::from("contexts")));
}

#[test]
fn accelerators_fall_back_to_the_cpu() {
    let names = [
        (ExecutionProvider::Cuda, "CUDAExecutionProvider"),
        (ExecutionProvider::TensorRT, "TensorrtExecutionProvider"),
        (ExecutionProvider::CoreML, "CoreMLExecutionProvider"),
        (ExecutionProvider::DirectML, "DmlExecutionProvider"),
        (ExecutionProvider::MIGraphX, "MIGraphXExecutionProvider"),
        (ExecutionProvider::OpenVINO, "OpenVINOExecutionProvider"),
        (ExecutionProvider::WebGPU, "WebGpuExecutionProvider"),
        (ExecutionProvider::NNAPI, "NnapiExecutionProvider"),
        (ExecutionProvider::VitisAI, "VitisAIExecutionProvider"),
        (ExecutionProvider::QNN, "QNNExecutionProvider"),
    ];
    for (provider, name) in names {
        let config = Config::new().with_execution_provider(provider);
        assert_eq!(
            shown(&config),
            vec![
                format!("{name} {{ error_on_failure: false }}"),
                "CPUExecutionProvider { error_on_failure: true }".to_string(),
            ]
        );
    }
}

#[test]
fn coreml_gets_its_units_and_its_cache() {
    let config = Config::new().with_execution_provider(ExecutionProvider::CoreML);
    let providers = config.execution_providers();
    let coreml = providers[0].downcast_ref::<CoreML>().unwrap();
    assert_eq!(
        format!("{coreml:?}"),
        "CoreML { options: ExecutionProviderOptions({\"MLComputeUnits\": \"CPUAndGPU\"}) }"
    );
    let providers = config.with_coreml_cache_dir("/var/cache").execution_providers();
    let coreml = providers[0].downcast_ref::<CoreML>().unwrap();
    assert_eq!(
        format!("{coreml:?}"),
        "CoreML { options: ExecutionProviderOptions({\"MLComputeUnits\": \"CPUAndGPU\", \
         \"ModelCacheDirectory\": \"/var/cache\"}) }"
    );
}

#[test]
fn vitis_gets_what_is_set() {
    let config = Config::new().with_execution_provider(ExecutionProvider::VitisAI);
    let providers = config.execution_providers();
    let vitis = providers[0].downcast_ref::<Vitis>().unwrap();
    assert_eq!(format!("{vitis:?}"), "Vitis { options: ExecutionProviderOptions({}) }");
    let providers = config
        .with_vitisai_config_file("c.json")
        .with_vitisai_cache_dir("d")
        .with_vitisai_cache_key("k")
        .execution_providers();
    let vitis = providers[0].downcast_ref::<Vitis>().unwrap();
    assert_eq!(
        format!("{vitis:?}"),
        "Vitis { options: ExecutionProviderOptions({\"config_file\": \"c.json\", \
         \"cache_dir\": \"d\", \"cache_key\": \"k\"}) }"
    );
}

#[test]
fn qnn_runs_the_npu_at_its_fastest() {
    let config = Config::new().with_execution_provider(ExecutionProvider::QNN);
    let providers = config.execution_providers();
    let qnn = providers[0].downcast_ref::<QNN>().unwrap();
    assert_eq!(
        format!("{qnn:?}"),
        "QNN { options: ExecutionProviderOptions({\"backend_path\": \"QnnHtp.dll\", \
         \"htp_performance_mode\": \"burst\", \"enable_htp_fp16_precision\": \"1\", \
         \"htp_graph_finalization_optimization_mode\": \"3\"}) }"
    );
}

#[test]
fn settings_of_others_are_not_read() {
    let config = Config::new()
        .with_execution_provider(ExecutionProvider::Cuda)
        .with_coreml_cache_dir("a\0b")
        .with_vitisai_cache_key("a\0b");
    assert!(config.check_option_texts());
    assert_eq!(shown(&config).len(), 2);
}

#[test]
fn option_texts_hold_no_nul() {
    let coreml = Config::new().with_execution_provider(ExecutionProvider::CoreML);
    assert!(coreml.check_option_texts());
    assert!(coreml.clone().with_coreml_cache_dir("dir").check_option_texts());
    assert!(!coreml.with_coreml_cache_dir("d\0ir").check_option_texts());
    let vitis = Config::new().with_execution_provider(ExecutionProvider::VitisAI);
    assert!(vitis.clone().with_vitisai_cache_key("key").check_option_texts());
    assert!(!vitis.clone().with_vitisai_cache_key("key\0").check_option_texts());
    assert!(!vitis.clone().with_vitisai_cache_dir("\0").check_option_texts());
    assert!(!vitis.with_vitisai_config_file("\0").check_option_texts());
}
