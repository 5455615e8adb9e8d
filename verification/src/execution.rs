//! How sessions of ONNX Runtime are set up.
use crate::error::ModelError;
use crate::runtime::{
    builder_options, coreml_build, coreml_default, coreml_with_compute_units,
    coreml_with_model_cache_dir, cpu, cuda, directml, dispatched, is_c_text, migraphx, nnapi,
    no_options, openvino, owned_text, path_text, path_to_text, plain_provider, qnn_build,
    qnn_default, qnn_with_arbitrary_config, qnn_with_backend_path, refuses, refuses_providers,
    tell_inter_threads, tell_intra_threads, tell_optimization, tell_providers, tensorrt,
    vitis_build, vitis_default, vitis_with_cache_dir, vitis_with_cache_key, vitis_with_config_file,
    webgpu, Provider, SessionOption,
};
use crate::text::is_free_of_nul;
use ort::ep::coreml::ComputeUnits;
use ort::ep::ExecutionProviderDispatch;
use ort::session::builder::{GraphOptimizationLevel, SessionBuilder};
use std::path::PathBuf;
use vstd::prelude::*;

verus! {

/// Hardware acceleration. The CPU is the default and the most reliable. Every other choice falls
/// back to the CPU where it fails.
#[derive(Debug, Clone, Copy, PartialEq, Eq, Structural)]
pub enum ExecutionProvider {
    Cpu,
    Cuda,
    TensorRT,
    CoreML,
    DirectML,
    MIGraphX,
    OpenVINO,
    /// Experimental.
    WebGPU,
    NNAPI,
    VitisAI,
    QNN,
}

impl Default for ExecutionProvider {
    fn default() -> (r: Self)
        ensures
            r == ExecutionProvider::Cpu,
    {
        ExecutionProvider::Cpu
    }
}

/// How sessions are set up. `C` is the type of a function that has the last word on the session
/// builder.
#[derive(Clone)]
pub struct ModelConfig<C> {
    pub execution_provider: ExecutionProvider,
    pub intra_threads: usize,
    pub inter_threads: usize,
    /// What is done to the session builder last.
    pub configure: Option<C>,
    /// Where CoreML keeps compiled models. Only read for `ExecutionProvider::CoreML`.
    pub coreml_cache_dir: Option<PathBuf>,
    /// The configuration file of Vitis AI. Only read for `ExecutionProvider::VitisAI`.
    pub vitisai_config_file: Option<PathBuf>,
    /// Where Vitis AI keeps compiled models. Only read for `ExecutionProvider::VitisAI`.
    pub vitisai_cache_dir: Option<PathBuf>,
    /// The subdirectory of the Vitis AI cache. Only read for `ExecutionProvider::VitisAI`.
    pub vitisai_cache_key: Option<String>,
    /// Where context models of ONNX Runtime are kept.
    pub ep_context_cache_dir: Option<PathBuf>,
}

impl<C> Default for ModelConfig<C> {
    fn default() -> (r: Self)
        ensures
            r == ModelConfig::<C>::initial(),
    {
        ModelConfig {
            execution_provider: ExecutionProvider::default(),
            intra_threads: 4,
            inter_threads: 1,
            configure: None,
            coreml_cache_dir: None,
            vitisai_config_file: None,
            vitisai_cache_dir: None,
            vitisai_cache_key: None,
            ep_context_cache_dir: None,
        }
    }
}

impl<C> ModelConfig<C> {
    /// The configuration to start from: the CPU, four threads within a node, one across nodes,
    /// and nothing else.
    pub open spec fn initial() -> Self {
        ModelConfig {
            execution_provider: ExecutionProvider::Cpu,
            intra_threads: 4,
            inter_threads: 1,
            configure: None,
            coreml_cache_dir: None,
            vitisai_config_file: None,
            vitisai_cache_dir: None,
            vitisai_cache_key: None,
            ep_context_cache_dir: None,
        }
    }

    pub fn new() -> (r: Self)
        ensures
            r == ModelConfig::<C>::initial(),
    {
        Self::default()
    }

    pub fn with_execution_provider(self, provider: ExecutionProvider) -> (r: Self)
        ensures
            r == (ModelConfig { execution_provider: provider, ..self }),
    {
        let mut config = self;
        config.execution_provider = provider;
        config
    }

    pub fn with_intra_threads(self, threads: usize) -> (r: Self)
        ensures
            r == (ModelConfig { intra_threads: threads, ..self }),
    {
        let mut config = self;
        config.intra_threads = threads;
        config
    }

    pub fn with_inter_threads(self, threads: usize) -> (r: Self)
        ensures
            r == (ModelConfig { inter_threads: threads, ..self }),
    {
        let mut config = self;
        config.inter_threads = threads;
        config
    }

    /// Sets what is done to the session builder last.
    pub fn with_custom_configure(self, configure: C) -> (r: Self)
        ensures
            r == (ModelConfig { configure: Some(configure), ..self }),
    {
        let mut config = self;
        config.configure = Some(configure);
        config
    }

    /// How the function that has the last word is shown: it is there, or it is not.
    pub fn configure_label(&self) -> (r: &'static str)
        ensures
            r@ == if self.configure is Some {
                "<fn>"@
            } else {
                "None"@
            },
    {
        if self.configure.is_some() {
            "<fn>"
        } else {
            "None"
        }
    }

    /// Sets where CoreML keeps compiled models.
    pub fn with_coreml_cache_dir<P: Into<PathBuf>>(self, path: P) -> (r: Self)
        ensures
            r == (ModelConfig { coreml_cache_dir: r.coreml_cache_dir, ..self }),
            r.coreml_cache_dir matches Some(dir) && call_ensures(P::into, (path,), dir),
    {
        let mut config = self;
        config.coreml_cache_dir = Some(path.into());
        config
    }

    /// Sets the configuration file of Vitis AI.
    pub fn with_vitisai_config_file<P: Into<PathBuf>>(self, path: P) -> (r: Self)
        ensures
            r == (ModelConfig { vitisai_config_file: r.vitisai_config_file, ..self }),
            r.vitisai_config_file matches Some(file) && call_ensures(P::into, (path,), file),
    {
        let mut config = self;
        config.vitisai_config_file = Some(path.into());
        config
    }

    /// Sets where Vitis AI keeps compiled models.
    pub fn with_vitisai_cache_dir<P: Into<PathBuf>>(self, path: P) -> (r: Self)
        ensures
            r == (ModelConfig { vitisai_cache_dir: r.vitisai_cache_dir, ..self }),
            r.vitisai_cache_dir matches Some(dir) && call_ensures(P::into, (path,), dir),
    {
        let mut config = self;
        config.vitisai_cache_dir = Some(path.into());
        config
    }

    /// Sets the subdirectory of the Vitis AI cache.
    pub fn with_vitisai_cache_key<K: Into<String>>(self, key: K) -> (r: Self)
        ensures
            r == (ModelConfig { vitisai_cache_key: r.vitisai_cache_key, ..self }),
            r.vitisai_cache_key matches Some(text) && call_ensures(K::into, (key,), text),
    {
        let mut config = self;
        config.vitisai_cache_key = Some(key.into());
        config
    }

    /// Sets where context models of ONNX Runtime are kept.
    pub fn with_ep_context_cache_dir<P: Into<PathBuf>>(self, path: P) -> (r: Self)
        ensures
            r == (ModelConfig { ep_context_cache_dir: r.ep_context_cache_dir, ..self }),
            r.ep_context_cache_dir matches Some(dir) && call_ensures(P::into, (path,), dir),
    {
        let mut config = self;
        config.ep_context_cache_dir = Some(path.into());
        config
    }
}

/// A text that is to be set as an option, where there is one, can be handed to C.
pub open spec fn is_c_path(path: Option<PathBuf>) -> bool {
    path matches Some(path) ==> is_c_text(path_text(path))
}

/// The options of CoreML: the CPU and the GPU, and the cache directory where there is one.
pub open spec fn coreml_settings(cache_dir: Option<PathBuf>) -> Map<Seq<char>, Seq<char>> {
    let options = no_options().insert("MLComputeUnits"@, "CPUAndGPU"@);
    match cache_dir {
        Some(dir) => options.insert("ModelCacheDirectory"@, path_text(dir)),
        None => options,
    }
}

/// The options of Vitis AI: the configuration file, the cache directory and the cache key, each
/// where there is one.
pub open spec fn vitisai_settings(
    config_file: Option<PathBuf>,
    cache_dir: Option<PathBuf>,
    cache_key: Option<String>,
) -> Map<Seq<char>, Seq<char>> {
    let options = match config_file {
        Some(file) => no_options().insert("config_file"@, path_text(file)),
        None => no_options(),
    };
    let options = match cache_dir {
        Some(dir) => options.insert("cache_dir"@, path_text(dir)),
        None => options,
    };
    match cache_key {
        Some(key) => options.insert("cache_key"@, key@),
        None => options,
    }
}

/// The options of QNN.
pub open spec fn qnn_settings() -> Map<Seq<char>, Seq<char>> {
    no_options().insert("backend_path"@, "QnnHtp.dll"@).insert(
        "htp_performance_mode"@,
        "burst"@,
    ).insert("enable_htp_fp16_precision"@, "1"@).insert(
        "htp_graph_finalization_optimization_mode"@,
        "3"@,
    )
}

/// The CPU as the execution provider to fall back to: it has to work.
pub open spec fn cpu_fallback() -> Provider {
    Provider { error_on_failure: true, ..plain_provider("CPUExecutionProvider"@) }
}

impl<C> ModelConfig<C> {
    /// The texts that the execution provider is given as options can be handed to C.
    pub open spec fn has_valid_option_texts(self) -> bool {
        match self.execution_provider {
            ExecutionProvider::CoreML => is_c_path(self.coreml_cache_dir),
            ExecutionProvider::VitisAI => {
                &&& is_c_path(self.vitisai_config_file)
                &&& is_c_path(self.vitisai_cache_dir)
                &&& self.vitisai_cache_key matches Some(key) ==> is_c_text(key@)
            },
            _ => true,
        }
    }

    /// The execution provider that accelerates, where it is not the CPU itself.
    pub open spec fn accelerator(self) -> Provider {
        match self.execution_provider {
            ExecutionProvider::Cpu => plain_provider("CPUExecutionProvider"@),
            ExecutionProvider::Cuda => plain_provider("CUDAExecutionProvider"@),
            ExecutionProvider::TensorRT => plain_provider("TensorrtExecutionProvider"@),
            ExecutionProvider::CoreML => Provider {
                name: "CoreMLExecutionProvider"@,
                options: coreml_settings(self.coreml_cache_dir),
                error_on_failure: false,
            },
            ExecutionProvider::DirectML => plain_provider("DmlExecutionProvider"@),
            ExecutionProvider::MIGraphX => plain_provider("MIGraphXExecutionProvider"@),
            ExecutionProvider::OpenVINO => plain_provider("OpenVINOExecutionProvider"@),
            ExecutionProvider::WebGPU => plain_provider("WebGpuExecutionProvider"@),
            ExecutionProvider::NNAPI => plain_provider("NnapiExecutionProvider"@),
            ExecutionProvider::VitisAI => Provider {
                name: "VitisAIExecutionProvider"@,
                options: vitisai_settings(
                    self.vitisai_config_file,
                    self.vitisai_cache_dir,
                    self.vitisai_cache_key,
                ),
                error_on_failure: false,
            },
            ExecutionProvider::QNN => Provider {
                name: "QNNExecutionProvider"@,
                options: qnn_settings(),
                error_on_failure: false,
            },
        }
    }

    /// The execution providers to register, in order: none for the CPU, which needs none;
    /// otherwise the accelerator and the CPU to fall back to.
    pub open spec fn providers(self) -> Seq<Provider> {
        if self.execution_provider == ExecutionProvider::Cpu {
            seq![]
        } else {
            seq![self.accelerator(), cpu_fallback()]
        }
    }

    /// What a session builder is told: all graph optimizations, the numbers of threads, and the
    /// execution providers where there are any.
    pub open spec fn session_options(self) -> Seq<SessionOption> {
        let options = seq![
            SessionOption::Optimization(GraphOptimizationLevel::Level3),
            SessionOption::IntraThreads(self.intra_threads),
            SessionOption::InterThreads(self.inter_threads),
        ];
        if self.execution_provider == ExecutionProvider::Cpu {
            options
        } else {
            options.push(SessionOption::Providers(self.providers()))
        }
    }

    /// The execution providers to register, in order.
    pub fn execution_providers(&self) -> (r: Vec<ExecutionProviderDispatch>)
        requires
            self.has_valid_option_texts(),
        ensures
            r@.map_values(|dispatch: ExecutionProviderDispatch| dispatched(dispatch))
                == self.providers(),
    {
        let mut providers: Vec<ExecutionProviderDispatch> = Vec::new();
        let accelerator = match self.execution_provider {
            ExecutionProvider::Cpu => {
                assert(providers@.map_values(
                    |dispatch: ExecutionProviderDispatch| dispatched(dispatch),
                ) =~= self.providers());
                return providers;
            },
            ExecutionProvider::Cuda => cuda(),
            ExecutionProvider::TensorRT => tensorrt(),
            ExecutionProvider::CoreML => self.coreml_provider(),
            ExecutionProvider::DirectML => directml(),
            ExecutionProvider::MIGraphX => migraphx(),
            ExecutionProvider::OpenVINO => openvino(),
            ExecutionProvider::WebGPU => webgpu(),
            ExecutionProvider::NNAPI => nnapi(),
            ExecutionProvider::VitisAI => self.vitisai_provider(),
            ExecutionProvider::QNN => qnn_provider(),
        };
        providers.push(accelerator);
        providers.push(cpu().error_on_failure());
        assert(providers@.map_values(
            |dispatch: ExecutionProviderDispatch| dispatched(dispatch),
        ) =~= self.providers());
        providers
    }

    /// The CoreML execution provider.
    fn coreml_provider(&self) -> (r: ExecutionProviderDispatch)
        requires
            is_c_path(self.coreml_cache_dir),
        ensures
            dispatched(r) == (Provider {
                name: "CoreMLExecutionProvider"@,
                options: coreml_settings(self.coreml_cache_dir),
                error_on_failure: false,
            }),
    {
        let mut provider = coreml_with_compute_units(coreml_default(), ComputeUnits::CPUAndGPU);
        if let Some(dir) = &self.coreml_cache_dir {
            let text = path_to_text(dir);
            provider = coreml_with_model_cache_dir(provider, text.as_str());
        }
        coreml_build(provider)
    }

    /// The Vitis AI execution provider.
    fn vitisai_provider(&self) -> (r: ExecutionProviderDispatch)
        requires
            is_c_path(self.vitisai_config_file),
            is_c_path(self.vitisai_cache_dir),
            self.vitisai_cache_key matches Some(key) ==> is_c_text(key@),
        ensures
            dispatched(r) == (Provider {
                name: "VitisAIExecutionProvider"@,
                options: vitisai_settings(
                    self.vitisai_config_file,
                    self.vitisai_cache_dir,
                    self.vitisai_cache_key,
                ),
                error_on_failure: false,
            }),
    {
        let mut provider = vitis_default();
        if let Some(file) = &self.vitisai_config_file {
            let text = path_to_text(file);
            provider = vitis_with_config_file(provider, text.as_str());
        }
        if let Some(dir) = &self.vitisai_cache_dir {
            let text = path_to_text(dir);
            provider = vitis_with_cache_dir(provider, text.as_str());
        }
        if let Some(key) = &self.vitisai_cache_key {
            provider = vitis_with_cache_key(provider, key.as_str());
        }
        vitis_build(provider)
    }

    /// Whether the texts that the execution provider is given as options can be handed to C.
    pub fn check_option_texts(&self) -> (r: bool)
        ensures
            r == self.has_valid_option_texts(),
    {
        match self.execution_provider {
            ExecutionProvider::CoreML => check_path(&self.coreml_cache_dir),
            ExecutionProvider::VitisAI => {
                let key_valid = match &self.vitisai_cache_key {
                    Some(key) => is_free_of_nul(key.as_str()),
                    None => true,
                };
                key_valid && check_path(&self.vitisai_config_file) && check_path(
                    &self.vitisai_cache_dir,
                )
            },
            _ => true,
        }
    }
}

/// Whether a path, where there is one, can be handed to C.
fn check_path(path: &Option<PathBuf>) -> (r: bool)
    ensures
        r == is_c_path(*path),
{
    match path {
        Some(path) => {
            let text = path_to_text(path);
            is_free_of_nul(text.as_str())
        },
        None => true,
    }
}

/// The QNN execution provider: the backend of the NPU in its fastest mode.
fn qnn_provider() -> (r: ExecutionProviderDispatch)
    ensures
        dispatched(r) == (Provider {
            name: "QNNExecutionProvider"@,
            options: qnn_settings(),
            error_on_failure: false,
        }),
{
    proof {
        reveal_strlit("QnnHtp.dll");
        reveal_strlit("htp_performance_mode");
        reveal_strlit("burst");
        reveal_strlit("enable_htp_fp16_precision");
        reveal_strlit("1");
        reveal_strlit("htp_graph_finalization_optimization_mode");
        reveal_strlit("3");
    }
    let provider = qnn_with_backend_path(qnn_default(), "QnnHtp.dll");
    let provider = qnn_with_arbitrary_config(provider, "htp_performance_mode", "burst");
    let provider = qnn_with_arbitrary_config(provider, "enable_htp_fp16_precision", "1");
    let provider = qnn_with_arbitrary_config(
        provider,
        "htp_graph_finalization_optimization_mode",
        "3",
    );
    qnn_build(provider)
}

/// A builder has been told these options on top of what another one had been told.
pub open spec fn told(
    builder: SessionBuilder,
    options: Seq<SessionOption>,
    next: SessionBuilder,
) -> bool {
    builder_options(next) == builder_options(builder) + options
}

/// A builder that has been told the first of some options, and then the next one, has been told
/// those.
pub(crate) proof fn lemma_told_next(
    builder: SessionBuilder,
    options: Seq<SessionOption>,
    i: int,
    mid: SessionBuilder,
    next: SessionBuilder,
)
    requires
        0 <= i < options.len(),
        told(builder, options.take(i), mid),
        builder_options(next) == builder_options(mid).push(options[i]),
    ensures
        told(builder, options.take(i + 1), next),
{
    assert(builder_options(next) =~= builder_options(builder) + options.take(i + 1));
}

/// A builder that is told these options one after the other can refuse one of them with this
/// error: it has been told those before it, and the error is that of the method for it.
pub open spec fn refused(
    builder: SessionBuilder,
    options: Seq<SessionOption>,
    error: ort::Error<SessionBuilder>,
) -> bool {
    exists|i: int, mid: SessionBuilder|
        0 <= i < options.len() && #[trigger] told(builder, options.take(i), mid) && refuses(
            mid,
            options[i],
            error,
        )
}

/// What telling a builder something comes to: the builder goes on, or its error is the error.
pub fn builder_outcome(outcome: Result<SessionBuilder, ort::Error<SessionBuilder>>) -> (r: Result<
    SessionBuilder,
    ModelError,
>)
    ensures
        match outcome {
            Ok(builder) => r == Ok::<SessionBuilder, ModelError>(builder),
            Err(error) => r == Err::<SessionBuilder, ModelError>(ModelError::Builder(error)),
        },
{
    match outcome {
        Ok(builder) => Ok(builder),
        Err(error) => Err(ModelError::Builder(error)),
    }
}

/// What the last word on the builder comes to: the builder goes on, or its error is the error.
pub fn configure_outcome(outcome: Result<SessionBuilder, ort::Error>) -> (r: Result<
    SessionBuilder,
    ModelError,
>)
    ensures
        match outcome {
            Ok(builder) => r == Ok::<SessionBuilder, ModelError>(builder),
            Err(error) => r == Err::<SessionBuilder, ModelError>(ModelError::Runtime(error)),
        },
{
    match outcome {
        Ok(builder) => Ok(builder),
        Err(error) => Err(ModelError::Runtime(error)),
    }
}

impl<C: Fn(SessionBuilder) -> Result<SessionBuilder, ort::Error>> ModelConfig<C> {
    /// The function that has the last word, where there is one, can be called.
    pub open spec fn can_configure(self) -> bool {
        self.configure matches Some(configure) ==> forall|builder: SessionBuilder|
            call_requires(configure, (builder,))
    }

    /// What the last word on the builder can come to; without one the builder stays as it is.
    pub open spec fn configures(
        self,
        builder: SessionBuilder,
        outcome: Result<SessionBuilder, ort::Error>,
    ) -> bool {
        match self.configure {
            Some(configure) => call_ensures(configure, (builder,), outcome),
            None => outcome == Ok::<SessionBuilder, ort::Error>(builder),
        }
    }

    /// What applying the configuration to a builder can come to: the builder is told the session
    /// options, and then comes the last word; an error is that of the first session option that
    /// was refused, or that of the last word.
    pub open spec fn applies(
        self,
        builder: SessionBuilder,
        outcome: Result<SessionBuilder, ModelError>,
    ) -> bool {
        match outcome {
            Ok(next) => exists|mid: SessionBuilder| #[trigger]
                told(builder, self.session_options(), mid) && self.configures(mid, Ok(next)),
            Err(ModelError::Runtime(error)) => exists|mid: SessionBuilder| #[trigger]
                told(builder, self.session_options(), mid) && self.configures(mid, Err(error)),
            Err(ModelError::Builder(error)) => refused(builder, self.session_options(), error),
            Err(_) => false,
        }
    }

    /// Sets up a session builder.
    pub fn apply_to_session_builder(&self, builder: SessionBuilder) -> (r: Result<
        SessionBuilder,
        ModelError,
    >)
        requires
            self.has_valid_option_texts(),
            self.can_configure(),
        ensures
            self.applies(builder, r),
    {
        let ghost start = builder;
        let ghost options = self.session_options();
        assert(told(start, options.take(0), builder));
        let builder = match builder_outcome(
            tell_optimization(builder, GraphOptimizationLevel::Level3),
        ) {
            Ok(next) => {
                proof {
                    lemma_told_next(start, options, 0, builder, next);
                }
                next
            },
            Err(error) => {
                return Err(error);
            },
        };
        let builder = match builder_outcome(tell_intra_threads(builder, self.intra_threads)) {
            Ok(next) => {
                proof {
                    lemma_told_next(start, options, 1, builder, next);
                }
                next
            },
            Err(error) => {
                return Err(error);
            },
        };
        let builder = match builder_outcome(tell_inter_threads(builder, self.inter_threads)) {
            Ok(next) => {
                proof {
                    lemma_told_next(start, options, 2, builder, next);
                }
                next
            },
            Err(error) => {
                return Err(error);
            },
        };
        let builder = if self.execution_provider == ExecutionProvider::Cpu {
            builder
        } else {
            match builder_outcome(tell_providers(builder, self.execution_providers())) {
                Ok(next) => {
                    proof {
                        lemma_told_next(start, options, 3, builder, next);
                    }
                    next
                },
                Err(error) => {
                    return Err(error);
                },
            }
        };
        assert(options.take(options.len() as int) =~= options);
        assert(told(start, options, builder));
        match &self.configure {
            Some(configure) => configure_outcome(configure(builder)),
            None => Ok(builder),
        }
    }

    /// Sets up a session builder where the option texts can be handed to C; `None` where they
    /// cannot.
    pub fn checked_apply_to_session_builder(&self, builder: SessionBuilder) -> (r: Option<
        Result<SessionBuilder, ModelError>,
    >)
        requires
            self.can_configure(),
        ensures
            match r {
                Some(outcome) => self.has_valid_option_texts() && self.applies(builder, outcome),
                None => !self.has_valid_option_texts(),
            },
    {
        if self.check_option_texts() {
            Some(self.apply_to_session_builder(builder))
        } else {
            None
        }
    }
}

/// Every accelerator falls back to the CPU: it may fail to register, and behind it stands the
/// CPU, which may not.
pub proof fn law_falls_back_to_the_cpu<C>(config: ModelConfig<C>)
    requires
        config.execution_provider != ExecutionProvider::Cpu,
    ensures
        config.providers().len() == 2,
        !config.providers()[0].error_on_failure,
        config.providers()[1] == cpu_fallback(),
        cpu_fallback().error_on_failure,
        config.session_options().last() == SessionOption::Providers(config.providers()),
{
}

/// The cache directory of CoreML is only read for CoreML.
pub proof fn law_coreml_cache_is_only_for_coreml<C>(config: ModelConfig<C>, dir: Option<PathBuf>)
    requires
        config.execution_provider != ExecutionProvider::CoreML,
    ensures
        (ModelConfig { coreml_cache_dir: dir, ..config }).session_options()
            == config.session_options(),
        (ModelConfig { coreml_cache_dir: dir, ..config }).has_valid_option_texts()
            == config.has_valid_option_texts(),
{
}

/// What is set for Vitis AI is only read for Vitis AI.
pub proof fn law_vitisai_settings_are_only_for_vitisai<C>(
    config: ModelConfig<C>,
    config_file: Option<PathBuf>,
    cache_dir: Option<PathBuf>,
    cache_key: Option<String>,
)
    requires
        config.execution_provider != ExecutionProvider::VitisAI,
    ensures
        ({
            let other = ModelConfig {
                vitisai_config_file: config_file,
                vitisai_cache_dir: cache_dir,
                vitisai_cache_key: cache_key,
                ..config
            };
            &&& other.session_options() == config.session_options()
            &&& other.has_valid_option_texts() == config.has_valid_option_texts()
        }),
{
}

/// The identifier that ONNX Runtime has for an execution provider.
pub open spec fn provider_name(provider: ExecutionProvider) -> Seq<char> {
    match provider {
        ExecutionProvider::Cpu => "CPUExecutionProvider"@,
        ExecutionProvider::Cuda => "CUDAExecutionProvider"@,
        ExecutionProvider::TensorRT => "TensorrtExecutionProvider"@,
        ExecutionProvider::CoreML => "CoreMLExecutionProvider"@,
        ExecutionProvider::DirectML => "DmlExecutionProvider"@,
        ExecutionProvider::MIGraphX => "MIGraphXExecutionProvider"@,
        ExecutionProvider::OpenVINO => "OpenVINOExecutionProvider"@,
        ExecutionProvider::WebGPU => "WebGpuExecutionProvider"@,
        ExecutionProvider::NNAPI => "NnapiExecutionProvider"@,
        ExecutionProvider::VitisAI => "VitisAIExecutionProvider"@,
        ExecutionProvider::QNN => "QNNExecutionProvider"@,
    }
}

/// The option of this key is set to this value, or not set where there is none.
pub open spec fn option_is(
    options: Map<Seq<char>, Seq<char>>,
    key: Seq<char>,
    value: Option<Seq<char>>,
) -> bool {
    match value {
        Some(value) => options.contains_key(key) && options[key] == value,
        None => !options.contains_key(key),
    }
}

/// The text of a path, where there is one.
pub open spec fn optional_path_text(path: Option<PathBuf>) -> Option<Seq<char>> {
    match path {
        Some(path) => Some(path_text(path)),
        None => None,
    }
}

/// The options are those that belong to the execution provider, each with what is set for it, and
/// no others.
pub open spec fn has_own_options<C>(
    config: ModelConfig<C>,
    options: Map<Seq<char>, Seq<char>>,
) -> bool {
    match config.execution_provider {
        ExecutionProvider::CoreML => {
            &&& option_is(options, "MLComputeUnits"@, Some("CPUAndGPU"@))
            &&& option_is(
                options,
                "ModelCacheDirectory"@,
                optional_path_text(config.coreml_cache_dir),
            )
            &&& forall|key: Seq<char>| #[trigger]
                options.contains_key(key) ==> key == "MLComputeUnits"@ || key
                    == "ModelCacheDirectory"@
        },
        ExecutionProvider::VitisAI => {
            &&& option_is(options, "config_file"@, optional_path_text(config.vitisai_config_file))
            &&& option_is(options, "cache_dir"@, optional_path_text(config.vitisai_cache_dir))
            &&& option_is(options, "cache_key"@, owned_text(config.vitisai_cache_key))
            &&& forall|key: Seq<char>| #[trigger]
                options.contains_key(key) ==> key == "config_file"@ || key == "cache_dir"@ || key
                    == "cache_key"@
        },
        ExecutionProvider::QNN => {
            &&& option_is(options, "backend_path"@, Some("QnnHtp.dll"@))
            &&& option_is(options, "htp_performance_mode"@, Some("burst"@))
            &&& option_is(options, "enable_htp_fp16_precision"@, Some("1"@))
            &&& option_is(options, "htp_graph_finalization_optimization_mode"@, Some("3"@))
            &&& forall|key: Seq<char>| #[trigger]
                options.contains_key(key) ==> key == "backend_path"@ || key
                    == "htp_performance_mode"@ || key == "enable_htp_fp16_precision"@ || key
                    == "htp_graph_finalization_optimization_mode"@
        },
        _ => forall|key: Seq<char>| !#[trigger] options.contains_key(key),
    }
}

/// The execution provider of the configuration comes first and may fail to register; behind it
/// comes the CPU without options, which may not.
pub open spec fn has_fallback<C>(config: ModelConfig<C>, providers: Seq<Provider>) -> bool {
    &&& providers.len() == 2
    &&& providers[0].name == provider_name(config.execution_provider)
    &&& has_own_options(config, providers[0].options)
    &&& !providers[0].error_on_failure
    &&& providers[1].name == "CPUExecutionProvider"@
    &&& forall|key: Seq<char>| !#[trigger] providers[1].options.contains_key(key)
    &&& providers[1].error_on_failure
}

/// On top of what it had been told, the builder has been told the level of optimization, both
/// numbers of threads and, unless the CPU is meant, the execution providers, and nothing else.
pub open spec fn is_set_up<C>(
    config: ModelConfig<C>,
    builder: SessionBuilder,
    next: SessionBuilder,
) -> bool {
    let before = builder_options(builder);
    let now = builder_options(next);
    let n = before.len() as int;
    &&& before.is_prefix_of(now)
    &&& now.len() == n + if config.execution_provider is Cpu {
        3int
    } else {
        4int
    }
    &&& now[n] == SessionOption::Optimization(GraphOptimizationLevel::Level3)
    &&& now[n + 1] == SessionOption::IntraThreads(config.intra_threads)
    &&& now[n + 2] == SessionOption::InterThreads(config.inter_threads)
    &&& !(config.execution_provider is Cpu) ==> (now[n + 3] matches SessionOption::Providers(
        providers,
    ) && has_fallback(config, providers))
}

/// The execution providers of a configuration are its own with its options, and the CPU to fall
/// back to.
pub proof fn law_providers_are_its_own<C>(config: ModelConfig<C>)
    requires
        !(config.execution_provider is Cpu),
    ensures
        has_fallback(config, config.providers()),
{
    reveal_strlit("MLComputeUnits");
    reveal_strlit("ModelCacheDirectory");
    reveal_strlit("config_file");
    reveal_strlit("cache_dir");
    reveal_strlit("cache_key");
    reveal_strlit("backend_path");
    reveal_strlit("htp_performance_mode");
    reveal_strlit("enable_htp_fp16_precision");
    reveal_strlit("htp_graph_finalization_optimization_mode");
    assert("cache_dir"@[6] != "cache_key"@[6]);
    assert("MLComputeUnits"@.len() != "ModelCacheDirectory"@.len());
    assert("config_file"@.len() != "cache_dir"@.len());
    assert("config_file"@.len() != "cache_key"@.len());
    assert("backend_path"@.len() == 12);
    assert("htp_performance_mode"@.len() == 20);
    assert("enable_htp_fp16_precision"@.len() == 25);
    assert("htp_graph_finalization_optimization_mode"@.len() == 40);
}

/// `execution_providers` gives the execution provider with its options and the CPU to fall back
/// to; for the CPU itself nothing.
pub proof fn law_execution_providers<C>(
    config: &ModelConfig<C>,
    r: Vec<ExecutionProviderDispatch>,
)
    requires
        call_ensures(ModelConfig::<C>::execution_providers, (config,), r),
    ensures
        config.execution_provider is Cpu ==> r@.len() == 0,
        !(config.execution_provider is Cpu) ==> has_fallback(
            *config,
            r@.map_values(|dispatch: ExecutionProviderDispatch| dispatched(dispatch)),
        ),
{
    let shown = r@.map_values(|dispatch: ExecutionProviderDispatch| dispatched(dispatch));
    assert(shown.len() == r@.len());
    if !(config.execution_provider is Cpu) {
        law_providers_are_its_own(*config);
    }
}

/// A builder that has been told the session options is set up.
proof fn lemma_told_is_set_up<C>(
    config: ModelConfig<C>,
    builder: SessionBuilder,
    next: SessionBuilder,
)
    requires
        told(builder, config.session_options(), next),
    ensures
        is_set_up(config, builder, next),
{
    if !(config.execution_provider is Cpu) {
        law_providers_are_its_own(config);
    }
    let before = builder_options(builder);
    assert(before =~= builder_options(next).subrange(0, before.len() as int));
}

/// An error of the builder is that of the first option that was refused: the level of
/// optimization, the threads within a node, those across nodes, or the execution providers. What
/// comes before it in this order the builder has been told.
pub open spec fn is_first_refusal<C>(
    config: ModelConfig<C>,
    builder: SessionBuilder,
    error: ort::Error<SessionBuilder>,
) -> bool {
    let reply = Err::<SessionBuilder, ort::Error<SessionBuilder>>(error);
    let level = GraphOptimizationLevel::Level3;
    let first = builder_options(builder).push(SessionOption::Optimization(level));
    let second = first.push(SessionOption::IntraThreads(config.intra_threads));
    let third = second.push(SessionOption::InterThreads(config.inter_threads));
    ||| exists|mid: SessionBuilder|
        builder_options(mid) == builder_options(builder) && #[trigger] call_ensures(
            SessionBuilder::with_optimization_level,
            (mid, level),
            reply,
        )
    ||| exists|mid: SessionBuilder|
        builder_options(mid) == first && #[trigger] call_ensures(
            SessionBuilder::with_intra_threads,
            (mid, config.intra_threads),
            reply,
        )
    ||| exists|mid: SessionBuilder|
        builder_options(mid) == second && #[trigger] call_ensures(
            SessionBuilder::with_inter_threads,
            (mid, config.inter_threads),
            reply,
        )
    ||| !(config.execution_provider is Cpu) && exists|
        mid: SessionBuilder,
        providers: Seq<Provider>,
    |
        builder_options(mid) == third && has_fallback(config, providers)
            && #[trigger] refuses_providers(mid, providers, error)
}

/// What setting up a builder comes to. Without a function that has the last word, the builder that
/// is set up. With one, what that function makes of the builder that is set up, or its error. Or
/// else the error of the first option that was refused.
pub open spec fn comes_to<C: Fn(SessionBuilder) -> Result<SessionBuilder, ort::Error>>(
    config: ModelConfig<C>,
    builder: SessionBuilder,
    outcome: Result<SessionBuilder, ModelError>,
) -> bool {
    match (outcome, config.configure) {
        (Ok(next), None) => is_set_up(config, builder, next),
        (Ok(next), Some(configure)) => exists|mid: SessionBuilder| #[trigger]
            is_set_up(config, builder, mid) && call_ensures(
                configure,
                (mid,),
                Ok::<SessionBuilder, ort::Error>(next),
            ),
        (Err(ModelError::Runtime(error)), Some(configure)) => exists|mid: SessionBuilder| #[trigger]
            is_set_up(config, builder, mid) && call_ensures(
                configure,
                (mid,),
                Err::<SessionBuilder, ort::Error>(error),
            ),
        (Err(ModelError::Builder(error)), _) => is_first_refusal(config, builder, error),
        _ => false,
    }
}

/// What applying a configuration can come to is what setting up a builder comes to.
pub proof fn law_configuration_is_applied<
    C: Fn(SessionBuilder) -> Result<SessionBuilder, ort::Error>,
>(config: ModelConfig<C>, builder: SessionBuilder, outcome: Result<SessionBuilder, ModelError>)
    requires
        config.applies(builder, outcome),
    ensures
        comes_to(config, builder, outcome),
{
    let options = config.session_options();
    match outcome {
        Ok(next) => {
            let mid = choose|mid: SessionBuilder| #[trigger]
                told(builder, options, mid) && config.configures(mid, Ok(next));
            lemma_told_is_set_up(config, builder, mid);
        },
        Err(ModelError::Runtime(error)) => {
            let mid = choose|mid: SessionBuilder| #[trigger]
                told(builder, options, mid) && config.configures(mid, Err(error));
            lemma_told_is_set_up(config, builder, mid);
        },
        Err(ModelError::Builder(error)) => {
            let (i, mid) = choose|i: int, mid: SessionBuilder|
                0 <= i < options.len() && #[trigger] told(builder, options.take(i), mid) && refuses(
                    mid,
                    options[i],
                    error,
                );
            let before = builder_options(builder);
            let level = GraphOptimizationLevel::Level3;
            let first = before.push(SessionOption::Optimization(level));
            let second = first.push(SessionOption::IntraThreads(config.intra_threads));
            let third = second.push(SessionOption::InterThreads(config.inter_threads));
            if i == 0 {
                assert(builder_options(mid) =~= before);
            } else if i == 1 {
                assert(builder_options(mid) =~= first);
            } else if i == 2 {
                assert(builder_options(mid) =~= second);
            } else {
                assert(builder_options(mid) =~= third);
                law_providers_are_its_own(config);
            }
        },
        Err(_) => {},
    }
}

/// `apply_to_session_builder` sets the builder up.
pub proof fn law_apply_to_session_builder<
    C: Fn(SessionBuilder) -> Result<SessionBuilder, ort::Error>,
>(config: &ModelConfig<C>, builder: SessionBuilder, r: Result<SessionBuilder, ModelError>)
    requires
        call_ensures(ModelConfig::<C>::apply_to_session_builder, (config, builder), r),
    ensures
        comes_to(*config, builder, r),
{
    law_configuration_is_applied(*config, builder, r);
}

/// A text that the execution provider would be given as an option has a NUL in it.
pub open spec fn has_nul_option<C>(config: ModelConfig<C>) -> bool {
    match config.execution_provider {
        ExecutionProvider::CoreML => config.coreml_cache_dir matches Some(dir) && path_text(
            dir,
        ).contains('\0'),
        ExecutionProvider::VitisAI => {
            ||| config.vitisai_config_file matches Some(file) && path_text(file).contains('\0')
            ||| config.vitisai_cache_dir matches Some(dir) && path_text(dir).contains('\0')
            ||| config.vitisai_cache_key matches Some(key) && key@.contains('\0')
        },
        _ => false,
    }
}

/// The option texts are valid where none has a NUL in it.
pub proof fn law_valid_option_texts<C>(config: ModelConfig<C>)
    ensures
        config.has_valid_option_texts() <==> !has_nul_option(config),
{
    if let Some(dir) = config.coreml_cache_dir {
        lemma_c_text(path_text(dir));
    }
    if let Some(file) = config.vitisai_config_file {
        lemma_c_text(path_text(file));
    }
    if let Some(dir) = config.vitisai_cache_dir {
        lemma_c_text(path_text(dir));
    }
    if let Some(key) = config.vitisai_cache_key {
        lemma_c_text(key@);
    }
}

/// What can be handed to C has no NUL in it.
proof fn lemma_c_text(text: Seq<char>)
    ensures
        is_c_text(text) <==> !text.contains('\0'),
{
    if !is_c_text(text) {
        let i = choose|i: int| 0 <= i < text.len() && #[trigger] text[i] == '\0';
        assert(text.contains(text[i]));
    }
}

/// `checked_apply_to_session_builder` sets the builder up exactly where no option text has a NUL
/// in it, and `check_option_texts` says whether that is so.
pub proof fn law_checked_apply_to_session_builder<
    C: Fn(SessionBuilder) -> Result<SessionBuilder, ort::Error>,
>(
    config: &ModelConfig<C>,
    builder: SessionBuilder,
    r: Option<Result<SessionBuilder, ModelError>>,
    valid: bool,
)
    requires
        call_ensures(ModelConfig::<C>::checked_apply_to_session_builder, (config, builder), r),
        call_ensures(ModelConfig::<C>::check_option_texts, (config,), valid),
    ensures
        r is None <==> has_nul_option(*config),
        valid <==> !has_nul_option(*config),
        r matches Some(outcome) ==> comes_to(*config, builder, outcome),
{
    law_valid_option_texts(*config);
    if let Some(outcome) = r {
        law_configuration_is_applied(*config, builder, outcome);
    }
}

/// A new configuration is for the CPU, with four threads within a node, one across nodes and
/// nothing else.
pub proof fn law_new_configuration<C>(r: ModelConfig<C>)
    requires
        call_ensures(ModelConfig::<C>::new, (), r),
    ensures
        r.execution_provider is Cpu,
        r.intra_threads == 4,
        r.inter_threads == 1,
        r.configure is None,
        r.coreml_cache_dir is None,
        r.vitisai_config_file is None,
        r.vitisai_cache_dir is None,
        r.vitisai_cache_key is None,
        r.ep_context_cache_dir is None,
{
}

/// Each of these settings is what it was last set to, whatever it was before, and setting one
/// leaves all others as they are.
pub proof fn law_settings<C>(
    config: ModelConfig<C>,
    provider: ExecutionProvider,
    threads: usize,
    configure: C,
    with_provider: ModelConfig<C>,
    with_intra: ModelConfig<C>,
    with_inter: ModelConfig<C>,
    with_configure: ModelConfig<C>,
    label: &'static str,
)
    requires
        call_ensures(
            ModelConfig::<C>::with_execution_provider,
            (config, provider),
            with_provider,
        ),
        call_ensures(ModelConfig::<C>::with_intra_threads, (config, threads), with_intra),
        call_ensures(ModelConfig::<C>::with_inter_threads, (config, threads), with_inter),
        call_ensures(ModelConfig::<C>::with_custom_configure, (config, configure), with_configure),
        call_ensures(ModelConfig::<C>::configure_label, (&config,), label),
    ensures
        with_provider == (ModelConfig { execution_provider: provider, ..config }),
        with_intra == (ModelConfig { intra_threads: threads, ..config }),
        with_inter == (ModelConfig { inter_threads: threads, ..config }),
        with_configure == (ModelConfig { configure: Some(configure), ..config }),
        label@ == if config.configure is None {
            "None"@
        } else {
            "<fn>"@
        },
{
}

/// Each of these paths and texts is what it was last set to, and setting one leaves all other
/// settings as they are.
pub proof fn law_paths_and_texts<C, P: Into<PathBuf>, K: Into<String>>(
    config: ModelConfig<C>,
    path: P,
    key: K,
    with_coreml: ModelConfig<C>,
    with_file: ModelConfig<C>,
    with_dir: ModelConfig<C>,
    with_key: ModelConfig<C>,
    with_contexts: ModelConfig<C>,
)
    requires
        call_ensures(ModelConfig::<C>::with_coreml_cache_dir::<P>, (config, path), with_coreml),
        call_ensures(ModelConfig::<C>::with_vitisai_config_file::<P>, (config, path), with_file),
        call_ensures(ModelConfig::<C>::with_vitisai_cache_dir::<P>, (config, path), with_dir),
        call_ensures(ModelConfig::<C>::with_vitisai_cache_key::<K>, (config, key), with_key),
        call_ensures(
            ModelConfig::<C>::with_ep_context_cache_dir::<P>,
            (config, path),
            with_contexts,
        ),
    ensures
        exists|set: PathBuf| #[trigger]
            call_ensures(P::into, (path,), set) && with_coreml == (ModelConfig {
                coreml_cache_dir: Some(set),
                ..config
            }),
        exists|set: PathBuf| #[trigger]
            call_ensures(P::into, (path,), set) && with_file == (ModelConfig {
                vitisai_config_file: Some(set),
                ..config
            }),
        exists|set: PathBuf| #[trigger]
            call_ensures(P::into, (path,), set) && with_dir == (ModelConfig {
                vitisai_cache_dir: Some(set),
                ..config
            }),
        exists|set: String| #[trigger]
            call_ensures(K::into, (key,), set) && with_key == (ModelConfig {
                vitisai_cache_key: Some(set),
                ..config
            }),
        exists|set: PathBuf| #[trigger]
            call_ensures(P::into, (path,), set) && with_contexts == (ModelConfig {
                ep_context_cache_dir: Some(set),
                ..config
            }),
{
}

}
