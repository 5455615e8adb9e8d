//! What the library takes from `ort`, the binding of ONNX Runtime, and from `std::path`.
//!
//! A session builder can only be made once `ort` has an ONNX Runtime at hand, so with a builder the
//! methods below find the runtime in place. The exception is a process that handed `ort` a runtime
//! through `ort::set_api`, where no library is loaded: registering NNAPI looks a symbol up in that
//! library and panics there. Nothing here calls `ort::set_api`.
use ort::ep::coreml::ComputeUnits;
use ort::ep::ArbitrarilyConfigurableExecutionProvider;
use ort::ep::{CoreML, ExecutionProviderDispatch, Vitis, QNN};
use ort::session::builder::{GraphOptimizationLevel, SessionBuilder};
use std::path::PathBuf;
use vstd::prelude::*;

verus! {

/// `ort::session::builder::SessionBuilder`.
#[verifier::external_type_specification]
#[verifier::external_body]
pub struct ExSessionBuilder(ort::session::builder::SessionBuilder);

/// `ort::session::builder::GraphOptimizationLevel`.
#[verifier::external_type_specification]
pub struct ExGraphOptimizationLevel(ort::session::builder::GraphOptimizationLevel);

/// `ort::session::Session`.
#[verifier::external_type_specification]
#[verifier::external_body]
pub struct ExSession(ort::session::Session);

/// `ort::Error`.
#[verifier::external_type_specification]
#[verifier::external_body]
#[verifier::reject_recursive_types(R)]
pub struct ExError<R>(ort::Error<R>);

/// `ort::ep::ExecutionProviderDispatch`.
#[verifier::external_type_specification]
#[verifier::external_body]
pub struct ExExecutionProviderDispatch(ort::ep::ExecutionProviderDispatch);

/// `ort::ep::CoreML`.
#[verifier::external_type_specification]
#[verifier::external_body]
pub struct ExCoreML(ort::ep::CoreML);

/// `ort::ep::coreml::ComputeUnits`.
#[verifier::external_type_specification]
pub struct ExComputeUnits(ort::ep::coreml::ComputeUnits);

/// `ort::ep::Vitis`.
#[verifier::external_type_specification]
#[verifier::external_body]
pub struct ExVitis(ort::ep::Vitis);

/// `ort::ep::QNN`.
#[verifier::external_type_specification]
#[verifier::external_body]
pub struct ExQNN(ort::ep::QNN);

/// `std::path::PathBuf`.
#[verifier::external_type_specification]
#[verifier::external_body]
pub struct ExPathBuf(std::path::PathBuf);

/// An execution provider as a session builder is given it.
pub struct Provider {
    /// The identifier that ONNX Runtime knows it by.
    pub name: Seq<char>,
    /// The options that were set on it, by key.
    pub options: Map<Seq<char>, Seq<char>>,
    /// A failure to register it is an error and not passed over.
    pub error_on_failure: bool,
}

/// One thing that a session builder was told.
pub enum SessionOption {
    Optimization(GraphOptimizationLevel),
    IntraThreads(usize),
    InterThreads(usize),
    Providers(Seq<Provider>),
    ConfigEntry(Seq<char>, Seq<char>),
}

/// What a session builder was told, in order.
pub uninterp spec fn builder_options(builder: SessionBuilder) -> Seq<SessionOption>;

/// The identifier of the execution provider that is handed to a builder.
pub uninterp spec fn dispatch_name(dispatch: ExecutionProviderDispatch) -> Seq<char>;

/// The options of the execution provider that is handed to a builder, by key.
pub uninterp spec fn dispatch_options(dispatch: ExecutionProviderDispatch) -> Map<
    Seq<char>,
    Seq<char>,
>;

/// Whether a failure to register the execution provider is an error.
pub uninterp spec fn dispatch_error_on_failure(dispatch: ExecutionProviderDispatch) -> bool;

/// The options of a CoreML execution provider, by key.
pub uninterp spec fn coreml_options(provider: CoreML) -> Map<Seq<char>, Seq<char>>;

/// The options of a Vitis AI execution provider, by key.
pub uninterp spec fn vitis_options(provider: Vitis) -> Map<Seq<char>, Seq<char>>;

/// The options of a QNN execution provider, by key.
pub uninterp spec fn qnn_options(provider: QNN) -> Map<Seq<char>, Seq<char>>;

/// The text of a path; what of the path is not Unicode is replaced.
pub uninterp spec fn path_text(path: PathBuf) -> Seq<char>;

/// The name of the file that a path leads to without its extension, where there is one and it is
/// Unicode.
pub uninterp spec fn path_stem(path: PathBuf) -> Option<Seq<char>>;

/// The text of a string, where there is one.
pub open spec fn owned_text(string: Option<String>) -> Option<Seq<char>> {
    match string {
        Some(string) => Some(string@),
        None => None,
    }
}

/// No option is set.
pub open spec fn no_options() -> Map<Seq<char>, Seq<char>> {
    Map::empty()
}

/// The execution provider that is handed to a builder.
pub open spec fn dispatched(dispatch: ExecutionProviderDispatch) -> Provider {
    Provider {
        name: dispatch_name(dispatch),
        options: dispatch_options(dispatch),
        error_on_failure: dispatch_error_on_failure(dispatch),
    }
}

/// An execution provider without options, whose failure to register is passed over.
pub open spec fn plain_provider(name: Seq<char>) -> Provider {
    Provider { name, options: no_options(), error_on_failure: false }
}

/// The text can be handed to C: no character of it is NUL.
pub open spec fn is_c_text(text: Seq<char>) -> bool {
    forall|i: int| 0 <= i < text.len() ==> #[trigger] text[i] != '\0'
}

/// How CoreML reads a choice of compute units.
pub open spec fn compute_units_text(units: ComputeUnits) -> Seq<char> {
    match units {
        ComputeUnits::All => "ALL"@,
        ComputeUnits::CPUAndNeuralEngine => "CPUAndNeuralEngine"@,
        ComputeUnits::CPUAndGPU => "CPUAndGPU"@,
        ComputeUnits::CPUOnly => "CPUOnly"@,
    }
}

/// `ort::session::builder::SessionBuilder::with_optimization_level`: where ONNX Runtime accepts
/// it, the builder has been told the level. When ONNX Runtime accepts it is not stated.
pub assume_specification[ SessionBuilder::with_optimization_level ](
    builder: SessionBuilder,
    opt_level: GraphOptimizationLevel,
) -> (r: Result<SessionBuilder, ort::Error<SessionBuilder>>)
    ensures
        r matches Ok(next) ==> builder_options(next) == builder_options(builder).push(
            SessionOption::Optimization(opt_level),
        ),
;

/// `ort::session::builder::SessionBuilder::with_intra_threads`: where ONNX Runtime accepts it,
/// the builder has been told the number of threads within a node. When ONNX Runtime accepts it is
/// not stated.
pub assume_specification[ SessionBuilder::with_intra_threads ](
    builder: SessionBuilder,
    num_threads: usize,
) -> (r: Result<SessionBuilder, ort::Error<SessionBuilder>>)
    ensures
        r matches Ok(next) ==> builder_options(next) == builder_options(builder).push(
            SessionOption::IntraThreads(num_threads),
        ),
;

/// `ort::session::builder::SessionBuilder::with_inter_threads`: where ONNX Runtime accepts it,
/// the builder has been told the number of threads across nodes. When ONNX Runtime accepts it is
/// not stated.
pub assume_specification[ SessionBuilder::with_inter_threads ](
    builder: SessionBuilder,
    num_threads: usize,
) -> (r: Result<SessionBuilder, ort::Error<SessionBuilder>>)
    ensures
        r matches Ok(next) ==> builder_options(next) == builder_options(builder).push(
            SessionOption::InterThreads(num_threads),
        ),
;

/// `ort::session::builder::SessionBuilder::with_execution_providers`: where ONNX Runtime accepts
/// them, the builder has been told these execution providers in this order. When ONNX Runtime
/// accepts them is not stated. With NNAPI among them it panics in a process that called
/// `ort::set_api`.
#[verifier::external_body]
fn with_execution_providers(
    builder: SessionBuilder,
    providers: Vec<ExecutionProviderDispatch>,
) -> (r: Result<SessionBuilder, ort::Error<SessionBuilder>>)
    ensures
        r matches Ok(next) ==> builder_options(next) == builder_options(builder).push(
            SessionOption::Providers(
                providers@.map_values(|dispatch: ExecutionProviderDispatch| dispatched(dispatch)),
            ),
        ),
{
    builder.with_execution_providers(providers)
}

/// `ort::session::builder::SessionBuilder::with_config_entry`: where ONNX Runtime accepts it, the
/// builder has been told the entry. When ONNX Runtime accepts it is not stated.
#[verifier::external_body]
fn with_config_entry(builder: SessionBuilder, key: &str, value: &str) -> (r: Result<
    SessionBuilder,
    ort::Error<SessionBuilder>,
>)
    ensures
        r matches Ok(next) ==> builder_options(next) == builder_options(builder).push(
            SessionOption::ConfigEntry(key@, value@),
        ),
{
    builder.with_config_entry(key, value)
}

/// `ort::ep::ExecutionProviderDispatch::error_on_failure`: the same execution provider, whose
/// failure to register is an error.
pub assume_specification[ ExecutionProviderDispatch::error_on_failure ](
    dispatch: ExecutionProviderDispatch,
) -> (r: ExecutionProviderDispatch)
    ensures
        dispatch_name(r) == dispatch_name(dispatch),
        dispatch_options(r) == dispatch_options(dispatch),
        dispatch_error_on_failure(r),
;

/// `ort::ep::CPU::default` and `build`.
#[verifier::external_body]
pub(crate) fn cpu() -> (r: ExecutionProviderDispatch)
    ensures
        dispatched(r) == plain_provider("CPUExecutionProvider"@),
{
    ort::ep::CPU::default().build()
}

/// `ort::ep::CUDA::default` and `build`.
#[verifier::external_body]
pub(crate) fn cuda() -> (r: ExecutionProviderDispatch)
    ensures
        dispatched(r) == plain_provider("CUDAExecutionProvider"@),
{
    ort::ep::CUDA::default().build()
}

/// `ort::ep::TensorRT::default` and `build`.
#[verifier::external_body]
pub(crate) fn tensorrt() -> (r: ExecutionProviderDispatch)
    ensures
        dispatched(r) == plain_provider("TensorrtExecutionProvider"@),
{
    ort::ep::TensorRT::default().build()
}

/// `ort::ep::DirectML::default` and `build`.
#[verifier::external_body]
pub(crate) fn directml() -> (r: ExecutionProviderDispatch)
    ensures
        dispatched(r) == plain_provider("DmlExecutionProvider"@),
{
    ort::ep::DirectML::default().build()
}

/// `ort::ep::MIGraphX::default` and `build`.
#[verifier::external_body]
pub(crate) fn migraphx() -> (r: ExecutionProviderDispatch)
    ensures
        dispatched(r) == plain_provider("MIGraphXExecutionProvider"@),
{
    ort::ep::MIGraphX::default().build()
}

/// `ort::ep::OpenVINO::default` and `build`.
#[verifier::external_body]
pub(crate) fn openvino() -> (r: ExecutionProviderDispatch)
    ensures
        dispatched(r) == plain_provider("OpenVINOExecutionProvider"@),
{
    ort::ep::OpenVINO::default().build()
}

/// `ort::ep::WebGPU::default` and `build`.
#[verifier::external_body]
pub(crate) fn webgpu() -> (r: ExecutionProviderDispatch)
    ensures
        dispatched(r) == plain_provider("WebGpuExecutionProvider"@),
{
    ort::ep::WebGPU::default().build()
}

/// `ort::ep::NNAPI::default` and `build`.
#[verifier::external_body]
pub(crate) fn nnapi() -> (r: ExecutionProviderDispatch)
    ensures
        dispatched(r) == plain_provider("NnapiExecutionProvider"@),
{
    ort::ep::NNAPI::default().build()
}

/// `ort::ep::CoreML::default`: no option is set.
#[verifier::external_body]
pub(crate) fn coreml_default() -> (r: CoreML)
    ensures
        coreml_options(r) == no_options(),
{
    CoreML::default()
}

/// `ort::ep::CoreML::with_compute_units`: sets the option `MLComputeUnits`.
#[verifier::external_body]
pub(crate) fn coreml_with_compute_units(provider: CoreML, units: ComputeUnits) -> (r: CoreML)
    ensures
        coreml_options(r) == coreml_options(provider).insert(
            "MLComputeUnits"@,
            compute_units_text(units),
        ),
{
    provider.with_compute_units(units)
}

/// `ort::ep::CoreML::with_model_cache_dir`: sets the option `ModelCacheDirectory`. It panics on a
/// NUL in the text.
#[verifier::external_body]
pub(crate) fn coreml_with_model_cache_dir(provider: CoreML, path: &str) -> (r: CoreML)
    requires
        is_c_text(path@),
    ensures
        coreml_options(r) == coreml_options(provider).insert("ModelCacheDirectory"@, path@),
{
    provider.with_model_cache_dir(path)
}

/// `ort::ep::CoreML::build`.
#[verifier::external_body]
pub(crate) fn coreml_build(provider: CoreML) -> (r: ExecutionProviderDispatch)
    ensures
        dispatched(r) == (Provider {
            name: "CoreMLExecutionProvider"@,
            options: coreml_options(provider),
            error_on_failure: false,
        }),
{
    provider.build()
}

/// `ort::ep::Vitis::default`: no option is set.
#[verifier::external_body]
pub(crate) fn vitis_default() -> (r: Vitis)
    ensures
        vitis_options(r) == no_options(),
{
    Vitis::default()
}

/// `ort::ep::Vitis::with_config_file`: sets the option `config_file`. It panics on a NUL in the
/// text.
#[verifier::external_body]
pub(crate) fn vitis_with_config_file(provider: Vitis, path: &str) -> (r: Vitis)
    requires
        is_c_text(path@),
    ensures
        vitis_options(r) == vitis_options(provider).insert("config_file"@, path@),
{
    provider.with_config_file(path)
}

/// `ort::ep::Vitis::with_cache_dir`: sets the option `cache_dir`. It panics on a NUL in the text.
#[verifier::external_body]
pub(crate) fn vitis_with_cache_dir(provider: Vitis, path: &str) -> (r: Vitis)
    requires
        is_c_text(path@),
    ensures
        vitis_options(r) == vitis_options(provider).insert("cache_dir"@, path@),
{
    provider.with_cache_dir(path)
}

/// `ort::ep::Vitis::with_cache_key`: sets the option `cache_key`. It panics on a NUL in the text.
#[verifier::external_body]
pub(crate) fn vitis_with_cache_key(provider: Vitis, key: &str) -> (r: Vitis)
    requires
        is_c_text(key@),
    ensures
        vitis_options(r) == vitis_options(provider).insert("cache_key"@, key@),
{
    provider.with_cache_key(key)
}

/// `ort::ep::Vitis::build`.
#[verifier::external_body]
pub(crate) fn vitis_build(provider: Vitis) -> (r: ExecutionProviderDispatch)
    ensures
        dispatched(r) == (Provider {
            name: "VitisAIExecutionProvider"@,
            options: vitis_options(provider),
            error_on_failure: false,
        }),
{
    provider.build()
}

/// `ort::ep::QNN::default`: no option is set.
#[verifier::external_body]
pub(crate) fn qnn_default() -> (r: QNN)
    ensures
        qnn_options(r) == no_options(),
{
    QNN::default()
}

/// `ort::ep::QNN::with_backend_path`: sets the option `backend_path`. It panics on a NUL in the
/// text.
#[verifier::external_body]
pub(crate) fn qnn_with_backend_path(provider: QNN, path: &str) -> (r: QNN)
    requires
        is_c_text(path@),
    ensures
        qnn_options(r) == qnn_options(provider).insert("backend_path"@, path@),
{
    provider.with_backend_path(path)
}

/// `ort::ep::ArbitrarilyConfigurableExecutionProvider::with_arbitrary_config` of
/// `ort::ep::QNN`: sets the option of that key. It panics on a NUL in the key or in the value.
#[verifier::external_body]
pub(crate) fn qnn_with_arbitrary_config(provider: QNN, key: &str, value: &str) -> (r: QNN)
    requires
        is_c_text(key@),
        is_c_text(value@),
    ensures
        qnn_options(r) == qnn_options(provider).insert(key@, value@),
{
    provider.with_arbitrary_config(key, value)
}

/// `ort::ep::QNN::build`.
#[verifier::external_body]
pub(crate) fn qnn_build(provider: QNN) -> (r: ExecutionProviderDispatch)
    ensures
        dispatched(r) == (Provider {
            name: "QNNExecutionProvider"@,
            options: qnn_options(provider),
            error_on_failure: false,
        }),
{
    provider.build()
}

/// `std::path::Path::to_string_lossy`.
#[verifier::external_body]
pub(crate) fn path_to_text(path: &PathBuf) -> (r: String)
    ensures
        r@ == path_text(*path),
{
    path.to_string_lossy().into_owned()
}

/// `std::path::Path::file_stem`, as text where it is Unicode.
#[verifier::external_body]
pub(crate) fn path_to_stem(path: &PathBuf) -> (r: Option<String>)
    ensures
        owned_text(r) == path_stem(*path),
{
    let stem = path.file_stem()?.to_str()?;
    Some(stem.to_owned())
}

/// The error is one that `with_execution_providers` gives for this builder and these execution
/// providers.
pub closed spec fn refuses_providers(
    builder: SessionBuilder,
    providers: Seq<Provider>,
    error: ort::Error<SessionBuilder>,
) -> bool {
    exists|dispatches: Vec<ExecutionProviderDispatch>|
        {
            &&& dispatches@.map_values(
                |dispatch: ExecutionProviderDispatch| dispatched(dispatch),
            ) == providers
            &&& #[trigger] call_ensures(
                with_execution_providers,
                (builder, dispatches),
                Err::<SessionBuilder, ort::Error<SessionBuilder>>(error),
            )
        }
}

/// The error is one that `with_config_entry` gives for this builder and this entry.
pub closed spec fn refuses_config_entry(
    builder: SessionBuilder,
    key: Seq<char>,
    value: Seq<char>,
    error: ort::Error<SessionBuilder>,
) -> bool {
    exists|key_text: &str, value_text: &str|
        {
            &&& key_text@ == key
            &&& value_text@ == value
            &&& #[trigger] call_ensures(
                with_config_entry,
                (builder, key_text, value_text),
                Err::<SessionBuilder, ort::Error<SessionBuilder>>(error),
            )
        }
}

/// The error is one that the method for this option gives for this builder.
pub open spec fn refuses(
    builder: SessionBuilder,
    option: SessionOption,
    error: ort::Error<SessionBuilder>,
) -> bool {
    let reply = Err::<SessionBuilder, ort::Error<SessionBuilder>>(error);
    match option {
        SessionOption::Optimization(level) => call_ensures(
            SessionBuilder::with_optimization_level,
            (builder, level),
            reply,
        ),
        SessionOption::IntraThreads(threads) => call_ensures(
            SessionBuilder::with_intra_threads,
            (builder, threads),
            reply,
        ),
        SessionOption::InterThreads(threads) => call_ensures(
            SessionBuilder::with_inter_threads,
            (builder, threads),
            reply,
        ),
        SessionOption::Providers(providers) => refuses_providers(builder, providers, error),
        SessionOption::ConfigEntry(key, value) => refuses_config_entry(builder, key, value, error),
    }
}

/// What telling a builder an option can come to: a builder that has been told it, or the error of
/// the method for that option.
pub open spec fn replies(
    builder: SessionBuilder,
    option: SessionOption,
    reply: Result<SessionBuilder, ort::Error<SessionBuilder>>,
) -> bool {
    match reply {
        Ok(next) => builder_options(next) == builder_options(builder).push(option),
        Err(error) => refuses(builder, option, error),
    }
}

/// Calls a method of a builder, whatever it promises.
fn ask<A, F: Fn(SessionBuilder, A) -> Result<SessionBuilder, ort::Error<SessionBuilder>>>(
    method: F,
    builder: SessionBuilder,
    argument: A,
) -> (r: Result<SessionBuilder, ort::Error<SessionBuilder>>)
    requires
        call_requires(method, (builder, argument)),
    ensures
        call_ensures(method, (builder, argument), r),
{
    method(builder, argument)
}

/// Calls a method of a builder with a key and a value, whatever it promises.
fn ask_entry<
    'a,
    F: Fn(SessionBuilder, &'a str, &'a str) -> Result<SessionBuilder, ort::Error<SessionBuilder>>,
>(method: F, builder: SessionBuilder, key: &'a str, value: &'a str) -> (r: Result<
    SessionBuilder,
    ort::Error<SessionBuilder>,
>)
    requires
        call_requires(method, (builder, key, value)),
    ensures
        call_ensures(method, (builder, key, value), r),
{
    method(builder, key, value)
}

/// Tells a builder the level of graph optimization.
pub(crate) fn tell_optimization(builder: SessionBuilder, level: GraphOptimizationLevel) -> (r:
    Result<SessionBuilder, ort::Error<SessionBuilder>>)
    ensures
        replies(builder, SessionOption::Optimization(level), r),
{
    ask(SessionBuilder::with_optimization_level, builder, level)
}

/// Tells a builder the number of threads within a node.
pub(crate) fn tell_intra_threads(builder: SessionBuilder, threads: usize) -> (r: Result<
    SessionBuilder,
    ort::Error<SessionBuilder>,
>)
    ensures
        replies(builder, SessionOption::IntraThreads(threads), r),
{
    ask(SessionBuilder::with_intra_threads, builder, threads)
}

/// Tells a builder the number of threads across nodes.
pub(crate) fn tell_inter_threads(builder: SessionBuilder, threads: usize) -> (r: Result<
    SessionBuilder,
    ort::Error<SessionBuilder>,
>)
    ensures
        replies(builder, SessionOption::InterThreads(threads), r),
{
    ask(SessionBuilder::with_inter_threads, builder, threads)
}

/// Tells a builder the execution providers.
pub(crate) fn tell_providers(
    builder: SessionBuilder,
    providers: Vec<ExecutionProviderDispatch>,
) -> (r: Result<SessionBuilder, ort::Error<SessionBuilder>>)
    ensures
        replies(
            builder,
            SessionOption::Providers(
                providers@.map_values(|dispatch: ExecutionProviderDispatch| dispatched(dispatch)),
            ),
            r,
        ),
{
    ask(with_execution_providers, builder, providers)
}

/// Tells a builder an entry.
pub(crate) fn tell_config_entry(builder: SessionBuilder, key: &str, value: &str) -> (r: Result<
    SessionBuilder,
    ort::Error<SessionBuilder>,
>)
    ensures
        replies(builder, SessionOption::ConfigEntry(key@, value@), r),
{
    ask_entry(with_config_entry, builder, key, value)
}

}
