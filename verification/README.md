# parakeet_tdt

The decisions of a speech recogniser that runs Parakeet TDT models on ONNX Runtime, written in
Verus and proved: how sessions are set up, which files are loaded and how context models are kept,
what goes into the encoder, and greedy token-and-duration decoding.

- `src/execution.rs`: the configuration and what it tells a session builder
- `src/files.rs`: the files of a model and the names of its context models
- `src/pretrained.rs`: the order in which a model is loaded
- `src/loading.rs`: the steps that open a session
- `src/encoder.rs`: the input and the output of the encoder
- `src/logits.rs`: the choice of a token and a duration
- `src/decode.rs`: greedy decoding
- `src/model_tdt.rs`: the model and its configuration
- `src/tensor.rs`, `src/runtime.rs`: what is taken from `ndarray`, `ort` and `std::path`; the
  contracts on those calls are believed, everything else is proved
- `app/`: file system, inference and floating-point numbers

Floating-point numbers pass through the library as their bit patterns.
