//! Verified core of a Chinese/English translation toolkit built around
//! HY-MT GGUF models (llama.cpp) and a MarianMT ONNX demo.
pub mod backend;
pub mod bench;
pub mod generation;
pub mod marian;
pub mod prompt;
pub mod search;
pub mod text;

pub use backend::{compiled_backends, gpu_layers, CompiledBackends};
pub use prompt::{en2zh_content, zh2en_content};
