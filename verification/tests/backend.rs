use tokimo_translate::backend::{nvidia_gpu_label, runtime_gpu_label, system_profiler_model};
use tokimo_translate::{compiled_backends, gpu_layers, CompiledBackends};

fn backends(cuda: bool, metal: bool, vulkan: bool, rocm: bool) -> CompiledBackends {
    CompiledBackends { cuda, metal, vulkan, rocm }
}

#[test]
fn gpu_layers_all_when_any_gpu_backend() {
    assert_eq!(gpu_layers(&backends(true, false, false, false)), u32::MAX);
    assert_eq!(gpu_layers(&backends(false, true, false, false)), u32::MAX);
    assert_eq!(gpu_layers(&backends(false, false, true, false)), u32::MAX);
    assert_eq!(gpu_layers(&backends(false, false, false, true)), u32::MAX);
    assert_eq!(gpu_layers(&backends(true, false, true, false)), u32::MAX);
}

#[test]
fn gpu_layers_none_on_cpu() {
    assert_eq!(gpu_layers(&backends(false, false, false, false)), 0);
}

#[test]
fn compiled_backend_names() {
    assert_eq!(compiled_backends(&backends(true, false, true, false)), "CUDA + Vulkan (runtime auto-select)");
    assert_eq!(compiled_backends(&backends(true, false, false, false)), "NVIDIA CUDA");
    assert_eq!(compiled_backends(&backends(false, true, false, false)), "Apple Metal");
    assert_eq!(compiled_backends(&backends(false, false, true, false)), "Vulkan");
    assert_eq!(compiled_backends(&backends(false, false, false, true)), "AMD ROCm");
    assert_eq!(compiled_backends(&backends(false, false, false, false)), "CPU only");
    // The first matching line wins.
    assert_eq!(compiled_backends(&backends(true, true, false, true)), "NVIDIA CUDA");
    assert_eq!(compiled_backends(&backends(false, true, true, false)), "Apple Metal");
}

#[test]
fn nvidia_label_trims_the_name() {
    assert_eq!(
        nvidia_gpu_label(b"NVIDIA GeForce RTX 4080\n"),
        Some("NVIDIA GeForce RTX 4080".to_string())
    );
    assert_eq!(nvidia_gpu_label(b"  Tesla T4 \r\n"), Some("NVIDIA Tesla T4".to_string()));
}

#[test]
fn nvidia_label_absent_for_blank_output() {
    assert_eq!(nvidia_gpu_label(b""), None);
    assert_eq!(nvidia_gpu_label(b" \n\t\n"), None);
}

#[test]
fn nvidia_label_replaces_invalid_utf8() {
    assert_eq!(nvidia_gpu_label(b"GPU\xff"), Some("NVIDIA GPU\u{fffd}".to_string()));
}

#[test]
fn runtime_label_prefers_nvidia_then_macos_then_backends() {
    let cpu = backends(false, false, false, false);
    let metal = backends(false, true, false, false);
    assert_eq!(
        runtime_gpu_label(Some("NVIDIA A100".to_string()), Some("Apple M2".to_string()), &cpu),
        "NVIDIA A100"
    );
    assert_eq!(runtime_gpu_label(None, Some("Apple M2".to_string()), &cpu), "Apple M2");
    assert_eq!(runtime_gpu_label(None, None, &metal), "Apple Metal");
    assert_eq!(runtime_gpu_label(None, None, &cpu), "CPU only");
}

#[test]
fn system_profiler_model_reads_the_quoted_value() {
    let pretty = br#"{"SPDisplaysDataType" : [{"sppci_model" : "Apple M1 Pro"}]}"#;
    assert_eq!(system_profiler_model(pretty), Some("Apple M1 Pro".to_string()));
    let compact = br#"{"sppci_model":"Apple M2"}"#;
    assert_eq!(system_profiler_model(compact), Some("Apple M2".to_string()));
    let spaced = b"{\n  \"sppci_model\"\t:\n \" Apple M3 Max \",\n}";
    assert_eq!(system_profiler_model(spaced), Some("Apple M3 Max".to_string()));
}

#[test]
fn system_profiler_model_first_key_wins() {
    let two = br#"[{"sppci_model" : "Apple M1"}, {"sppci_model" : "AMD Radeon Pro 5500M"}]"#;
    assert_eq!(system_profiler_model(two), Some("Apple M1".to_string()));
}

#[test]
fn system_profiler_model_absent_without_a_string_value() {
    assert_eq!(system_profiler_model(b"{}"), None);
    assert_eq!(system_profiler_model(br#"{"sppci_model" : 3}"#), None);
    assert_eq!(system_profiler_model(br#"{"sppci_model" : "Apple M3"#), None);
    assert_eq!(system_profiler_model(br#"{"sppci_model""#), None);
    assert_eq!(system_profiler_model(br#"sppci_model : "x""#), None);
    assert_eq!(system_profiler_model("\"sppci_model\":中文".as_bytes()), None);
}
