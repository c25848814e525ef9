# tokimo-translate (verified core)

Chinese ↔ English translation with HY-MT1.5 GGUF models (llama.cpp) and a
MarianMT ONNX demo. The decisions of the program live in the Verus-verified
library under `src/`; `app/` performs the I/O (environment, file system,
processes, network) and runs the models.

- `prompt` — the translation instructions sent to the model, with proofs of
  what every prompt says.
- `backend` — compiled-in GPU backends, layer offloading, and the GPU label
  read from `nvidia-smi` / `system_profiler` output.
- `search` — locating a GGUF file (the HuggingFace cache roots `$HF_HOME`,
  `$HUGGINGFACE_HUB_CACHE` and `~/.cache/huggingface` in turn, then the
  override variable) as a request/answer state machine, with a proof that
  every run ends where that order says.
- `generation` — the sampling loop of one translation: when to sample, where
  each token goes, and the incremental UTF-8 decoding of token pieces.
- `marian` — greedy decoding and the tokenizer round trip of the ONNX demo.
- `bench` — latency totals.
- `text` — white-space trimming and lossy UTF-8 decoding.

The program in `app/` runs the GGUF benchmark when started without arguments,
and the ONNX demo when started with `marian`.
