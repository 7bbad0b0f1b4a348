# pharia_kernel

The decision logic of the Pharia kernel, a runtime for AI skills, written in Verus: each
function states what it returns in its contract, and Verus proves the code against it.

- `src/` is the verified library. It holds what the kernel computes: its configuration and the
  namespaces it observes, the CSI versions and their messages, the inference vocabulary, the
  requests offered to OpenAI-compatible backends, the separation of reasoning from answers, the
  conversion of OpenAI-compatible streams, the relaying of chat streams, authorization answers,
  trace headers, the OCI registry's answers, the hardcoded skills and the build recipes of the
  test skills. Calls into `semver`, `url`, `change-case`, `serde_json`, `tracing` and
  OpenTelemetry stand behind a few trusted wrappers whose contracts are documented where they
  are declared.
- `tests/` runs the library on concrete values.
- `app/` is a small command line around the library: it reads configuration files and the
  environment, runs the namespace observer loop, detects languages with lingua, chunks texts
  with text-splitter, answers CSI version questions and builds test skills.

`src/lib.rs` groups the modules by subject.
