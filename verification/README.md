# mono_rt

Bindings to a Mono runtime that is already loaded in the current process (process injection
into Unity games and other Mono-hosted applications on Windows), with their rules verified by
Verus.

## Layout

- `src/` — the verified library.
  - `types/` — one module per handle type (`MonoClass`, `MonoImage`, …). A handle is the
    non-null address of a runtime object. Each operation takes what the runtime answered as its
    last argument (`reply`: `None` when no runtime is bound) and decides the result; its
    contract says which result for every answer.
  - `types/image.rs` — `ImageSearch`, the search through the loaded assemblies that
    `MonoImage::find` performs, fed one assembly at a time.
  - `types.rs` — `Enumeration`, the protocol of the runtime's field and method iterators.
  - `text.rs` — C strings going in, byte strings coming back, and the UTF-16 module name.
  - `runtime.rs` — the exports the bindings need and the outcome of binding the runtime.
  - `harness.rs` — the bookkeeping of the integration runner.
- `app/` — the code around the library: locating the Mono module, resolving and calling its
  exports, the thread guard, typed method arguments, raw field access, and the integration
  runner that exercises everything against a live runtime.
- `tests/` — tests of the library on concrete answers.
