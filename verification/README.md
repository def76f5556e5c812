# ellekit

Verified bindings to the ElleKit hooking framework (C function and Objective-C
method hooking on iOS and macOS, ARM64 and ARM64e).

- `src/` is the library, verified with Verus. It holds the decision logic of the
  bindings: argument checks, the buffers and descriptor tables handed to the
  framework, the interpretation of what the framework answers, and error mapping.
  Each operation receives the foreign call it needs as a closure, and its contract
  states which arguments that call receives and what the operation returns for
  every answer. Addresses are `usize` values, `0` standing for null.
- `app/` is the platform glue: the `extern "C"` declarations of the framework, the
  closures that perform the calls on raw pointers, an image handle that closes
  itself on drop, the displayable error type (with `thiserror`), and the
  floating-point geometry types.
- `tests/` exercises the library with stand-in closures for the framework.
