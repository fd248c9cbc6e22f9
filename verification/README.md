# semiflow_ffi

The C ABI layer of the semiflow Chernoff-approximation engines. A C entry
point checks its arguments, runs an engine, reports a status code and
copies results into caller buffers. This crate proves those decisions with
Verus; the engines themselves and the raw pointers stay outside the proofs.

## Layout

- `src/` — the verified library.
  - `status` — the stable status codes, their names, and the mapping from
    engine errors (including the message-based refinement of domain
    violations) to statuses.
  - `gate` — the argument gate of an entry point (null pointers, buffer
    lengths, scalar domain, in the entry point's order), exact size
    products, optional coefficient buffers and the anisotropic-shift
    constructor checks.
  - `validate` — the domain checks of the individual engine families.
  - `engine` — the per-handle grid state: reads, commits of an evolution's
    outcome, sizes of null handles.
  - `stepping` — repeated Chernoff steps, stopping at the first error or
    keeping the progress made before it.
  - `layout` — buffer layouts: interleaved complex values, per-edge values,
    flat grid indices, coefficient blocks, CSR-to-dense expansion, node
    clamping and interpolation cells.
  - `select` — kernels, manifolds, subordinators, Laplacians and particle
    reductions chosen by name or tag.
  - `coupling` — the coupling topology and walls of the coupled
    tensor-train evolver.
  - `sizes` — saturating sizes and output capacities.
  - `handles` — the opaque handle types exposed to C.
- `tests/` — tests of the library on concrete values.
- `app/` — `extern "C"` entry points for a subset of the engine families
  (1-D heat state, anisotropic and non-separable 2-D/3-D, graphs, graph
  Laplacians, quantum graphs, the graph state-adjoint, Magnus graph heat,
  adjoint and adaptive 1-D kernels, manifolds, subordinated heat, matrix
  diffusion, Howland, real and complex Schrödinger, Smolyak, Carnot,
  adjoint Fokker-Planck, Greeks, the 1-D obstacle, gridless measures and
  the coupled tensor train): pointer handling, floating-point tests,
  engine calls and panic containment, each decision delegated to the
  library. The other families of the C API (boundary conditions,
  higher-order and truncated-exponential diffusion, drift-reaction, shift,
  Strang splits, 2-D/3-D heat, matrix diffusion in 2-D/3-D, hypoelliptic,
  the N-D and Gamma obstacles, point evaluation, resolvent jumps and the
  remaining graph-heat variants) are not carried here; their argument
  checks are the library's `validate`, `gate` and `engine` functions.
