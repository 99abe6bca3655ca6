# candle_cuda

Planning for CUDA devices: which kernels run, with what geometry and over which parts of which
buffers, where allocations come from while a graph is captured, and when an operation is refused.
The plans are plain values, and every planning function is verified with Verus against a contract
that says exactly what it returns.

- `src/` is the verified library.
  - `arith`, `text`, `shape`, `runs`: rounding, decimal text, tensor shapes, runs of bounded length.
  - `dtype`, `launch`, `names`, `error`, `messages`: the vocabulary of plans and failures.
  - `quantize`, `dequantize`, `matmul`, `storage`, `dummy_cuda`: quantized weights.
  - `moe_tier`, `moe`, `moe_workspace`: expert layers over quantized weights.
  - `arena`, `capture`, `capture_laws`: allocation while a graph is captured.
  - `device_id`, `device`: devices.
- `app/` carries the plans out with cudarc.
- `tests/` runs the library on concrete values.

Public proof functions named `law_..` state what holds of the library as a whole.
