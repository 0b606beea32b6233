# parlab

Verified core of a set of systems-programming exercises, written in Verus.

`src/` is the library. Its functions carry contracts that Verus proves,
except the few small wrappers marked `#[verifier::external_body]` that make
the calls into `regex`, `image` and std (`str::trim`, `str::to_lowercase`):
their contracts are trusted, and each states in its doc comment what it
claims of the call. The modules:

- `vulkan_version` — packing and unpacking of Vulkan version numbers, with
  round-trip, recomposition and ordering laws.
- `fourcc` — V4L2 four-character codes and the named pixel formats.
- `xorshift` and `simulation` — the Brownian-motion particle simulation that
  runs as compute shaders: the per-particle generator (a bijection that never
  reaches zero from a non-zero seed), the step and clean passes, and laws that
  particles stay inside the grid and move one cell per step.
- `bank` — the pseudo-random bank-transfer simulation: generator, opening
  balances, the draw of a transfer, lock order and transfers, with
  conservation of the total.
- `rebuild` — the build-freshness rule, over inputs whose times may be
  unreadable.
- `device_select` — the rules that pick a GPU, a queue family, a memory type,
  a swapchain extent, that vet surfaces, layers and validation messages, and
  that answer an acquire or present result.
- `tags` — HTML start-tag statistics over the `regex` crate, with the tag
  grammar stated and the laws that make sequential, map-reduce, fork-join and
  worker-pool counting agree.
- `watermark` — the frame processing of the video exercise over the `image`
  crate: decoding a frame file, turning it grey and painting the watermark.
- `chat` — nickname registration, message formats and relaying of the chat
  server and client.

`app/` holds the programs around the library (threads, files, sockets,
processes, the async chat, the floating-point benchmarks and shaders), one
subcommand each. `tests/` exercises the library on concrete values.
