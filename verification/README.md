# nerve_runtime

The runtime of a model that runs as circuits on one or more Vulkan devices: how a compiled
package is checked and mounted, how circuits are bound to buffers and kernels, how work is shared
out among devices, and how tokens are fed through the result. Everything that is decided or
computed is in `src/`, written in Verus and proved against its contracts.

A device never appears in `src/`. A function that needs a device's answer takes it as an argument
and says what follows for every answer; where a device does several things in turn, another function
lists them, with what each of them is handed. `app/` holds the loops that ask a device, a sampler or
the file system and hand the answers over: the setting up of distributed launches and parameters,
segments, edges and cables, batches of activations and of streams, the token loop, and the files of a
package.

- `src/text.rs`, `src/arithmetic.rs`, `src/sequence.rs`, `src/ordered.rs`, `src/digest.rs`: texts,
  checked arithmetic, sequences, ordered maps and sets, digests.
- `src/package/`: the manifest of a package, its evidence, files and shaders; the graph, its
  processors, and the mounting of a runtime graph.
- `src/circuit_binding.rs`, `kernel_interface.rs`, `kernel_signature.rs`, `reusable_kernels.rs`,
  `descriptor_resources.rs`, `dispatch_plan.rs`, `bound_dispatch.rs`, `mounted_dispatch.rs`,
  `circuit_mount.rs`: from circuits to launches.
- `src/edges/`, `src/cables/`: the buffers between devices and the transport of their contents.
- `src/distributed/`: launches that several devices share.
- `src/component_batch/`, `multi_stream_batch.rs`, `batched_projection.rs`: batches of activations.
- `src/feedback_loop.rs`, `prompt_event.rs`, `pedalboard.rs`: what runs on a stream.

Public proof functions state what holds across functions, such as that the shards of a launch
partition its rows, that published bytes are received, and that every prompt token goes through
the model once.
