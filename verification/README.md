# hyperlight-nanvix packages, verified

The package side of hyperlight-nanvix: Python packages are downloaded as
pure-Python wheels, checked, pre-compiled and packed into FAT images that a
Nanvix guest mounts. `src/` holds the decisions of that work, proved with
Verus; `app/` runs the commands, touches the disk and hands the outcomes back.

- `src/names.rs`: PEP 503 package-name normalisation.
- `src/registry.rs`: registry layout (paths of package images) and the list of
  installed packages.
- `src/wheel.rs`: choosing the downloaded wheel, pure-Python and
  native-extension checks.
- `src/interpreter.rs`: choosing the host Python that compiles the bytecode.
- `src/fat.rs`: image size, FAT variant, volume label and directory layout.
- `src/install.rs`: the build of a package image as a state machine.
- `src/sandbox.rs`, `src/setup.rs`: sandbox settings, workload results and the
  guest binaries the registry must hold.
- `src/text.rs`, `src/unicode.rs`: character-sequence helpers and the Unicode
  operations of the standard library that the logic calls.
- `app/packages.rs`: the file system and process side of package builds.
- `app/python.rs`: Python bindings of the sandbox types.

Not here: the command-line program (running a script, setting up and clearing
the registry) and the Python `NanvixSandbox` class. Both drive the Nanvix
runtime (`RuntimeConfig`, `Sandbox`, the binary cache) and the `nanvix`
crate, which this project does not include; the decisions they take and the texts they
report stand in `src/sandbox.rs` and `src/setup.rs`. For the same reason the
Python module registers two classes, `SandboxConfig` and `WorkloadResult`.
