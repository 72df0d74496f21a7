# hvisor_la64

The LoongArch64 (LVZ) trap, instruction-emulation and interrupt-controller
logic of the hvisor hypervisor, written in Verus with its contracts proved.

- `src/` — the verified library:
  - `utils` bit-field helpers, exception names, load/store decoding;
  - `register` the guest CSR file, its accessors, and the save/restore of
    guest CSRs around a trap;
  - `emulate` emulation of the instructions a guest traps on;
  - `handler` timer save/restore, exception dispatch, MMIO load completion;
  - `mmio` the LS7A2000 / 3A5000 configuration-register emulation;
  - `irq` virtual interrupt injection and interrupt dispatch;
  - `hypercall`, `time`, `mm`, `consts`, `context`;
  - `laws` properties that span several operations.
- `app/` — hardware glue (CSR access through the `loongArch64` crate and
  inline assembly, the shared injection state behind a lock).
- `tests/` — executable tests of the library.

Machine words are `u64`: the hypervisor only runs on 64-bit LoongArch, and
its direct-mapped addresses use all 64 bits.
