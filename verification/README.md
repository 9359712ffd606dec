# x86jit-core

The core of an x86 recompiler: guest bytes are decoded, lifted to an intermediate
representation, and grouped into blocks and regions for a code generator.

* `src/` is the library, verified with Verus.
  * `decode`, `insn`, `mnemonic`, `code`, `op_kind`, `register` - decoding, by `iced-x86`, and
    a decoded instruction as plain values
  * `ir`, `state`, `x87` - the intermediate representation
  * `lift` - from instructions to operations: `operand` (operands and addresses), `integer`,
    `control`, `vmove`, `vpacked`, `vshuffle`, `vmask`, `vcrypto`, `vfloat` (families of
    instructions), `table` and `dispatch` (which instruction is lifted how), `flags` (flags that
    nothing observes), `block` and `region` (what is lifted together), `meaning` and `retry` (what
    emitted operations do to the guest, and that an instruction that traps can be run again)
  * `memory`, `exit`, `jit_abi` - guest memory, and the contract with compiled code
  * `lanes`, `gf`, `aes`, `sha`, `gfni` - what the cryptographic operations compute
* `app/` holds what runs compiled code.
* `tests/` runs the library.

The contract of a lift says exactly which operations it emits. `lift::emit` explains the model:
an `Emission` is what has been emitted so far, and a lift takes one emission to the next. Of
every lifted block `IrBlock::wf` holds. Proof functions whose names begin with `law_` state what
holds across functions.
