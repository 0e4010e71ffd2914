# arm_disassembler

A decoder and formatter for AArch64 (A64) machine code, written in Verus.

- `decode_raw(vaddr, raw)` decodes one 32-bit instruction word into a flat
  `Instruction` record (code, mnemonic, up to four operands, memory / shift /
  extend / condition / vector attributes). Its result is stated exactly by the
  spec function `decode_spec`, built group by group from the primary dispatch on
  bits [28:25]. Each group's spec is opaque; `lemma_<group>_unfold` in its module
  gives its cases.
- `Decoder` walks a byte buffer four bytes at a time, little-endian, with an
  address that advances by four (modulo 2^64).
- `Formatter` renders a record as assembler text; `Formatter::text` states that
  text. `format` and `format_to` ask a `SymbolResolver` for the name of each
  branch target, and their contracts tie each name written to what `resolve`
  returns for that target's address (`resolved_names`); `format_to` writes to any
  `FmtWrite` sink piece by piece, in groups (a register, an immediate, a shift,
  an address, ...), each group stopping at its first failed piece.

Layout of `src/`:

- `enums.rs`, `mnemonic.rs`: registers, encodings, operand kinds and their names.
- `helpers.rs`: bit fields, sign extension, logical (bitmask) immediates.
- `instruction.rs`: the decoded record.
- `decoder/`: the dispatch and one module per instruction group
  (`dp_imm`, `branch_sys`, `ldst`, `dp_reg`, `simd_fp`), each with a spec of the
  group and the executable decoding proved equal to it.
- `formatter.rs`: the assembler text.
- `laws.rs`: properties of the library as a whole (every word decodes to a record
  of itself with well-formed operands, it is invalid exactly when undefined, its
  form does not depend on its address, registers have distinct names, the decoder
  walks the buffer word by word and its position stays a multiple of four within
  the buffer, names only affect branch targets, logical
  immediates are never trivial, and others).
