# pyrev

Python bytecode reverse engineering: reads the text that Python's `dis`
prints and writes Python source back, with every step of the library
specified and proved in Verus.

- `src/disasm.rs`: disassembly text to code objects (instructions by line).
- `src/parser/`: instructions to expressions filed in a `QueryMap`
  (`spec.rs` states each instruction's effect; `laws.rs` proves that every
  id left by a parse is filed).
- `src/visit.rs`, `src/decompiler.rs`: expressions back to source lines.
- `src/tree/`: owned expression trees, their code generator and queries.
- `src/bytecode/`, `src/bytecodemap.rs`: the line-by-line decompiler and its
  opcode tables.
- `src/text.rs`, `src/patterns.rs`: text helpers; the few regular
  expressions go through the `regex` crate.
- `app/`: the command line (clap), file and console output (colored, atty).
