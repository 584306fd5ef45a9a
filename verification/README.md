# nasop

Static semantics of x86 instructions and the bookkeeping of an example-driven
register analysis, verified with Verus.

- `src/` is the verified library:
  - `data_representation`: register and instruction names and their parsers
    (`x86_reg`, `x86_ins`), the static semantics table and the filling-in of
    decoded operands (`x86_ins_semantics`);
  - `decoder`: the x86 disassembler (a capstone handle with the mode and
    detail settings it was built with), the capstone types, and one small
    trusted wrapper per capstone function that the library calls;
  - `exmaple_analysis`: register states and their displays, test metadata, the
    check of expected registers, and the example database;
  - `instruction_db`: the instruction database, the per-instruction
    register and group name lists, and the report on each instruction of a
    disassembled binary;
  - `text` and `assoc`: character-level text building and association lists.
- `app/` holds what touches the outside world: `nasm`, the unicorn emulator,
  example folders and TOML metadata files, serde copies of the library's
  types, and printing.
- `tests/` exercises the library on concrete values.
