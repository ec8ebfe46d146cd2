# redox_asm

The assembler front end of the Redox virtual machine, written in Verus. The functions in
`src/` carry contracts that Verus proves, except three small wrappers around `str::chars`,
`String`'s `FromIterator` and itertools' `multi_cartesian_product`, whose contracts are
trusted.

- `registers`, `op_codes`, `instruction`: the register file, the operation codes and the
  instructions, with the size of each encoded instruction.
- `immediates`, `text`, `expressions`, `arguments`: reading immediates in binary, octal,
  decimal and hexadecimal, splitting lines into segments (comments after `;` dropped),
  packed address expressions, and the reading of one argument.
- `type_hints`, `cartesian`, `builder`, `asm_parser`: the mnemonics and argument kinds of each
  operation, the selection of the operation with the smallest encoding among those that fit,
  and the parser (`AsmParser`), which also records the labels that arguments name.
  `try_parse` and `try_parse_code_line` say why a text cannot be read; `parse` and
  `parse_code_line` take only text that can be read.
- `listing`: the assembly text of an instruction (`Instruction::to_asm_string`), written in
  the syntax the parser reads.
- `round_trip`: the proof that parsing the listing of an instruction gives the instruction
  back.

`app/` holds what the verified library does not: reading floating-point immediates.
