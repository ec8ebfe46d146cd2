//! An assembler front end for the Redox virtual machine: the instruction set, the sizes of
//! encoded instructions, a parser from assembly text to instructions, and the assembly
//! listing of an instruction, which the parser reads back as the instruction.
pub mod registers;
pub mod op_codes;
pub mod instruction;
pub mod immediates;
pub mod text;
pub mod expressions;
pub mod type_hints;
pub mod cartesian;
pub mod arguments;
pub mod builder;
pub mod asm_parser;
pub mod listing;
pub mod round_trip;
pub mod operand_laws;
