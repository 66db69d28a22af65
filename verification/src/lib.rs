//! A reader for the binary class-file format of a JVM-like bytecode target.
//!
//! The crate decodes a byte buffer into a structured, validated class model
//! ([`class_file::ClassFile`]) and, separately, decodes a method's raw code
//! bytes into typed instructions ([`instruction::Instruction`]).

pub mod attribute;
mod buffer;
pub mod class_access_flags;
pub mod class_file;
pub mod class_file_field;
pub mod class_file_method;
pub mod class_file_version;
mod class_reader;
pub mod class_reader_error;
pub mod constant_pool;
pub mod exception_table;
pub mod field_flags;
pub mod field_type;
pub mod instruction;
pub mod line_number;
pub mod line_number_table;
pub mod method_descriptor;
pub mod method_flags;
pub mod native_methods_registry;
mod numerals;
pub mod program_counter;
pub mod type_conversion;

pub use class_reader::read_buffer;
