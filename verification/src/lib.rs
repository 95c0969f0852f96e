//! An LC-3 virtual machine: instruction encoding and decoding, and the
//! execution of decoded instructions against registers and memory.
pub mod instructions;
pub mod vm;
pub mod encoding_laws;
pub mod terminal;
