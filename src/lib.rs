//! Simulators for a family of small didactic 8-bit machines: the Neander
//! and Ahmes accumulator machines, the Ramses register machine, and a
//! compact Neander core.  Every machine has 256 bytes of memory, counts its
//! cycles and memory accesses, and saves its memory or its whole state in a
//! small binary format.
pub mod ahmes;
pub mod codec;
pub mod listing;
pub mod memory;
pub mod neander;
pub mod novir;
pub mod ramses;
