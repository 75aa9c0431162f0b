//! Chip-specific support that is pure computation: memory maps and
//! peripheral register encodings.

pub mod stm32f4;
