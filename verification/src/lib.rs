//! Shared vocabulary of a trading stack: order and market-depth records,
//! their enumerations with fixed wire codes, and the decoders that turn
//! fixed-width little-endian fields into numbers.

pub mod book;
pub mod clock;
pub mod decode;
pub mod order;
pub mod symbol;
pub mod vocab;
pub mod tick;

pub use crate::book::levels_sorted;
pub use crate::clock::Time;
pub use crate::decode::{parse_le, parse_u16_le, parse_u32_le, parse_u64_le, DecodeError, Width};
pub use crate::order::{CancelRequest, Order, OrderData, OrderError, OrderRequest};
pub use crate::symbol::code_to_u64;
pub use crate::tick::{Cell, Field, TickDataStructure};
pub use crate::vocab::{Direction, Exchange, Offset, OrderType, Status};
