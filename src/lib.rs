//! Driver for the PDCA, the peripheral DMA controller of the SAM4L: channel
//! lifecycle, transfer programming, completion and buffer hand-back, over a
//! bit-exact model of each channel's register block.
pub mod clock;
pub mod dma;
pub mod hw;
pub mod lifecycle;
pub mod registers;
