//! Acquisition core of a serial ADS-B receiver: the hand-off of the single
//! frame buffer between application and DMA engine, the decoding of each
//! received frame, and the steps that report one cycle.

pub mod acquisition;
pub mod frame;
pub mod laws;
pub mod report;
