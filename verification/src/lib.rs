//! A manga-scraping job orchestrator.
//!
//! The library holds the verified core of the system: chapter identity and
//! resume filtering, retry bookkeeping, concurrency-permit accounting, the
//! per-job orchestration from chapter discovery to the ordered result, and
//! the acknowledgement decision for queue deliveries. Browser automation,
//! HTTP serving and the AMQP connection itself live outside the library and
//! hand it plain values.

pub mod config;
pub mod decimal;
pub mod gate;
pub mod mangalib;
pub mod processing;
pub mod rabbitmq_consumer;
pub mod retry;
pub mod server;
pub mod telegraph;
