//! The device-registry core of a device-monitoring daemon.
//!
//! A single registrar actor owns the table of active devices and arbitrates
//! registration requests from independently running drivers. The registry
//! itself ([`registry::DeviceMap`]) enforces that every device name is
//! registered at most once; the actor state ([`actor::State`]) answers each
//! request over a one-shot reply channel and decides when the actor stops.
//!
//! Device values and setting requests travel over tokio channels carrying
//! `drmem_api` payloads; the channel operations themselves stand behind the
//! trusted items of [`channels`], and everything built on them is verified.

pub mod channels;
pub mod registry;
pub mod actor;
