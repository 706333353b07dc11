//! Decision core of the System Recovery Environment (SRE) boot manager.
//!
//! Firmware work (protocol lookups, NVMe commands, image loading) is done by
//! the platform. This crate decides what to ask for next and what the answers
//! mean: each boot step is a small machine with an `action` to perform and an
//! `advance` that takes the answer.
#![allow(unused_imports)]

pub mod boot_plan;
pub mod boot_run;
pub mod bp_read;
pub mod bp_recovery;
pub mod chainload;
pub mod device_path;
pub mod efi;
pub mod event_group;
pub mod file_path;
pub mod hotkey;
pub mod interleave;
pub mod nvme_pass_thru;
pub mod proxy;
pub mod ram_disk;
pub mod recovery_model;
pub mod sre_boot_manager;
pub mod usb_search;
