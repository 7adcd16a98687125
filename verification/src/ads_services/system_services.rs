//! The services of the system: symbol handles and the batch commands.

use vstd::prelude::*;

verus! {

/// A service: its index group and the range of its index offsets.
#[derive(Debug, Clone, Copy, PartialEq, Eq, Structural)]
pub struct AdsService {
    pub index_group: u32,
    pub index_offset_start: u32,
    pub index_offset_end: u32,
}

/// Asks for the handle of a variable by its name. The index offset is
/// always 0.
pub fn get_symhandle_by_name() -> (service: AdsService)
    ensures
        service == (AdsService {
            index_group: 0x0000_f003,
            index_offset_start: 0,
            index_offset_end: 0,
        }),
{
    AdsService { index_group: 0x0000_f003, index_offset_start: 0, index_offset_end: 0 }
}

/// Reads or writes the variable behind a handle. The index offset is the
/// handle.
pub fn read_write_symval_by_handle() -> (service: AdsService)
    ensures
        service == (AdsService {
            index_group: 0x0000_f005,
            index_offset_start: 0,
            index_offset_end: 0xffff_ffff,
        }),
{
    AdsService { index_group: 0x0000_f005, index_offset_start: 0, index_offset_end: 0xffff_ffff }
}

/// A batch of writes. The index offset is the number of writes, 500 at
/// most.
pub fn adsigrp_sumup_write() -> (service: AdsService)
    ensures
        service == (AdsService {
            index_group: 0x0000_f081,
            index_offset_start: 0,
            index_offset_end: 0xffff_ffff,
        }),
{
    AdsService { index_group: 0x0000_f081, index_offset_start: 0, index_offset_end: 0xffff_ffff }
}

/// A batch of reads. The index offset is the number of reads, 500 at most.
pub fn adsigrp_sumup_readex() -> (service: AdsService)
    ensures
        service == (AdsService {
            index_group: 0x0000_f083,
            index_offset_start: 0,
            index_offset_end: 0xffff_ffff,
        }),
{
    AdsService { index_group: 0x0000_f083, index_offset_start: 0, index_offset_end: 0xffff_ffff }
}

/// A batch of read-writes. The index offset is the number of read-writes,
/// 500 at most.
pub fn adsigrp_sumup_readwrite() -> (service: AdsService)
    ensures
        service == (AdsService {
            index_group: 0x0000_f082,
            index_offset_start: 0,
            index_offset_end: 0xffff_ffff,
        }),
{
    AdsService { index_group: 0x0000_f082, index_offset_start: 0, index_offset_end: 0xffff_ffff }
}

} // verus!
