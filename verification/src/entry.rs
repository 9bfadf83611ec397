//! The drive's directory entries as the command-line logic reads them.

use vstd::prelude::*;

verus! {

/// One file or folder of the remote drive.
#[derive(Debug, Clone, PartialEq, Eq)]
pub struct QuarkEntry {
    pub fid: String,
    pub file_name: String,
    pub pdir_fid: String,
    pub size: u64,
    pub format_type: String,
    pub status: u32,
    pub created_at: u64,
    pub updated_at: u64,
    pub dir: bool,
    pub file: bool,
}

/// One page of a directory listing.
#[derive(Debug, Clone)]
pub struct ListPage {
    pub entries: Vec<QuarkEntry>,
    pub page: u32,
    pub size: u32,
    pub total: u64,
}

} // verus!
