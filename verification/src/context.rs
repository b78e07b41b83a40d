//! Scratch state that the firmware keeps about an image between two calls.

use vstd::prelude::*;

verus! {

/// The image loader context: what the firmware learned of an image's structure
/// when it parsed it, kept for the digest computation that follows.
///
/// The binding never reads a field. It makes a fresh context for each hash
/// operation, lets the firmware fill it, hands it on and drops it. Addresses
/// inside the firmware's memory are held as plain numbers.
#[derive(Debug)]
pub struct Context {
    pub image_address: u64,
    pub image_size: u64,
    pub entry_point: u64,
    pub size_of_headers: usize,
    pub image_type: u16,
    pub number_of_sections: u16,
    pub section_alignment: u32,
    pub first_section: usize,
    pub reloc_dir: usize,
    pub sec_dir: usize,
    pub number_of_rva_and_sizes: u64,
    pub pe_hdr: usize,
}

impl Context {
    /// The context that no firmware call has touched yet: every field is zero.
    pub open spec fn fresh() -> Context {
        Context {
            image_address: 0,
            image_size: 0,
            entry_point: 0,
            size_of_headers: 0,
            image_type: 0,
            number_of_sections: 0,
            section_alignment: 0,
            first_section: 0,
            reloc_dir: 0,
            sec_dir: 0,
            number_of_rva_and_sizes: 0,
            pe_hdr: 0,
        }
    }

    /// Makes a fresh context.
    pub fn new() -> (c: Context)
        ensures
            c == Context::fresh(),
    {
        Context {
            image_address: 0,
            image_size: 0,
            entry_point: 0,
            size_of_headers: 0,
            image_type: 0,
            number_of_sections: 0,
            section_alignment: 0,
            first_section: 0,
            reloc_dir: 0,
            sec_dir: 0,
            number_of_rva_and_sizes: 0,
            pe_hdr: 0,
        }
    }
}

} // verus!
