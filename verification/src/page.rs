//! The executable-memory page: a writable anonymous mapping that the
//! compiled code is copied into, then frozen — write access revoked,
//! execute access granted — before it may be invoked. The phase is carried
//! by the type: a writable page and a frozen page can never be confused.

use vstd::prelude::*;
use memmap::{Mmap, MmapMut};

verus! {

#[verifier::external_type_specification]
#[verifier::external_body]
pub struct ExMmapMut(MmapMut);

#[verifier::external_type_specification]
#[verifier::external_body]
pub struct ExMmap(Mmap);

/// The bytes a writable page holds.
pub uninterp spec fn page_bytes(p: MmapMut) -> Seq<u8>;

/// The bytes a frozen (read + execute) page holds.
pub uninterp spec fn frozen_bytes(p: Mmap) -> Seq<u8>;

/// Relies on memmap's `MmapMut::map_anon`: an anonymous, writable,
/// zero-filled mapping of exactly the requested length, or an error when
/// the underlying system call fails.
#[verifier::external_body]
fn map_writable(size: usize) -> (r: Result<MmapMut, String>)
    ensures
        r matches Ok(p) ==> page_bytes(p) == Seq::new(size as nat, |i: int| 0u8),
{
    MmapMut::map_anon(size).map_err(|e| e.to_string())
}

/// Relies on memmap's `DerefMut` for `MmapMut`: the page is a mutable byte
/// slice, and `copy_from_slice` replaces its contents with the code.
#[verifier::external_body]
fn fill_page(page: &mut MmapMut, code: &Vec<u8>)
    requires
        code@.len() == page_bytes(*old(page)).len(),
    ensures
        page_bytes(*final(page)) == code@,
{
    page.copy_from_slice(code.as_slice());
}

/// Relies on memmap's `MmapMut::make_exec`: revokes write access, grants
/// read and execute access, and keeps the contents; an error when the
/// underlying system call fails.
#[verifier::external_body]
fn freeze_page(page: MmapMut) -> (r: Result<Mmap, String>)
    ensures
        r matches Ok(p) ==> frozen_bytes(p) == page_bytes(page),
{
    page.make_exec().map_err(|e| e.to_string())
}

/// Relies on memmap's `Deref` for `Mmap`: the base address of the mapping,
/// where the first byte of the placed code lies.
#[verifier::external_body]
pub(crate) fn base_address(page: &Mmap) -> usize {
    page.as_ptr() as usize
}

/// Places compiled machine code in executable memory: allocates a writable
/// page sized exactly to the code, copies the code in, then freezes the
/// page. On success the frozen page holds precisely the code bytes; on an
/// allocation or permission failure the error is returned and no page
/// remains mapped.
pub fn place_code(code: &Vec<u8>) -> (r: Result<Mmap, String>)
    ensures
        r matches Ok(p) ==> frozen_bytes(p) == code@,
{
    let mut page = match map_writable(code.len()) {
        Result::Ok(p) => p,
        Result::Err(m) => {
            return Result::Err(m);
        },
    };
    fill_page(&mut page, code);
    freeze_page(page)
}

} // verus!
