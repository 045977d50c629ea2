//! Bounds-checked reads of the guest's linear memory.
//!
//! A pointer+length pair handed from guest to host is validated against the
//! current memory bound before any byte reaches the caller: an out-of-range
//! request fails with a memory-access error and hands back no partial data.

use vstd::prelude::*;
use crate::errors::WasmError;
use crate::runtime::{store_ident, store_of_memory};

verus! {

#[verifier::external_type_specification]
#[verifier::external_body]
pub struct ExMemoryView<'a>(wasmer::MemoryView<'a>);

/// The bytes that a memory view covers, one for each addressable offset.
pub uninterp spec fn view_bytes(v: wasmer::MemoryView<'_>) -> Seq<u8>;

/// The bytes a memory holds in a store's current state. Guest code can write
/// the memory only through an exclusive use of the store, so the contents are
/// a function of the memory handle and the store value.
pub uninterp spec fn mem_bytes(m: wasmer::Memory, s: wasmer::Store) -> Seq<u8>;

/// Whether a byte sequence is valid UTF-8, as std::str::from_utf8 accepts it.
pub uninterp spec fn is_utf8(b: Seq<u8>) -> bool;

/// The characters that a valid UTF-8 byte sequence decodes to.
pub uninterp spec fn utf8_chars(b: Seq<u8>) -> Seq<char>;

/// The region of a view that a guest pointer+length pair selects.
pub open spec fn guest_region(v: wasmer::MemoryView<'_>, ptr: u32, len: u32) -> Seq<u8> {
    view_bytes(v).subrange(ptr as int, ptr as int + len as int)
}

/// Relies on wasmer::Memory::view: a borrowed view over the memory's current
/// contents, valid until the memory is grown. The memory must be used with
/// the store that owns it; on any other store the runtime does not return.
#[verifier::external_body]
pub(crate) fn make_view<'a>(memory: &wasmer::Memory, store: &'a wasmer::Store) -> (r: wasmer::MemoryView<'a>)
    requires
        store_of_memory(*memory) == store_ident(*store),
    ensures
        view_bytes(r) == mem_bytes(*memory, *store),
{
    memory.view(store)
}

/// Relies on wasmer::MemoryView::read: the whole requested range is filled,
/// or the call fails with a MemoryAccessError exactly when the range ends
/// beyond the view's data size.
#[verifier::external_body]
fn view_read(view: &wasmer::MemoryView<'_>, ptr: u32, len: u32) -> (r: Result<Vec<u8>, wasmer::MemoryAccessError>)
    ensures
        (r is Ok) <==> (ptr as int + len as int <= view_bytes(*view).len()),
        r is Ok ==> r->Ok_0@ == guest_region(*view, ptr, len),
{
    let mut buf = vec![0u8; len as usize];
    match view.read(ptr as u64, &mut buf) {
        Ok(()) => Ok(buf),
        Err(e) => Err(e),
    }
}

/// Relies on std::str::from_utf8: succeeds exactly on valid UTF-8, and then
/// returns the characters those bytes encode.
#[verifier::external_body]
fn bytes_as_utf8(bytes: &[u8]) -> (r: Result<&str, std::str::Utf8Error>)
    ensures
        (r is Ok) <==> is_utf8(bytes@),
        r is Ok ==> r->Ok_0@ == utf8_chars(bytes@),
{
    std::str::from_utf8(bytes)
}

/// Reads `len` bytes of guest memory starting at the guest pointer `ptr`.
///
/// A range that ends beyond the current memory bound fails with a
/// memory-access error and hands back no bytes at all.
pub fn read_guest_region(view: &wasmer::MemoryView<'_>, ptr: u32, len: u32) -> (r: Result<Vec<u8>, WasmError>)
    ensures
        (r is Ok) <==> (ptr as int + len as int <= view_bytes(*view).len()),
        r is Ok ==> r->Ok_0@ == guest_region(*view, ptr, len),
        r is Err ==> r->Err_0 is MemoryAccess,
{
    match view_read(view, ptr, len) {
        Ok(bytes) => Ok(bytes),
        Err(e) => Err(WasmError::from(e)),
    }
}

/// Decodes a byte sequence read from guest memory as UTF-8.
pub fn decode_guest_string(bytes: &Vec<u8>) -> (r: Result<String, WasmError>)
    ensures
        (r is Ok) <==> is_utf8(bytes@),
        r is Ok ==> r->Ok_0@ == utf8_chars(bytes@),
        r is Err ==> r->Err_0 is Utf8,
{
    match bytes_as_utf8(bytes.as_slice()) {
        Ok(s) => Ok(String::from_str(s)),
        Err(e) => Err(WasmError::Utf8(e)),
    }
}

/// Reads a guest string given as pointer+length: the bytes are fetched only
/// if the whole range lies within the current memory bound, then decoded as
/// UTF-8.
pub fn read_guest_string(view: &wasmer::MemoryView<'_>, ptr: u32, len: u32) -> (r: Result<String, WasmError>)
    ensures
        (ptr as int + len as int > view_bytes(*view).len()) <==> (r is Err && r->Err_0 is MemoryAccess),
        (ptr as int + len as int <= view_bytes(*view).len() && !is_utf8(guest_region(*view, ptr, len)))
            <==> (r is Err && r->Err_0 is Utf8),
        (r is Ok) <==> (ptr as int + len as int <= view_bytes(*view).len()
            && is_utf8(guest_region(*view, ptr, len))),
        r is Ok ==> r->Ok_0@ == utf8_chars(guest_region(*view, ptr, len)),
{
    let bytes = match read_guest_region(view, ptr, len) {
        Ok(bytes) => bytes,
        Err(e) => {
            return Err(e);
        },
    };
    decode_guest_string(&bytes)
}

} // verus!
