use vstd::prelude::*;
use crate::error::SnapError;
use crate::reply::{min_int, ModulesReply, NameReply, MODULE_HANDLE_BYTES};

verus! {

/// The characters that the permissive UTF-8 decoding yields for a byte
/// sequence.  The decoding depends on the bytes alone; its exact value is
/// left unspecified here and is provided by `decode_lossy`.
pub uninterp spec fn lossy_utf8(bytes: Seq<u8>) -> Seq<char>;

/// Relies on `String::from_utf8_lossy`: decodes bytes as UTF-8,
/// replacing invalid sequences with U+FFFD.  The result is a function of
/// the bytes alone; no bytes means no characters, and every non-empty
/// input yields at least one character (each byte either extends a valid
/// sequence or is covered by a replacement character).
#[verifier::external_body]
fn decode_lossy(bytes: &Vec<u8>) -> (r: String)
    ensures
        r@ == lossy_utf8(bytes@),
        bytes@.len() == 0 ==> r@.len() == 0,
        bytes@.len() > 0 ==> r@.len() > 0,
{
    String::from_utf8_lossy(bytes.as_slice()).into_owned()
}

/// Copy of the first `n` entries of a vector.
pub(crate) fn copy_prefix<T: Copy>(v: &Vec<T>, n: usize) -> (r: Vec<T>)
    requires
        n <= v.len(),
    ensures
        r@ == v@.take(n as int),
{
    let mut r: Vec<T> = Vec::new();
    let mut i: usize = 0;
    while i < n
        invariant
            i <= n <= v.len(),
            r@ == v@.take(i as int),
        decreases n - i,
    {
        r.push(v[i]);
        proof {
            assert(v@.take(i + 1) =~= v@.take(i as int).push(v@[i as int]));
        }
        i = i + 1;
    }
    r
}

/// Which module the resolver settles on for a reply: the first entry of
/// the module list (the base module, by enumeration-order convention),
/// or `NoModules` when the call failed or wrote no complete entry.
pub open spec fn base_module_of(r: ModulesReply) -> Result<u64, SnapError> {
    let count = min_int(r.bytes_written as int / MODULE_HANDLE_BYTES as int, r.modules@.len() as int);
    if !r.ok || count == 0 {
        Result::Err(SnapError::NoModules(r.os_error))
    } else {
        Result::Ok(r.modules@[0])
    }
}

/// What name a name-primitive reply decodes to: the permissive decoding
/// of the first `chars_written` bytes of the buffer, or
/// `NameResolutionFailed` when nothing was written.
pub open spec fn decoded_name_of(r: NameReply) -> Result<Seq<char>, SnapError> {
    let eff = min_int(r.chars_written as int, r.buf@.len() as int);
    if eff == 0 {
        Result::Err(SnapError::NameResolutionFailed(r.os_error))
    } else {
        Result::Ok(lossy_utf8(r.buf@.take(eff)))
    }
}

/// Selects the base module out of a module enumeration reply.
///
/// The module count is the reported bytes written divided by the size of
/// one module handle, capped by the buffer's length; a failed call or a
/// zero count means the process cannot be named.
pub fn select_base_module(r: &ModulesReply) -> (out: Result<u64, SnapError>)
    ensures
        out == base_module_of(*r),
{
    let count = ((r.bytes_written / MODULE_HANDLE_BYTES) as usize);
    let count = if count < r.modules.len() {
        count
    } else {
        r.modules.len()
    };
    if !r.ok || count == 0 {
        Err(SnapError::NoModules(r.os_error))
    } else {
        Ok(r.modules[0])
    }
}

/// Decodes the base name out of a name-primitive reply.
///
/// The reported character count, capped by the buffer's length, bounds
/// the bytes that are part of the name; zero means the call failed and
/// is an error, never an empty-string success.  A returned name is
/// therefore never empty.
pub fn decode_base_name(r: &NameReply) -> (out: Result<String, SnapError>)
    ensures
        (match (out, decoded_name_of(*r)) {
            (Result::Ok(s), Result::Ok(cs)) => s@ == cs && s@.len() > 0,
            (Result::Err(e), Result::Err(e2)) => e == e2,
            _ => false,
        }),
{
    let eff = if (r.chars_written as usize) < r.buf.len() {
        r.chars_written as usize
    } else {
        r.buf.len()
    };
    if eff == 0 {
        Err(SnapError::NameResolutionFailed(r.os_error))
    } else {
        let prefix = copy_prefix(&r.buf, eff);
        let s = decode_lossy(&prefix);
        Ok(s)
    }
}

} // verus!
