//! Record ids made from the clock, and paths shown as text.
use vstd::prelude::*;
use vstd::utf8::{decode_utf8, valid_utf8};
use crate::text::{decimal, owned, push_decimal, push_str};

verus! {

/// Reads `SystemTime::now()` and its distance from the Unix epoch (zero when
/// the clock is before it), as whole milliseconds and the nanoseconds within
/// the current second. The time is not stated; `subsec_nanos` is below one
/// billion, as its documentation says.
#[verifier::external_body]
fn unix_time_now() -> (r: (u128, u32))
    ensures
        r.1 < 1_000_000_000,
{
    let elapsed = std::time::SystemTime::now().duration_since(std::time::UNIX_EPOCH).unwrap_or_default();
    (elapsed.as_millis(), elapsed.subsec_nanos())
}

/// The id `<prefix>_<milliseconds>_<nanoseconds>`.
pub open spec fn id_spec(prefix: Seq<char>, millis: nat, nanos: nat) -> Seq<char> {
    prefix + seq!['_'] + decimal(millis) + seq!['_'] + decimal(nanos)
}

/// The id for a record made at the given time since the epoch.
pub fn format_id(prefix: &str, millis: u128, nanos: u32) -> (r: String)
    ensures
        r@ == id_spec(prefix@, millis as nat, nanos as nat),
{
    let mut out = owned(prefix);
    out.push('_');
    push_decimal(&mut out, millis);
    out.push('_');
    push_decimal(&mut out, nanos as u128);
    assert(out@ =~= id_spec(prefix@, millis as nat, nanos as nat));
    out
}

/// A new id with the given prefix, made from the current time.
pub fn make_id(prefix: &str) -> (r: String)
    ensures
        exists|millis: nat, nanos: nat| nanos < 1_000_000_000 && r@ == id_spec(prefix@, millis, nanos),
{
    let (millis, nanos) = unix_time_now();
    format_id(prefix, millis, nanos)
}

/// A new capture id.
pub fn now_id() -> (r: String)
    ensures
        exists|millis: nat, nanos: nat| nanos < 1_000_000_000 && r@ == id_spec("cap"@, millis, nanos),
{
    make_id("cap")
}

/// The text `String::from_utf8_lossy` makes of a byte string.
pub uninterp spec fn lossy_text(bytes: Seq<u8>) -> Seq<char>;

/// Calls `String::from_utf8_lossy`, which decodes valid UTF-8 unchanged and
/// puts U+FFFD in place of invalid sequences. Its result is named `lossy_text`;
/// how invalid sequences are grouped is not restated.
#[verifier::external_body]
fn utf8_lossy(bytes: &[u8]) -> (r: String)
    ensures
        r@ == lossy_text(bytes@),
        valid_utf8(bytes@) ==> r@ == decode_utf8(bytes@),
{
    String::from_utf8_lossy(bytes).into_owned()
}

/// A path shown as text, given the bytes of the path: valid UTF-8 is shown as
/// it is, anything else lossily.
pub fn display_path(path: &[u8]) -> (r: String)
    ensures
        r@ == lossy_text(path@),
        valid_utf8(path@) ==> r@ == decode_utf8(path@),
{
    utf8_lossy(path)
}

} // verus!
