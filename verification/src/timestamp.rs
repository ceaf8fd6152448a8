//! Memory timestamps: epoch milliseconds written as zero-padded decimal text,
//! so that HelixDB orders them by plain string comparison.
use vstd::prelude::*;
use crate::numbers::{
    decimal, zero_pad, zero_padded, lex_lt, pow10, all_digits, digits_value, lemma_decimal_value,
    lemma_decimal_len, lemma_zeros_prefix, lemma_digits_lex,
};

verus! {

/// The width timestamps are padded to.
pub const TS_WIDTH: usize = 15;

/// The timestamp text of `millis` milliseconds since the Unix epoch.
pub open spec fn ts_text(millis: nat) -> Seq<char> {
    zero_pad(decimal(millis), TS_WIDTH as nat)
}

/// The timestamp text of `millis`, as `format!("{millis:015}")` writes it.
pub fn timestamp_text(millis: u128) -> (r: String)
    ensures
        r@ == ts_text(millis as nat),
{
    zero_padded(millis, TS_WIDTH)
}

#[verifier::external_type_specification]
#[verifier::external_body]
pub struct ExSystemTime(std::time::SystemTime);

#[verifier::external_type_specification]
#[verifier::external_body]
pub struct ExSystemTimeError(std::time::SystemTimeError);

/// Trusted: `SystemTime::now`. What it returns depends on the clock, so
/// nothing is stated of it.
#[verifier::external_body]
fn system_time_now() -> std::time::SystemTime {
    std::time::SystemTime::now()
}

/// Trusted: `SystemTime::duration_since(UNIX_EPOCH)`. It fails when the time
/// lies before the epoch; the contents of its result are not stated.
#[verifier::external_body]
fn since_unix_epoch(t: &std::time::SystemTime) -> core::result::Result<
    core::time::Duration,
    std::time::SystemTimeError,
> {
    t.duration_since(std::time::UNIX_EPOCH)
}

/// Trusted: `Duration::as_millis`; the duration is opaque here, so nothing is
/// stated of the number.
#[verifier::external_body]
fn duration_as_millis(d: &core::time::Duration) -> u128 {
    d.as_millis()
}

/// A lexicographically sortable timestamp of the current time: epoch
/// milliseconds, zero-padded to 15 digits (0 when the clock reads before the
/// epoch).
pub fn now_ts() -> (r: String)
    ensures
        exists|millis: nat| r@ == ts_text(millis),
{
    let now = system_time_now();
    let millis = match since_unix_epoch(&now) {
        Ok(d) => duration_as_millis(&d),
        Err(_) => 0,
    };
    timestamp_text(millis)
}

/// A timestamp text below 10^15 milliseconds is exactly 15 digits that read
/// back as the number.
pub proof fn lemma_ts_text_shape(millis: nat)
    requires
        millis < pow10(15),
    ensures
        ts_text(millis).len() == TS_WIDTH,
        TS_WIDTH == 15,
        all_digits(ts_text(millis)),
        digits_value(ts_text(millis)) == millis,
{
    lemma_decimal_value(millis);
    lemma_decimal_len(millis, 15);
    let d = decimal(millis);
    if d.len() < 15 {
        lemma_zeros_prefix((15 - d.len()) as nat, d);
    }
}

/// Timestamps sort as text in the order of the times they stand for: for
/// times below 10^15 ms (the year 33658), an earlier time gives a
/// lexicographically smaller text, of the same length.
pub proof fn lemma_ts_order(earlier: nat, later: nat)
    requires
        earlier < later < pow10(15),
    ensures
        ts_text(earlier).len() == ts_text(later).len(),
        lex_lt(ts_text(earlier), ts_text(later)),
{
    lemma_ts_text_shape(earlier);
    lemma_ts_text_shape(later);
    lemma_digits_lex(ts_text(earlier), ts_text(later));
}

} // verus!
