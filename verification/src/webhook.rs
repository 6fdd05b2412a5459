//! The notice sent to a webhook when a job ends: its body, its signature and the schedule of
//! its retries.
use vstd::prelude::*;
use vstd::utf8::{encode_utf8, is_char_boundary};
use crate::outside::{
    hex_encode, hmac_sha256, hmac_sha256_tag, json_fields_view, json_object_text,
    json_object_to_string, lower_hex, JsonScalar, JsonScalarView,
};
use crate::text::{parse_unsigned, parse_unsigned_max};

verus! {

/// Whether an output can be cut to the limit: it is short enough, or a character ends at
/// the limit.
pub open spec fn cuttable(s: Seq<char>) -> bool {
    encode_utf8(s).len() > 1000 ==> is_char_boundary(encode_utf8(s), 1000)
}

pub fn can_cut_output(s: &str) -> (b: bool)
    ensures
        b == cuttable(s@),
{
    s.as_bytes().len() <= 1000 || s.is_char_boundary(1000)
}

/// An output cut to its first 1000 bytes, as UTF-8.
pub fn cut_output(s: &str) -> (r: String)
    requires
        cuttable(s@),
    ensures
        encode_utf8(s@).len() <= 1000 ==> r@ == s@,
        encode_utf8(s@).len() > 1000 ==> encode_utf8(r@) == encode_utf8(s@).subrange(0, 1000),
{
    if s.as_bytes().len() > 1000 {
        let (head, _tail) = s.split_at(1000);
        head.to_owned()
    } else {
        s.to_owned()
    }
}

/// The fields of a notice, in the order they are given to the JSON writer.
pub open spec fn notice_fields(
    id: Seq<char>,
    status: Seq<char>,
    exit_code: Option<i32>,
    stdout: Seq<char>,
    stderr: Seq<char>,
    now: i64,
) -> Seq<(Seq<char>, JsonScalarView)> {
    seq![
        ("id"@, JsonScalarView::Text(id)),
        ("status"@, JsonScalarView::Text(status)),
        ("created_at"@, JsonScalarView::Int(now)),
        ("exit_code"@, match exit_code {
            Some(c) => JsonScalarView::Int(c as i64),
            None => JsonScalarView::Null,
        }),
        ("stdout"@, JsonScalarView::Text(stdout)),
        ("stderr"@, JsonScalarView::Text(stderr)),
    ]
}

fn push_field(fields: &mut Vec<(String, JsonScalar)>, key: &str, value: JsonScalar)
    ensures
        json_fields_view(final(fields)@) == json_fields_view(old(fields)@).push((key@, value@)),
{
    let ghost before = fields@;
    let ghost v = value@;
    fields.push((String::from_str(key), value));
    assert(json_fields_view(fields@) =~= json_fields_view(before).push((key@, v)));
}

/// The JSON body of the notice for a job: its id, status, time, exit code (or `null`) and
/// the first 1000 bytes of each output stream.
pub fn notice_body(id: &str, status: &str, exit_code: Option<i32>, stdout: &str, stderr: &str, now: i64) -> (body: String)
    requires
        cuttable(stdout@),
        cuttable(stderr@),
    ensures
        exists|out: Seq<char>, err: Seq<char>| {
            &&& (encode_utf8(stdout@).len() <= 1000 ==> out == stdout@)
            &&& (encode_utf8(stdout@).len() > 1000 ==> encode_utf8(out) == encode_utf8(stdout@).subrange(0, 1000))
            &&& (encode_utf8(stderr@).len() <= 1000 ==> err == stderr@)
            &&& (encode_utf8(stderr@).len() > 1000 ==> encode_utf8(err) == encode_utf8(stderr@).subrange(0, 1000))
            &&& body@ == json_object_text(notice_fields(id@, status@, exit_code, out, err, now))
        },
{
    let out = cut_output(stdout);
    let err = cut_output(stderr);
    let ghost (ov, ev) = (out@, err@);
    let mut fields: Vec<(String, JsonScalar)> = Vec::new();
    push_field(&mut fields, "id", JsonScalar::Text(String::from_str(id)));
    push_field(&mut fields, "status", JsonScalar::Text(String::from_str(status)));
    push_field(&mut fields, "created_at", JsonScalar::Int(now));
    let code = match exit_code {
        Some(c) => JsonScalar::Int(c as i64),
        None => JsonScalar::Null,
    };
    push_field(&mut fields, "exit_code", code);
    push_field(&mut fields, "stdout", JsonScalar::Text(out));
    push_field(&mut fields, "stderr", JsonScalar::Text(err));
    assert(json_fields_view(fields@) =~= notice_fields(id@, status@, exit_code, ov, ev, now));
    json_object_to_string(&fields)
}

/// The signature header value of a body under a secret: `sha256=` and the lowercase hex of
/// the HMAC-SHA256 tag of the body's UTF-8 bytes under the secret's.
pub open spec fn signature_spec(secret: Seq<char>, body: Seq<char>) -> Seq<char> {
    "sha256="@ + lower_hex(hmac_sha256(encode_utf8(secret), encode_utf8(body)))
}

pub fn sign_body(secret: &str, body: &str) -> (sig: String)
    ensures
        sig@ == signature_spec(secret@, body@),
{
    let tag = hmac_sha256_tag(secret.as_bytes(), body.as_bytes());
    signature_header(tag.as_slice())
}

/// The header value for a tag: `sha256=` and the tag in lowercase hex.
pub fn signature_header(tag: &[u8]) -> (sig: String)
    ensures
        sig@ == "sha256="@ + lower_hex(tag@),
{
    let digits = hex_encode(tag);
    let mut sig = String::from_str("sha256=");
    sig.append(digits.as_str());
    sig
}

/// The number of retries after the first attempt: `JOB_WEBHOOK_RETRIES` read as a `u32`, 3
/// when unset or unreadable.
pub open spec fn configured_retries(value: Option<String>) -> u32 {
    match value {
        Some(v) => match parse_unsigned(v@, u32::MAX as nat) {
            Some(n) => n as u32,
            None => 3,
        },
        None => 3,
    }
}

pub fn webhook_retries(value: &Option<String>) -> (n: u32)
    ensures
        n == configured_retries(*value),
{
    match value {
        Some(v) => match parse_unsigned_max(v.as_str(), u32::MAX as u64) {
            Some(n) => n as u32,
            None => 3,
        },
        None => 3,
    }
}

/// 2 to the power `e`.
pub open spec fn pow2(e: nat) -> nat
    decreases e,
{
    if e == 0 {
        1
    } else {
        2 * pow2((e - 1) as nat)
    }
}

/// The wait before the attempt after attempt `attempt` (from 0): `2^(attempt+1)` seconds,
/// the exponent capped at 6 and the wait at 30 seconds.
pub open spec fn backoff_spec(attempt: nat) -> nat {
    let e = if attempt + 1 < 6 { attempt + 1 } else { 6 };
    if pow2(e as nat) < 30 { pow2(e as nat) } else { 30 }
}

pub fn backoff_secs(attempt: u32) -> (secs: u64)
    requires
        attempt < u32::MAX,
    ensures
        secs == backoff_spec(attempt as nat),
{
    let e: u32 = if attempt + 1 < 6 { attempt + 1 } else { 6 };
    let p: u64 = match e {
        1 => 2,
        2 => 4,
        3 => 8,
        4 => 16,
        5 => 32,
        _ => 64,
    };
    proof {
        reveal_with_fuel(pow2, 7);
    }
    if p < 30 { p } else { 30 }
}

/// What to do once an attempt to deliver a notice ended.
#[derive(Debug, Clone, Copy, PartialEq, Eq)]
pub enum DeliveryStep {
    /// The receiver accepted it: stop.
    Delivered,
    /// Wait this many seconds, then try again.
    RetryAfter(u64),
    /// That was the last attempt: stop.
    GiveUp,
}

/// After attempt `attempt` (from 0) of at most `max_retries + 1`: stop when it was
/// accepted, give up after the last one, else wait the backoff and retry.
pub fn after_attempt(attempt: u32, max_retries: u32, accepted: bool) -> (step: DeliveryStep)
    requires
        attempt <= max_retries,
    ensures
        accepted ==> step == DeliveryStep::Delivered,
        !accepted && attempt == max_retries ==> step == DeliveryStep::GiveUp,
        !accepted && attempt < max_retries ==> step == DeliveryStep::RetryAfter(backoff_spec(attempt as nat) as u64),
{
    if accepted {
        DeliveryStep::Delivered
    } else if attempt == max_retries {
        DeliveryStep::GiveUp
    } else {
        DeliveryStep::RetryAfter(backoff_secs(attempt))
    }
}

/// The wait never exceeds 30 seconds and never shrinks from one attempt to the next.
pub proof fn backoff_bounded_and_growing(a: nat, b: nat)
    requires
        a <= b,
    ensures
        1 <= backoff_spec(a) <= 30,
        backoff_spec(a) <= backoff_spec(b),
{
    pow2_monotone(if a + 1 < 6 { a + 1 } else { 6 }, if b + 1 < 6 { b + 1 } else { 6 });
    pow2_positive(if a + 1 < 6 { a + 1 } else { 6 });
}

proof fn pow2_positive(e: nat)
    ensures
        pow2(e) >= 1,
    decreases e,
{
    if e > 0 {
        pow2_positive((e - 1) as nat);
    }
}

proof fn pow2_monotone(a: nat, b: nat)
    requires
        a <= b,
    ensures
        pow2(a) <= pow2(b),
    decreases b,
{
    if a < b {
        pow2_monotone(a, (b - 1) as nat);
        pow2_positive((b - 1) as nat);
    }
}

} // verus!
