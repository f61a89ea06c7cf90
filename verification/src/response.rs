//! Classification of a response frame echoed by the device.

use vstd::prelude::*;

verus! {

/// Marker the firmware places in byte 0 of a response that it accepted.
pub const ACCEPT_MARKER: u8 = 0x01;

/// Smallest byte of the printable ASCII range.
pub const PRINTABLE_MIN: u8 = 32;

/// Largest byte of the printable ASCII range.
pub const PRINTABLE_MAX: u8 = 126;

/// Why a response was not accepted.
#[derive(Clone, Copy, Debug, PartialEq, Eq, Structural)]
pub enum RejectReason {
    /// Nothing arrived within the per-attempt timeout.
    NoResponse,
    /// The first byte was not the firmware's accept marker; carries that byte.
    StatusMismatch(u8),
    /// The echoed bytes after the marker differ from the payload that was sent.
    PayloadMismatch,
}

/// Verdict on one response frame. An accepted response may carry a
/// human-readable decoding of the echoed payload.
#[derive(Debug, PartialEq, Eq)]
pub enum Verdict {
    Accepted { text: Option<String> },
    Rejected { reason: RejectReason },
}

/// What `String::from_utf8_lossy` decodes the given bytes to.
pub uninterp spec fn utf8_lossy_of(bytes: Seq<u8>) -> Seq<char>;

/// What `str::trim` leaves of the given characters.
pub uninterp spec fn ws_trimmed_of(text: Seq<char>) -> Seq<char>;

/// `text` without its trailing run of `mark` characters.
pub open spec fn strip_trailing(text: Seq<char>, mark: char) -> Seq<char>
    decreases text.len(),
{
    if text.len() > 0 && text.last() == mark {
        strip_trailing(text.drop_last(), mark)
    } else {
        text
    }
}

/// The text surfaced for an accepted payload: its lossy UTF-8 decoding with
/// trailing NUL characters and surrounding whitespace removed.
pub open spec fn cleaned_text(payload: Seq<u8>) -> Seq<char> {
    ws_trimmed_of(strip_trailing(utf8_lossy_of(payload), '\0'))
}

/// Some byte of `payload` lies in the printable ASCII range.
pub open spec fn has_printable(payload: Seq<u8>) -> bool {
    exists|i: int| 0 <= i < payload.len() && PRINTABLE_MIN <= #[trigger] payload[i] <= PRINTABLE_MAX
}

/// A response of `len` bytes is accepted for `sent`: something arrived, its
/// first byte is the accept marker, and the rest echoes `sent` exactly.
pub open spec fn spec_accepted(response: Seq<u8>, len: int, sent: Seq<u8>) -> bool {
    0 < len <= response.len() && response[0] == ACCEPT_MARKER && response.subrange(1, len) == sent
}

/// Relies on `String::from_utf8_lossy`: the decoding depends on the bytes
/// alone, and bytes that are plain ASCII decode to themselves.
#[verifier::external_body]
fn utf8_lossy(bytes: &[u8]) -> (r: String)
    ensures
        r@ == utf8_lossy_of(bytes@),
        (forall|i: int| 0 <= i < bytes@.len() ==> bytes@[i] < 128) ==> r@ == Seq::new(
            bytes@.len(),
            |i: int| bytes@[i] as char,
        ),
{
    String::from_utf8_lossy(bytes).into_owned()
}

/// Relies on `str::trim_end_matches` with a fixed pattern character: it
/// removes exactly the trailing run of that character.
#[verifier::external_body]
fn trim_trailing_nul(s: &str) -> (r: String)
    ensures
        r@ == strip_trailing(s@, '\0'),
{
    s.trim_end_matches('\0').to_owned()
}

/// Relies on `str::trim`: the result depends on the characters alone, and an
/// empty input stays empty.
#[verifier::external_body]
fn trim_whitespace(s: &str) -> (r: String)
    ensures
        r@ == ws_trimmed_of(s@),
        s@.len() == 0 ==> r@.len() == 0,
{
    s.trim().to_owned()
}

/// Decides whether a response frame echoes the sent payload.
///
/// The rules apply in order: an empty response is `NoResponse`; a first byte
/// other than the accept marker is `StatusMismatch` carrying that byte; a
/// tail that differs from `sent_payload` is `PayloadMismatch`; otherwise the
/// response is accepted, with the cleaned decoding of the payload as text
/// when the payload holds a printable byte and the cleaning leaves anything.
pub fn classify(response: &[u8], bytes_read: usize, sent_payload: &[u8]) -> (v: Verdict)
    requires
        bytes_read <= response@.len(),
    ensures
        v is Accepted <==> spec_accepted(response@, bytes_read as int, sent_payload@),
        bytes_read == 0 ==> v == (Verdict::Rejected { reason: RejectReason::NoResponse }),
        bytes_read > 0 && response@[0] != ACCEPT_MARKER ==> v == (Verdict::Rejected {
            reason: RejectReason::StatusMismatch(response@[0]),
        }),
        bytes_read > 0 && response@[0] == ACCEPT_MARKER && response@.subrange(
            1,
            bytes_read as int,
        ) != sent_payload@ ==> v == (Verdict::Rejected { reason: RejectReason::PayloadMismatch }),
        spec_accepted(response@, bytes_read as int, sent_payload@) ==> (v matches Verdict::Accepted
            { text } && (if has_printable(sent_payload@) && cleaned_text(sent_payload@).len() > 0 {
            text matches Some(t) && t@ == cleaned_text(sent_payload@)
        } else {
            text is None
        })),
{
    if bytes_read == 0 {
        return Verdict::Rejected { reason: RejectReason::NoResponse };
    }
    let first = response[0];
    if first != ACCEPT_MARKER {
        return Verdict::Rejected { reason: RejectReason::StatusMismatch(first) };
    }
    if bytes_read - 1 != sent_payload.len() {
        proof {
            assert(response@.subrange(1, bytes_read as int).len() != sent_payload@.len());
        }
        return Verdict::Rejected { reason: RejectReason::PayloadMismatch };
    }
    let mut i: usize = 1;
    while i < bytes_read
        invariant
            1 <= i <= bytes_read <= response@.len(),
            bytes_read - 1 == sent_payload@.len(),
            response@[0] == ACCEPT_MARKER,
            forall|j: int| 1 <= j < i ==> response@[j] == sent_payload@[j - 1],
        decreases bytes_read - i,
    {
        if response[i] != sent_payload[i - 1] {
            proof {
                assert(response@.subrange(1, bytes_read as int)[i - 1] != sent_payload@[i - 1]);
            }
            return Verdict::Rejected { reason: RejectReason::PayloadMismatch };
        }
        i += 1;
    }
    proof {
        assert(response@.subrange(1, bytes_read as int) =~= sent_payload@);
    }
    let mut printable = false;
    let mut p: usize = 0;
    while p < sent_payload.len()
        invariant
            p <= sent_payload@.len(),
            printable <==> exists|j: int|
                0 <= j < p && PRINTABLE_MIN <= #[trigger] sent_payload@[j] <= PRINTABLE_MAX,
        decreases sent_payload@.len() - p,
    {
        if sent_payload[p] >= PRINTABLE_MIN && sent_payload[p] <= PRINTABLE_MAX {
            printable = true;
        }
        p += 1;
    }
    if !printable {
        return Verdict::Accepted { text: None };
    }
    let decoded = utf8_lossy(sent_payload);
    let unpadded = trim_trailing_nul(decoded.as_str());
    let clean = trim_whitespace(unpadded.as_str());
    if clean.as_str().is_empty() {
        Verdict::Accepted { text: None }
    } else {
        Verdict::Accepted { text: Some(clean) }
    }
}

} // verus!
