//! Checks the signature header of an inbound webhook. Two schemes are in use
//! and both are accepted: a tag over the body alone, and a tag over the body
//! followed by the header's timestamp digits.
use vstd::prelude::*;
use vstd::string::StringSliceAdditionalSpecFns;
use vstd::utf8::encode_utf8;
use crate::digest::{hmac_sha256, hmac_sha256_of};
use crate::hexcode::{hex_digit_code, hex_nibble, is_hex_of, lemma_hex_has_no_separator_char, to_hex};

verus! {

/// Why a webhook was turned away.
#[derive(Clone, Copy, Debug, PartialEq, Eq, Structural)]
pub enum RejectReason {
    MissingHeader,
    MalformedHeader,
    SignatureMismatch,
}

/// The outcome of checking a webhook's signature.
#[derive(Clone, Copy, Debug, PartialEq, Eq, Structural)]
pub enum Verdict {
    Accept,
    Reject(RejectReason),
}

/// A token separator `", "` starts at position `i` of `h`.
pub open spec fn is_sep_at(h: Seq<char>, i: int) -> bool {
    &&& 0 <= i
    &&& i + 1 < h.len()
    &&& h[i] == ','
    &&& h[i + 1] == ' '
}

/// `h` holds no token separator.
pub open spec fn no_separator(h: Seq<char>) -> bool {
    forall|i: int| !#[trigger] is_sep_at(h, i)
}

/// The separator at `k` is the only one in `h`: splitting on `", "` gives two tokens.
pub open spec fn single_sep(h: Seq<char>, k: int) -> bool {
    &&& is_sep_at(h, k)
    &&& forall|j: int| #[trigger] is_sep_at(h, j) ==> j == k
}

/// `s` begins with `p`.
pub open spec fn has_prefix(s: Seq<char>, p: Seq<char>) -> bool {
    p.len() <= s.len() && s.subrange(0, p.len() as int) == p
}

/// The hex signature and the timestamp text of a well-formed header
/// `sha256=<hex>, t=<digits>`, or `None` where the header has another shape.
pub open spec fn parse_header(h: Seq<char>) -> Option<(Seq<char>, Seq<char>)> {
    if exists|k: int| single_sep(h, k) {
        let k = choose|k: int| single_sep(h, k);
        let first = h.subrange(0, k);
        let second = h.subrange(k + 2, h.len() as int);
        if has_prefix(first, "sha256="@) && has_prefix(second, "t="@) {
            Some((first.skip(7), second.skip(2)))
        } else {
            None
        }
    } else {
        None
    }
}

/// A character's code with ASCII capitals folded to lowercase.
pub open spec fn fold_case(c: char) -> u32 {
    let k = c as u32;
    if 65 <= k <= 90 {
        (k + 32) as u32
    } else {
        k
    }
}

/// `sig`, ignoring ASCII case, is the lowercase hex text of `tag`.
pub open spec fn matches_tag(sig: Seq<char>, tag: Seq<u8>) -> bool {
    &&& sig.len() == 2 * tag.len()
    &&& forall|i: int| 0 <= i < sig.len() ==> #[trigger] fold_case(sig[i]) == hex_digit_code(hex_nibble(tag, i))
}

/// What `verify` decides for a body, an optional header and the shared secret.
pub open spec fn verdict_of(body: Seq<u8>, header: Option<Seq<char>>, secret: Seq<u8>) -> Verdict {
    match header {
        None => Verdict::Reject(RejectReason::MissingHeader),
        Some(h) => match parse_header(h) {
            None => Verdict::Reject(RejectReason::MalformedHeader),
            Some((sig, ts)) => {
                if matches_tag(sig, hmac_sha256_of(secret, body)) || matches_tag(
                    sig,
                    hmac_sha256_of(secret, body + encode_utf8(ts)),
                ) {
                    Verdict::Accept
                } else {
                    Verdict::Reject(RejectReason::SignatureMismatch)
                }
            },
        },
    }
}

/// Whether `p` occurs in `s` at position `at`.
fn occurs_at(s: &str, at: usize, p: &str) -> (r: bool)
    requires
        at <= s@.len(),
    ensures
        r == has_prefix(s@.skip(at as int), p@),
{
    let n = s.unicode_len();
    let m = p.unicode_len();
    if m > n - at {
        return false;
    }
    let mut i: usize = 0;
    while i < m
        invariant
            n == s@.len(),
            m == p@.len(),
            at + m <= n,
            i <= m,
            forall|j: int| 0 <= j < i ==> s@[at + j] == p@[j],
        decreases m - i,
    {
        if s.get_char(at + i) != p.get_char(i) {
            assert(s@.skip(at as int).subrange(0, m as int)[i as int] != p@[i as int]);
            return false;
        }
        i = i + 1;
    }
    assert(s@.skip(at as int).subrange(0, m as int) =~= p@);
    true
}

/// The position of the only token separator in `h`, if it has exactly one.
fn find_single_sep(h: &str) -> (r: Option<usize>)
    ensures
        r matches Some(k) ==> single_sep(h@, k as int),
        r is None ==> !exists|k: int| single_sep(h@, k),
{
    let n = h.unicode_len();
    let mut first: Option<usize> = None;
    let mut i: usize = 0;
    while i < n && i + 1 < n
        invariant
            n == h@.len(),
            i <= n,
            first matches Some(k) ==> k < i && is_sep_at(h@, k as int),
            forall|j: int|
                0 <= j < i && #[trigger] is_sep_at(h@, j) ==> (first matches Some(k) && j == k),
        decreases n - i,
    {
        if h.get_char(i) == ',' && h.get_char(i + 1) == ' ' {
            if let Some(k) = first {
                assert(is_sep_at(h@, i as int));
                assert forall|k2: int| !single_sep(h@, k2) by {
                    if single_sep(h@, k2) {
                        assert(is_sep_at(h@, k as int));
                    }
                }
                return None;
            }
            first = Some(i);
        }
        i = i + 1;
    }
    match first {
        Some(k) => {
            assert forall|j: int| #[trigger] is_sep_at(h@, j) implies j == k by {
                assert(j < i);
            }
            Some(k)
        },
        None => {
            assert forall|k: int| !single_sep(h@, k) by {
                if is_sep_at(h@, k) {
                    assert(k < i);
                }
            }
            None
        },
    }
}

/// Splits a header of the shape `sha256=<hex>, t=<digits>` into its
/// signature and timestamp; `None` for any other shape.
pub fn split_header(h: &str) -> (r: Option<(&str, &str)>)
    ensures
        r is Some <==> parse_header(h@) is Some,
        r matches Some((sig, ts)) ==> parse_header(h@) == Some((sig@, ts@)),
{
    let ghost hv = h@;
    match find_single_sep(h) {
        None => None,
        Some(k) => {
            let n = h.unicode_len();
            let first = h.substring_char(0, k);
            let second = h.substring_char(k + 2, n);
            proof {
                assert(single_sep(hv, k as int));
                let kk = choose|kk: int| single_sep(hv, kk);
                assert(kk == k);
                assert(first@.skip(0) =~= first@);
                assert(second@.skip(0) =~= second@);
            }
            let sha_ok = occurs_at(first, 0, "sha256=");
            let t_ok = occurs_at(second, 0, "t=");
            if sha_ok && t_ok {
                proof {
                    reveal_strlit("sha256=");
                    reveal_strlit("t=");
                }
                let sig = first.substring_char(7, k);
                let ts = second.substring_char(2, n - (k + 2));
                proof {
                    assert(sig@ =~= first@.skip(7));
                    assert(ts@ =~= second@.skip(2));
                }
                Some((sig, ts))
            } else {
                None
            }
        },
    }
}

/// Whether `sig`, ignoring ASCII case, equals the hex text `expected`. Every
/// position is compared whatever the earlier ones gave, so the time taken does
/// not tell how much of a forged signature was right.
fn equal_ignoring_case(sig: &str, expected: &str) -> (r: bool)
    ensures
        r == (sig@.len() == expected@.len() && forall|i: int|
            0 <= i < sig@.len() ==> #[trigger] fold_case(sig@[i]) == fold_case(expected@[i])),
{
    let n = sig.unicode_len();
    if n != expected.unicode_len() {
        return false;
    }
    let mut diff: u32 = 0;
    let mut i: usize = 0;
    while i < n
        invariant
            n == sig@.len(),
            n == expected@.len(),
            i <= n,
            (diff == 0) == forall|j: int|
                0 <= j < i ==> #[trigger] fold_case(sig@[j]) == fold_case(expected@[j]),
        decreases n - i,
    {
        let a = sig.get_char(i) as u32;
        let b = expected.get_char(i) as u32;
        let fa: u32 = if 65 <= a && a <= 90 { a + 32 } else { a };
        let fb: u32 = if 65 <= b && b <= 90 { b + 32 } else { b };
        let ghost prev = diff;
        diff = diff | (fa ^ fb);
        proof {
            assert((prev | (fa ^ fb)) == 0 <==> (prev == 0 && fa == fb)) by (bit_vector);
            assert(fa == fold_case(sig@[i as int]));
            assert(fb == fold_case(expected@[i as int]));
            if diff == 0 {
                assert forall|j: int| 0 <= j < i + 1 implies #[trigger] fold_case(sig@[j]) == fold_case(
                    expected@[j],
                ) by {
                    if j < i {
                        assert(prev == 0);
                    }
                }
            }
        }
        i = i + 1;
    }
    diff == 0
}

/// Whether `sig` names the HMAC-SHA256 tag of `head` followed by `tail` under `key`.
fn tag_matches(sig: &str, key: &[u8], head: &[u8], tail: &[u8]) -> (r: bool)
    ensures
        r == matches_tag(sig@, hmac_sha256_of(key@, head@ + tail@)),
{
    let tag = hmac_sha256(key, head, tail);
    let expected = to_hex(tag.as_slice());
    let r = equal_ignoring_case(sig, expected.as_str());
    proof {
        let t = hmac_sha256_of(key@, head@ + tail@);
        assert forall|i: int| 0 <= i < expected@.len() implies #[trigger] fold_case(expected@[i])
            == hex_digit_code(hex_nibble(t, i)) by {
            lemma_hex_has_no_separator_char(expected@, t, i);
        }
    }
    r
}

/// Checks a webhook: the header must read `sha256=<hex>, t=<digits>`, and the
/// hex must name, ignoring case, the HMAC-SHA256 tag under `secret` of either
/// the raw body or the raw body followed by the timestamp's bytes. The
/// timestamp's age is not looked at.
pub fn verify(body: &[u8], header: Option<&str>, secret: &str) -> (r: Verdict)
    ensures
        r == verdict_of(
            body@,
            match header {
                Some(h) => Some(h@),
                None => None,
            },
            secret.spec_bytes(),
        ),
{
    match header {
        None => Verdict::Reject(RejectReason::MissingHeader),
        Some(h) => match split_header(h) {
            None => Verdict::Reject(RejectReason::MalformedHeader),
            Some((sig, ts)) => {
                let key = secret.as_bytes();
                let empty: [u8; 0] = [];
                let legacy = tag_matches(sig, key, body, &empty);
                let current = tag_matches(sig, key, body, ts.as_bytes());
                proof {
                    assert(body@ + empty@ =~= body@);
                }
                if legacy || current {
                    Verdict::Accept
                } else {
                    Verdict::Reject(RejectReason::SignatureMismatch)
                }
            },
        },
    }
}

/// `s` holds no comma.
pub open spec fn no_comma(s: Seq<char>) -> bool {
    forall|i: int| 0 <= i < s.len() ==> s[i] != ','
}

/// A header built as `sha256=<sig>, t=<ts>` splits back into `sig` and `ts`
/// when `sig` holds no comma and `ts` no separator.
pub proof fn lemma_header_round_trip(sig: Seq<char>, ts: Seq<char>)
    requires
        no_comma(sig),
        no_separator(ts),
    ensures
        parse_header("sha256="@ + sig + ", t="@ + ts) == Some((sig, ts)),
{
    reveal_strlit("sha256=");
    reveal_strlit(", t=");
    reveal_strlit("t=");
    let h = "sha256="@ + sig + ", t="@ + ts;
    let k = 7 + sig.len() as int;
    assert(h[k] == ',' && h[k + 1] == ' ');
    assert(is_sep_at(h, k));
    assert forall|j: int| #[trigger] is_sep_at(h, j) implies j == k by {
        if j < 7 {
            assert(h[j] == "sha256="@[j]);
        } else if j < k {
            assert(h[j] == sig[j - 7]);
        } else if k < j < k + 4 {
            assert(h[j] == ", t="@[j - k]);
        } else if j >= k + 4 {
            assert(h[j] == ts[j - k - 4]);
            assert(h[j + 1] == ts[j - k - 3]);
            assert(is_sep_at(ts, j - k - 4));
        }
    }
    assert(single_sep(h, k));
    let kk = choose|kk: int| single_sep(h, kk);
    assert(kk == k);
    let first = h.subrange(0, k);
    let second = h.subrange(k + 2, h.len() as int);
    assert(first =~= "sha256="@ + sig);
    assert(second =~= "t="@ + ts);
    assert(first.subrange(0, 7) =~= "sha256="@);
    assert(second.subrange(0, 2) =~= "t="@);
    assert(first.skip(7) =~= sig);
    assert(second.skip(2) =~= ts);
}

/// Hex text names its bytes under `matches_tag`.
pub proof fn lemma_hex_matches_tag(sig: Seq<char>, tag: Seq<u8>)
    requires
        is_hex_of(sig, tag),
    ensures
        matches_tag(sig, tag),
        no_comma(sig),
{
    assert forall|i: int| 0 <= i < sig.len() implies #[trigger] fold_case(sig[i]) == hex_digit_code(
        hex_nibble(tag, i),
    ) by {
        lemma_hex_has_no_separator_char(sig, tag, i);
    }
    assert forall|i: int| 0 <= i < sig.len() implies sig[i] != ',' by {
        lemma_hex_has_no_separator_char(sig, tag, i);
    }
}

/// A header whose signature is the hex tag of the body alone is accepted,
/// whatever its timestamp (as long as the timestamp holds no `", "`).
pub proof fn lemma_body_only_signature_accepted(
    body: Seq<u8>,
    secret: Seq<u8>,
    sig: Seq<char>,
    ts: Seq<char>,
)
    requires
        is_hex_of(sig, hmac_sha256_of(secret, body)),
        no_separator(ts),
    ensures
        verdict_of(body, Some("sha256="@ + sig + ", t="@ + ts), secret) == Verdict::Accept,
{
    lemma_hex_matches_tag(sig, hmac_sha256_of(secret, body));
    lemma_header_round_trip(sig, ts);
}

/// A header whose signature is the hex tag of the body followed by the
/// timestamp's bytes is accepted (the timestamp holding no `", "`).
pub proof fn lemma_body_and_timestamp_signature_accepted(
    body: Seq<u8>,
    secret: Seq<u8>,
    sig: Seq<char>,
    ts: Seq<char>,
)
    requires
        is_hex_of(sig, hmac_sha256_of(secret, body + encode_utf8(ts))),
        no_separator(ts),
    ensures
        verdict_of(body, Some("sha256="@ + sig + ", t="@ + ts), secret) == Verdict::Accept,
{
    lemma_hex_matches_tag(sig, hmac_sha256_of(secret, body + encode_utf8(ts)));
    lemma_header_round_trip(sig, ts);
}

/// A header with a single token, lacking either the signature or the
/// timestamp, is malformed.
pub proof fn lemma_single_token_rejected(body: Seq<u8>, secret: Seq<u8>, h: Seq<char>)
    requires
        no_separator(h),
    ensures
        verdict_of(body, Some(h), secret) == Verdict::Reject(RejectReason::MalformedHeader),
{
    assert(!exists|k: int| single_sep(h, k));
}

/// A header with the timestamp token first is malformed, whatever the tokens hold.
pub proof fn lemma_swapped_tokens_rejected(
    body: Seq<u8>,
    secret: Seq<u8>,
    sig: Seq<char>,
    ts: Seq<char>,
)
    ensures
        verdict_of(body, Some("t="@ + ts + ", sha256="@ + sig), secret) == Verdict::Reject(
            RejectReason::MalformedHeader,
        ),
{
    reveal_strlit("t=");
    reveal_strlit("sha256=");
    let h = "t="@ + ts + ", sha256="@ + sig;
    if exists|k: int| single_sep(h, k) {
        let k = choose|k: int| single_sep(h, k);
        let first = h.subrange(0, k);
        if has_prefix(first, "sha256="@) {
            assert(first[0] == "sha256="@[0]);
            assert(h[0] == 't');
        }
    }
}

} // verus!
