//! DTMF digits: telephone events in RTP, the digits in SIP INFO bodies, and the
//! frames that send them.

use crate::json::Json;
use crate::text;
use vstd::prelude::*;

verus! {

/// The digit that a telephone event code stands for.
pub open spec fn digit_of(code: u8) -> Option<char> {
    if code < 10 {
        Some(((48 + code) as u32) as char)
    } else if code == 10 {
        Some('*')
    } else if code == 11 {
        Some('#')
    } else if code < 16 {
        Some(((65 + (code - 12)) as u32) as char)
    } else {
        None
    }
}

/// The telephone event code of a digit.
pub open spec fn code_of(digit: char) -> Option<u8> {
    let n = digit as u32;
    if 48 <= n <= 57 {
        Some((n - 48) as u8)
    } else if digit == '*' {
        Some(10)
    } else if digit == '#' {
        Some(11)
    } else if 65 <= n <= 68 {
        Some((n - 65 + 12) as u8)
    } else {
        None
    }
}

/// Codes and digits stand for each other: sixteen codes, sixteen digits.
pub proof fn digits_and_codes_agree(code: u8, digit: char)
    ensures
        digit_of(code) == Some(digit) <==> code_of(digit) == Some(code),
        digit_of(code) is Some <==> code < 16,
{
}

pub fn dtmf_code_to_char(code: u8) -> (r: Option<char>)
    ensures
        r == digit_of(code),
{
    if code < 10 {
        Some((48 + code) as char)
    } else if code == 10 {
        Some('*')
    } else if code == 11 {
        Some('#')
    } else if code < 16 {
        Some((65 + (code - 12)) as char)
    } else {
        None
    }
}

pub fn dtmf_char_to_code(digit: char) -> (r: Option<u8>)
    ensures
        r == code_of(digit),
{
    let n: u32 = digit as u32;
    if 48 <= n && n <= 57 {
        Some((n - 48) as u8)
    } else if digit == '*' {
        Some(10)
    } else if digit == '#' {
        Some(11)
    } else if 65 <= n && n <= 68 {
        Some((n - 65 + 12) as u8)
    } else {
        None
    }
}

/// Reports each telephone event of an RTP stream once. The packets of one event
/// share its code and its timestamp.
pub struct RtpDtmfDetector {
    last: Option<(u8, u32)>,
}

impl Default for RtpDtmfDetector {
    fn default() -> (r: Self)
        ensures
            r.last_event() is None,
    {
        RtpDtmfDetector { last: None }
    }
}

impl RtpDtmfDetector {
    /// Code and timestamp of the event reported last.
    pub closed spec fn last_event(&self) -> Option<(u8, u32)> {
        self.last
    }

    /// The payload is a telephone event that was not reported just before.
    pub open spec fn is_new_event(last: Option<(u8, u32)>, payload: Seq<u8>, timestamp: u32) -> bool {
        payload.len() >= 4 && digit_of(payload[0]) is Some && last != Some((payload[0], timestamp))
    }

    /// How a detector stands after a payload, and the digit that it reports.
    pub open spec fn observed(
        before: RtpDtmfDetector,
        after: RtpDtmfDetector,
        payload: Seq<u8>,
        timestamp: u32,
        digit: Option<char>,
    ) -> bool {
        if Self::is_new_event(before.last_event(), payload, timestamp) {
            digit is Some && digit == digit_of(payload[0]) && after.last_event() == Some(
                (payload[0], timestamp),
            )
        } else {
            digit is None && after.last_event() == before.last_event()
        }
    }

    /// The digit of the event in the payload, where the event is a new one.
    pub fn observe(&mut self, payload: &[u8], rtp_timestamp: u32) -> (r: Option<char>)
        ensures
            Self::observed(*old(self), *final(self), payload@, rtp_timestamp, r),
    {
        if payload.len() < 4 {
            return None;
        }
        let code: u8 = payload[0];
        let digit = dtmf_code_to_char(code);
        if digit.is_none() {
            return None;
        }
        if let Some((c, t)) = self.last {
            if c == code && t == rtp_timestamp {
                return None;
            }
        }
        self.last = Some((code, rtp_timestamp));
        digit
    }
}

/// Once an event was reported, the other packets of it are not.
pub proof fn event_is_reported_once(payload: Seq<u8>, again: Seq<u8>, timestamp: u32)
    requires
        payload.len() >= 4,
        again.len() >= 4,
        again[0] == payload[0],
    ensures
        !RtpDtmfDetector::is_new_event(Some((payload[0], timestamp)), again, timestamp),
        digit_of(again[0]) is Some ==> forall|later: u32|
            later != timestamp ==> #[trigger] RtpDtmfDetector::is_new_event(
                Some((payload[0], timestamp)),
                again,
                later,
            ),
{
}

/// The four bytes of a telephone event: code, end flag, duration.
pub open spec fn event_payload(code: u8, end: bool, duration: u16) -> Seq<u8> {
    seq![code, if end { 0x80u8 } else { 0u8 }, (duration / 256) as u8, (duration % 256) as u8]
}

/// The telephone event payload for a digit; fails for what is no DTMF digit.
pub fn build_telephone_event_payload(digit: char, end: bool, duration_samples: u16) -> (r: Result<
    Vec<u8>,
    char,
>)
    ensures
        r is Ok <==> code_of(digit) is Some,
        r matches Ok(payload) ==> payload@ == event_payload(
            code_of(digit)->0,
            end,
            duration_samples,
        ),
        r matches Err(bad) ==> bad == digit,
{
    match dtmf_char_to_code(digit) {
        None => Err(digit),
        Some(code) => {
            let mut payload: Vec<u8> = Vec::new();
            payload.push(code);
            payload.push(if end { 0x80 } else { 0 });
            payload.push((duration_samples / 256) as u8);
            payload.push((duration_samples % 256) as u8);
            assert(payload@ =~= event_payload(code, end, duration_samples));
            Ok(payload)
        },
    }
}

/// A detector reads the digit back out of the payload that was built for it.
pub proof fn built_payload_is_observed(digit: char, end: bool, duration: u16, timestamp: u32)
    requires
        code_of(digit) is Some,
    ensures
        ({
            let payload = event_payload(code_of(digit)->0, end, duration);
            RtpDtmfDetector::is_new_event(None, payload, timestamp) && digit_of(payload[0]) == Some(
                digit,
            )
        }),
{
}

pub open spec fn payload_accepted(types: Seq<u8>, payload_type: Option<u8>) -> bool {
    match payload_type {
        Some(pt) => types.contains(pt),
        None => true,
    }
}

/// Whether a frame is looked at for DTMF: one without a payload type, or with one
/// that was negotiated for telephone events.
pub fn accepts_frame(types: &Vec<u8>, payload_type: Option<u8>) -> (r: bool)
    ensures
        r == payload_accepted(types@, payload_type),
{
    match payload_type {
        None => true,
        Some(pt) => {
            let mut i: usize = 0;
            while i < types.len()
                invariant
                    i <= types@.len(),
                    payload_type == Some(pt),
                    forall|j: int| 0 <= j < i ==> #[trigger] types@[j] != pt,
                decreases types@.len() - i,
            {
                if types[i] == pt {
                    assert(types@[i as int] == pt);
                    return true;
                }
                i += 1;
            }
            false
        },
    }
}

pub open spec fn strictly_sorted(s: Seq<u8>) -> bool {
    forall|i: int, j: int| 0 <= i < j < s.len() ==> s[i] < s[j]
}

/// The payload types to watch: those extracted from the answer, or else the one of
/// the negotiated DTMF codec; ascending, each once.
pub fn dtmf_payload_types(extracted: &Vec<u8>, negotiated: u8) -> (r: Vec<u8>)
    ensures
        strictly_sorted(r@),
        extracted@.len() > 0 ==> forall|pt: u8| r@.contains(pt) <==> #[trigger] extracted@.contains(pt),
        extracted@.len() == 0 ==> r@ == seq![negotiated],
{
    let mut r: Vec<u8> = Vec::new();
    if extracted.len() == 0 {
        r.push(negotiated);
        assert(r@ =~= seq![negotiated]);
        return r;
    }
    let mut i: usize = 0;
    while i < extracted.len()
        invariant
            i <= extracted@.len(),
            strictly_sorted(r@),
            forall|pt: u8| r@.contains(pt) <==> #[trigger] extracted@.subrange(0, i as int).contains(pt),
        decreases extracted@.len() - i,
    {
        let pt: u8 = extracted[i];
        let mut k: usize = 0;
        while k < r.len() && r[k] < pt
            invariant
                k <= r@.len(),
                forall|j: int| 0 <= j < k ==> #[trigger] r@[j] < pt,
            decreases r@.len() - k,
        {
            k += 1;
        }
        let ghost old_r = r@;
        let ghost seen = extracted@.subrange(0, i as int);
        let ghost now = extracted@.subrange(0, i + 1);
        proof {
            assert(now =~= seen.push(pt));
            assert forall|x: u8| #[trigger] now.contains(x) <==> (seen.contains(x) || x == pt) by {
                if seen.contains(x) {
                    let w = choose|w: int| 0 <= w < seen.len() && seen[w] == x;
                    assert(now[w] == x);
                }
                if x == pt {
                    assert(now[i as int] == x);
                }
            }
        }
        if k < r.len() && r[k] == pt {
            assert(old_r[k as int] == pt);
            assert(old_r.contains(pt));
        } else {
            r.insert(k, pt);
            proof {
                assert(r@ == old_r.insert(k as int, pt));
                assert forall|x: u8| r@.contains(x) <==> (old_r.contains(x) || x == pt) by {
                    if old_r.contains(x) {
                        let w = choose|w: int| 0 <= w < old_r.len() && old_r[w] == x;
                        if w < k {
                            assert(r@[w] == x);
                        } else {
                            assert(r@[w + 1] == x);
                        }
                    }
                    if x == pt {
                        assert(r@[k as int] == x);
                    }
                    if r@.contains(x) && x != pt {
                        let w = choose|w: int| 0 <= w < r@.len() && r@[w] == x;
                        if w < k {
                            assert(old_r[w] == x);
                        } else {
                            assert(old_r[w - 1] == x);
                        }
                    }
                }
                assert forall|a: int, b: int| 0 <= a < b < r@.len() implies r@[a] < r@[b] by {
                    if k < old_r.len() {
                        assert(old_r[k as int] > pt);
                    }
                    if a < k && b > k {
                        assert(old_r[a] < old_r[b - 1]);
                    } else if a < k && b < k {
                        assert(old_r[a] < old_r[b]);
                    } else if a > k {
                        assert(old_r[a - 1] < old_r[b - 1]);
                    } else if a == k {
                        assert(b - 1 == k || old_r[k as int] < old_r[b - 1]);
                    }
                }
            }
        }
        proof {
            assert forall|x: u8| r@.contains(x) <==> #[trigger] now.contains(x) by {
                assert(old_r.contains(x) <==> seen.contains(x));
            }
        }
        i += 1;
    }
    assert(extracted@.subrange(0, extracted@.len() as int) =~= extracted@);
    r
}

/// The text without any number of copies of `p` at its start.
pub open spec fn strip_copies(s: Seq<char>, p: Seq<char>) -> Seq<char>
    decreases s.len(),
{
    if p.len() > 0 && text::starts_with(s, p) {
        strip_copies(s.subrange(p.len() as int, s.len() as int), p)
    } else {
        s
    }
}

/// The text from its first `s` or `S` on.
pub open spec fn from_letter_s(s: Seq<char>) -> Seq<char>
    decreases s.len(),
{
    if s.len() > 0 && text::lower_char(s[0]) != 's' {
        from_letter_s(s.drop_first())
    } else {
        s
    }
}

/// The digit that a line of a DTMF relay body signals: the first character behind
/// the key, which is recognised in any case and removed where it is written
/// `Signal=` or `signal=`.
pub open spec fn signal_digit(line: Seq<char>) -> Option<char> {
    let line = text::trimmed(line);
    if text::starts_with(text::lowercase(line), "signal="@) {
        let value = text::trimmed(
            strip_copies(strip_copies(from_letter_s(line), "Signal="@), "signal="@),
        );
        if value.len() > 0 {
            Some(value[0])
        } else {
            None
        }
    } else {
        None
    }
}

/// The signalled digits of the lines.
pub open spec fn signal_digits(all: Seq<Seq<char>>) -> Seq<char>
    decreases all.len(),
{
    if all.len() == 0 {
        Seq::empty()
    } else {
        let before = signal_digits(all.drop_last());
        match signal_digit(all.last()) {
            Some(d) => before.push(d),
            None => before,
        }
    }
}

fn strip_copies_of(s: String, p: &str) -> (r: String)
    ensures
        r@ == strip_copies(s@, p@),
{
    let mut rest = s;
    if p.is_empty() {
        return rest;
    }
    loop
        invariant
            p@.len() > 0,
            strip_copies(rest@, p@) == strip_copies(s@, p@),
        ensures
            rest@ == strip_copies(s@, p@),
        decreases rest@.len(),
    {
        match text::strip_prefix(&rest, p) {
            Some(shorter) => {
                rest = shorter;
            },
            None => {
                break;
            },
        }
    }
    rest
}

fn from_first_s(s: &str) -> (r: String)
    ensures
        r@ == from_letter_s(s@),
{
    let v = text::chars_of(s);
    let mut i: usize = 0;
    assert(v@.subrange(0, v@.len() as int) =~= v@);
    while i < v.len() && text::to_lower_char(v[i]) != 's'
        invariant
            i <= v@.len(),
            from_letter_s(v@) == from_letter_s(v@.subrange(i as int, v@.len() as int)),
        decreases v@.len() - i,
    {
        assert(v@.subrange(i as int, v@.len() as int).drop_first() =~= v@.subrange(
            i + 1,
            v@.len() as int,
        ));
        i += 1;
    }
    text::text_of(&v, i, v.len())
}

/// The digit that one line of a DTMF relay body signals.
pub fn signalled_digit(line: &str) -> (r: Option<char>)
    ensures
        r == signal_digit(line@),
{
    let line = text::trim(line);
    let lower = text::to_lowercase(&line);
    if text::has_prefix(&lower, "signal=") {
        let tail = from_first_s(&line);
        let tail = strip_copies_of(tail, "Signal=");
        let tail = strip_copies_of(tail, "signal=");
        let value = text::trim(&tail);
        if value.as_str().is_empty() {
            None
        } else {
            Some(value.as_str().get_char(0))
        }
    } else {
        None
    }
}

/// The digits that a DTMF relay body signals, in the order of its lines.
pub fn info_digits(body: &str) -> (r: Vec<char>)
    ensures
        r@ == signal_digits(text::lines(body@)),
{
    let all = text::lines_of(body);
    let mut r: Vec<char> = Vec::new();
    let mut i: usize = 0;
    let ghost seqs = text::views(all@);
    assert(seqs.subrange(0, 0) =~= Seq::empty());
    while i < all.len()
        invariant
            i <= all@.len(),
            seqs == text::views(all@),
            r@ == signal_digits(seqs.subrange(0, i as int)),
        decreases all@.len() - i,
    {
        proof {
            assert(seqs.subrange(0, i + 1).drop_last() =~= seqs.subrange(0, i as int));
            assert(seqs.subrange(0, i + 1).last() == all@[i as int]@);
        }
        if let Some(d) = signalled_digit(&all[i]) {
            r.push(d);
        }
        i += 1;
    }
    assert(seqs.subrange(0, seqs.len() as int) =~= seqs);
    r
}

/// The characters that a DTMF command may send.
pub open spec fn is_dtmf_char(c: char) -> bool {
    code_of(c) is Some
}

/// The DTMF characters among the given ones.
pub open spec fn valid_digits(s: Seq<char>) -> Seq<char> {
    s.filter(|c: char| is_dtmf_char(c))
}

/// The relay body for one digit.
pub open spec fn relay_entry(d: char) -> Seq<char> {
    "Signal="@.push(d) + "\nDuration=160"@
}

/// What a DTMF command sends: its digits, and the relay body for them. Without any
/// DTMF character it fails.
pub fn plan_send_dtmf(digits: &str) -> (r: Result<(Vec<char>, String), String>)
    ensures
        r is Err <==> valid_digits(digits@).len() == 0,
        r matches Err(e) ==> e@ == "No valid DTMF digits provided: "@ + digits@,
        r matches Ok((valid, body)) ==> {
            &&& valid@ == valid_digits(digits@)
            &&& body@ == text::joined(valid@.map_values(|d: char| relay_entry(d)), "\n"@)
        },
{
    let v = text::chars_of(digits);
    let mut valid: Vec<char> = Vec::new();
    let mut parts: Vec<String> = Vec::new();
    let mut i: usize = 0;
    proof {
        assert(v@.subrange(0, 0) =~= Seq::empty());
        reveal(Seq::filter);
        assert(text::views(parts@) =~= valid@.map_values(|d: char| relay_entry(d)));
    }
    while i < v.len()
        invariant
            i <= v@.len(),
            valid@ == valid_digits(v@.subrange(0, i as int)),
            text::views(parts@) == valid@.map_values(|d: char| relay_entry(d)),
        decreases v@.len() - i,
    {
        let c = v[i];
        proof {
            reveal(Seq::filter);
            assert(v@.subrange(0, i + 1).drop_last() =~= v@.subrange(0, i as int));
            assert(v@.subrange(0, i + 1).last() == c);
        }
        if dtmf_char_to_code(c).is_some() {
            let ghost old_valid = valid@;
            let ghost old_parts = parts@;
            valid.push(c);
            let mut entry = "Signal=".to_owned();
            entry.push(c);
            entry.append("\nDuration=160");
            let ghost e = entry@;
            parts.push(entry);
            proof {
                assert(e == relay_entry(c));
                assert(text::views(parts@) =~= text::views(old_parts).push(e));
                assert(valid@.map_values(|d: char| relay_entry(d)) =~= old_valid.map_values(
                    |d: char| relay_entry(d),
                ).push(relay_entry(c)));
            }
        }
        i += 1;
    }
    assert(v@.subrange(0, v@.len() as int) =~= v@);
    if valid.len() == 0 {
        Err(text::concat("No valid DTMF digits provided: ", digits))
    } else {
        let body = text::join(&parts, "\n");
        Ok((valid, body))
    }
}

/// One RTP frame of a telephone event.
pub struct DtmfFrame {
    pub payload: Vec<u8>,
    pub rtp_timestamp: u32,
    pub sequence_number: u16,
    pub marker: bool,
}

/// Samples of one event, and of the gap behind it.
pub const TE_SAMPLES_PER_EVENT: u16 = 800;

pub const TE_SAMPLES_PAUSE: u16 = 160;

/// The frames of the `i`th digit of a burst that starts at `timestamp` and `seq`: one
/// that opens the event, and one that ends it when its samples have passed.
#[verifier::opaque]
pub open spec fn frames_of_digit(start: DtmfFrame, end: DtmfFrame, digit: char, i: int, timestamp: u32, seq: u16) -> bool {
    &&& start.payload@ == event_payload(code_of(digit)->0, false, 0)
    &&& start.marker
    &&& start.rtp_timestamp == (timestamp + i * 960) % 0x1_0000_0000
    &&& start.sequence_number == (seq + 2 * i) % 0x1_0000
    &&& end.payload@ == event_payload(code_of(digit)->0, true, TE_SAMPLES_PER_EVENT)
    &&& !end.marker
    &&& end.rtp_timestamp == (timestamp + i * 960 + 800) % 0x1_0000_0000
    &&& end.sequence_number == (seq + 2 * i + 1) % 0x1_0000
}

proof fn lemma_wrap32(base: int, step: int, now: int)
    requires
        0 <= base,
        0 <= step < 0x1_0000,
        now == base % 0x1_0000_0000,
    ensures
        now + step > 0xFFFF_FFFF ==> now + step - 0x1_0000_0000 == (base + step) % 0x1_0000_0000,
        now + step <= 0xFFFF_FFFF ==> now + step == (base + step) % 0x1_0000_0000,
{
}

proof fn lemma_wrap16(base: int, now: int)
    requires
        0 <= base,
        now == base % 0x1_0000,
    ensures
        now + 1 > 0xFFFF ==> now + 1 - 0x1_0000 == (base + 1) % 0x1_0000,
        now + 1 <= 0xFFFF ==> now + 1 == (base + 1) % 0x1_0000,
{
}

/// The frames that send the digits, starting at a timestamp and a sequence number.
pub fn dtmf_frames(digits: &Vec<char>, timestamp: u32, seq: u16) -> (r: Vec<DtmfFrame>)
    requires
        forall|i: int| 0 <= i < digits@.len() ==> is_dtmf_char(#[trigger] digits@[i]),
    ensures
        r@.len() == 2 * digits@.len(),
        forall|i: int|
            0 <= i < digits@.len() ==> frames_of_digit(
                r@[2 * i],
                r@[2 * i + 1],
                #[trigger] digits@[i],
                i,
                timestamp,
                seq,
            ),
{
    let mut r: Vec<DtmfFrame> = Vec::new();
    let mut ts: u32 = timestamp;
    let mut sn: u16 = seq;
    let mut i: usize = 0;
    while i < digits.len()
        invariant
            i <= digits@.len(),
            r@.len() == 2 * i,
            ts == (timestamp + i * 960) % 0x1_0000_0000,
            sn == (seq + 2 * i) % 0x1_0000,
            forall|j: int| 0 <= j < digits@.len() ==> is_dtmf_char(#[trigger] digits@[j]),
            forall|j: int|
                0 <= j < i ==> frames_of_digit(
                    r@[2 * j],
                    r@[2 * j + 1],
                    #[trigger] digits@[j],
                    j,
                    timestamp,
                    seq,
                ),
        decreases digits@.len() - i,
    {
        let digit = digits[i];
        assert(is_dtmf_char(digits@[i as int]));
        let ghost before = r@;
        if let Ok(payload) = build_telephone_event_payload(digit, false, 0) {
            r.push(DtmfFrame { payload, rtp_timestamp: ts, sequence_number: sn, marker: true });
        }
        proof {
            lemma_wrap32(timestamp + i * 960, 800, ts as int);
            lemma_wrap16(seq + 2 * i, sn as int);
        }
        ts = ts.wrapping_add(TE_SAMPLES_PER_EVENT as u32);
        sn = sn.wrapping_add(1);
        if let Ok(payload) = build_telephone_event_payload(digit, true, TE_SAMPLES_PER_EVENT) {
            r.push(DtmfFrame { payload, rtp_timestamp: ts, sequence_number: sn, marker: false });
        }
        proof {
            lemma_wrap32(timestamp + i * 960 + 800, 160, ts as int);
            lemma_wrap16(seq + 2 * i + 1, sn as int);
        }
        ts = ts.wrapping_add(TE_SAMPLES_PAUSE as u32);
        sn = sn.wrapping_add(1);
        proof {
            assert(r@.len() == before.len() + 2);
            assert(r@[2 * i as int] == r@[before.len() as int]);
            assert(frames_of_digit(
                r@[2 * i as int],
                r@[2 * i + 1],
                digits@[i as int],
                i as int,
                timestamp,
                seq,
            )) by {
                reveal(frames_of_digit);
            }
            assert forall|j: int| 0 <= j < i + 1 implies frames_of_digit(
                r@[2 * j],
                r@[2 * j + 1],
                #[trigger] digits@[j],
                j,
                timestamp,
                seq,
            ) by {
                if j < i {
                    assert(r@[2 * j] == before[2 * j]);
                    assert(r@[2 * j + 1] == before[2 * j + 1]);
                }
            }
        }
        i += 1;
    }
    r
}

/// `rand::random` for a timestamp. Nothing is said of the number.
#[verifier::external_body]
fn random_timestamp() -> (r: u32) {
    rand::random()
}

/// `rand::random` for a sequence number. Nothing is said of the number.
#[verifier::external_body]
fn random_sequence() -> (r: u16) {
    rand::random()
}

/// These are the frames of the digits from some timestamp and sequence number on.
pub open spec fn frames_from(r: Seq<DtmfFrame>, digits: Seq<char>, timestamp: u32, seq: u16) -> bool {
    r.len() == 2 * digits.len() && forall|i: int|
        0 <= i < digits.len() ==> frames_of_digit(
            r[2 * i],
            r[2 * i + 1],
            #[trigger] digits[i],
            i,
            timestamp,
            seq,
        )
}

/// The frames that send the digits, from a random timestamp and sequence number on.
pub fn telephone_event_frames(digits: &Vec<char>) -> (r: Vec<DtmfFrame>)
    requires
        forall|i: int| 0 <= i < digits@.len() ==> is_dtmf_char(#[trigger] digits@[i]),
    ensures
        exists|timestamp: u32, seq: u16| #[trigger] frames_from(r@, digits@, timestamp, seq),
{
    let timestamp: u32 = random_timestamp();
    let seq: u16 = random_sequence();
    let r = dtmf_frames(digits, timestamp, seq);
    assert(frames_from(r@, digits@, timestamp, seq));
    r
}

/// The value tells the application of a digit that a leg sent.
pub open spec fn tells_digit(j: Json, leg: Seq<char>, digit: char) -> bool {
    &&& j matches Json::Object(e)
    &&& e@.len() == 3
    &&& e@[0].0@ == "type"@ && e@[0].1.text() == Some("dtmf"@)
    &&& e@[1].0@ == "leg_id"@ && e@[1].1.text() == Some(leg)
    &&& e@[2].0@ == "digit"@ && e@[2].1.text() == Some(seq![digit])
}

/// What the application is told of a digit that a leg sent.
pub fn dtmf_event(leg_id: &str, digit: char) -> (r: Json)
    ensures
        tells_digit(r, leg_id@, digit),
{
    let mut text = String::new();
    text.push(digit);
    assert(text@ =~= seq![digit]);
    let mut data: Vec<(String, Json)> = Vec::new();
    data.push(("type".to_owned(), Json::Text("dtmf".to_owned())));
    data.push(("leg_id".to_owned(), Json::Text(leg_id.to_owned())));
    data.push(("digit".to_owned(), Json::Text(text)));
    Json::Object(data)
}

/// Digits have their own values as codes; the star and the pound sign follow them, and
/// then the four letters. Nothing else has a code.
pub proof fn digits_have_their_values(digit: char)
    ensures
        '0' <= digit <= '9' ==> code_of(digit) == Some((digit as u32 - 48) as u8),
        code_of('*') == Some(10u8),
        code_of('#') == Some(11u8),
        code_of('A') == Some(12u8),
        code_of('B') == Some(13u8),
        code_of('C') == Some(14u8),
        code_of('D') == Some(15u8),
        code_of(digit) is Some ==> ('0' <= digit <= '9') || ('A' <= digit <= 'D') || digit == '*' || digit
            == '#',
        is_dtmf_char(digit) <==> code_of(digit) is Some,
{
}

/// A telephone event is four bytes: the code, the flag of its end in the highest bit, and
/// the duration with its higher byte first.
pub proof fn event_is_code_flag_and_duration(code: u8, end: bool, duration: u16)
    ensures
        event_payload(code, end, duration).len() == 4,
        event_payload(code, end, duration)[0] == code,
        event_payload(code, end, duration)[1] >= 0x80 <==> end,
        event_payload(code, end, duration)[1] % 0x80 == 0,
        event_payload(code, end, duration)[2] as int * 256 + event_payload(code, end, duration)[3] as int
            == duration as int,
{
}

/// A detector reports the digit of an event when its code or its time is new, and keeps
/// silent about it after that; what is too short for an event, or no digit, is never
/// reported and leaves the detector as it was.
pub proof fn detector_reports_what_is_new(
    before: RtpDtmfDetector,
    after: RtpDtmfDetector,
    again: RtpDtmfDetector,
    payload: Seq<u8>,
    timestamp: u32,
    digit: Option<char>,
    second: Option<char>,
)
    requires
        RtpDtmfDetector::observed(before, after, payload, timestamp, digit),
        RtpDtmfDetector::observed(after, again, payload, timestamp, second),
    ensures
        second is None,
        again.last_event() == after.last_event(),
        payload.len() < 4 || digit_of(payload[0]) is None ==> digit is None && after.last_event()
            == before.last_event(),
        payload.len() >= 4 && digit_of(payload[0]) is Some && before.last_event() is None ==> digit
            == digit_of(payload[0]),
        payload.len() >= 4 && digit_of(payload[0]) is Some && (before.last_event() matches Some((c, t))
            && (c != payload[0] || t != timestamp)) ==> digit == digit_of(payload[0]),
        digit is Some ==> after.last_event() == Some((payload[0], timestamp)),
{
}

/// A frame is looked at where its payload type was negotiated for digits, or where it has
/// none.
pub proof fn frame_without_type_is_looked_at(types: Seq<u8>, pt: u8)
    ensures
        payload_accepted(types, None),
        payload_accepted(types.push(pt), Some(pt)),
        !types.contains(pt) ==> !payload_accepted(types, Some(pt)),
{
    assert(types.push(pt)[types.len() as int] == pt);
}

proof fn stripped_text(p: Seq<char>, rest: Seq<char>)
    requires
        p.len() > 0,
        !text::starts_with(rest, p),
    ensures
        strip_copies(p + rest, p) == rest,
        strip_copies(rest, p) == rest,
{
    assert((p + rest).subrange(0, p.len() as int) =~= p);
    assert((p + rest).subrange(p.len() as int, (p + rest).len() as int) =~= rest);
    assert(strip_copies(rest, p) == rest);
    assert(strip_copies(p + rest, p) == strip_copies(
        (p + rest).subrange(p.len() as int, (p + rest).len() as int),
        p,
    ));
}

/// A line that signals a digit gives that digit, with the key written either way: what a
/// digit is sent as is read back as the digit. The condition says that the line is in
/// letters whose small forms are plain.
pub proof fn signalled_digit_is_read_back(digit: char)
    requires
        is_dtmf_char(digit),
        text::lowercase("Signal="@.push(digit)) == text::ascii_lower("Signal="@.push(digit)),
        text::lowercase("signal="@.push(digit)) == text::ascii_lower("signal="@.push(digit)),
    ensures
        signal_digit("Signal="@.push(digit)) == Some(digit),
        signal_digit("signal="@.push(digit)) == Some(digit),
        text::starts_with(relay_entry(digit), "Signal="@.push(digit)),
        text::ends_with(relay_entry(digit), "\nDuration=160"@),
{
    reveal_strlit("Signal=");
    reveal_strlit("signal=");
    let large = "Signal="@.push(digit);
    let small = "signal="@.push(digit);
    text::text_has_its_parts(large, "\nDuration=160"@, Seq::empty());
    assert(large[0] == 'S' && small[0] == 's');
    assert(large.last() == digit && small.last() == digit);
    assert(text::trim_start(large) == large && text::trim_start(small) == small);
    assert(text::trimmed(large) == large && text::trimmed(small) == small);
    assert(text::ascii_lower(large).subrange(0, 7) =~= "signal="@);
    assert(text::ascii_lower(small).subrange(0, 7) =~= "signal="@);
    assert(from_letter_s(large) == large && from_letter_s(small) == small);
    let d = seq![digit];
    assert(large =~= "Signal="@ + d);
    assert(small =~= "signal="@ + d);
    stripped_text("Signal="@, d);
    stripped_text("signal="@, d);
    assert(small.subrange(0, 7)[0] == 's');
    assert(!text::starts_with(small, "Signal="@));
    assert(strip_copies(small, "Signal="@) == small);
    assert(text::trim_start(d) == d && text::trimmed(d) == d);
}

/// A line that does not begin with the key signals nothing, and lines signal their digits
/// in their order.
pub proof fn lines_signal_in_order(all: Seq<Seq<char>>, line: Seq<char>)
    ensures
        !text::starts_with(text::lowercase(text::trimmed(line)), "signal="@) ==> signal_digit(
            line,
        ) is None,
        signal_digit(line) matches Some(d) ==> signal_digits(all.push(line)) == signal_digits(
            all,
        ).push(d),
        signal_digit(line) is None ==> signal_digits(all.push(line)) == signal_digits(all),
        signal_digits(Seq::empty()).len() == 0,
{
    assert(all.push(line).drop_last() =~= all);
}

/// Of what is asked to be sent, exactly the digits are, in their order.
pub proof fn exactly_the_digits_are_sent(s: Seq<char>, c: char)
    ensures
        is_dtmf_char(c) ==> valid_digits(s.push(c)) == valid_digits(s).push(c),
        !is_dtmf_char(c) ==> valid_digits(s.push(c)) == valid_digits(s),
        valid_digits(Seq::empty()).len() == 0,
{
    reveal(Seq::filter);
    assert(s.push(c).drop_last() =~= s);
}

/// The frames of a digit open and end its event: the same code, the end marked, and the
/// duration of a tenth of a second at its end.
pub proof fn frames_open_and_end_an_event(
    start: DtmfFrame,
    end: DtmfFrame,
    digit: char,
    i: int,
    timestamp: u32,
    seq: u16,
)
    requires
        frames_of_digit(start, end, digit, i, timestamp, seq),
        is_dtmf_char(digit),
    ensures
        start.payload@.len() == 4 && end.payload@.len() == 4,
        digit_of(start.payload@[0]) == Some(digit),
        digit_of(end.payload@[0]) == Some(digit),
        start.payload@[1] < 0x80,
        end.payload@[1] >= 0x80,
        start.payload@[2] == 0 && start.payload@[3] == 0,
        end.payload@[2] as int * 256 + end.payload@[3] as int == 800,
        start.marker && !end.marker,
{
    reveal(frames_of_digit);
    digits_and_codes_agree(code_of(digit)->0, digit);
    event_is_code_flag_and_duration(code_of(digit)->0, false, 0);
    event_is_code_flag_and_duration(code_of(digit)->0, true, 800);
}

/// Frames are numbered one after another and timed by their samples: the end of a digit a
/// number and an event after its start, and the next digit two numbers, an event and a gap
/// after it, both around the largest number.
pub proof fn frames_follow_each_other(
    start: DtmfFrame,
    end: DtmfFrame,
    next: DtmfFrame,
    next_end: DtmfFrame,
    digit: char,
    after: char,
    i: int,
    timestamp: u32,
    seq: u16,
)
    requires
        frames_of_digit(start, end, digit, i, timestamp, seq),
        frames_of_digit(next, next_end, after, i + 1, timestamp, seq),
        i >= 0,
    ensures
        (start.sequence_number as int + 1) % 0x1_0000 == end.sequence_number as int,
        (start.rtp_timestamp as int + 800) % 0x1_0000_0000 == end.rtp_timestamp as int,
        (start.sequence_number as int + 2) % 0x1_0000 == next.sequence_number as int,
        (start.rtp_timestamp as int + 960) % 0x1_0000_0000 == next.rtp_timestamp as int,
        i == 0 ==> start.rtp_timestamp == timestamp && start.sequence_number == seq,
{
    reveal(frames_of_digit);
    assert((i + 1) * 960 == i * 960 + 960);
    turns_add_up(timestamp + i * 960, 800, 0x1_0000_0000);
    turns_add_up(timestamp + i * 960, 960, 0x1_0000_0000);
    turns_add_up(seq + 2 * i, 1, 0x1_0000);
    turns_add_up(seq + 2 * i, 2, 0x1_0000);
}

proof fn turns_add_up(base: int, step: int, turn: int)
    requires
        0 <= step < turn,
    ensures
        (base % turn + step) % turn == (base + step) % turn,
{
    vstd::arithmetic::div_mod::lemma_add_mod_noop(base, step, turn);
    vstd::arithmetic::div_mod::lemma_small_mod(step as nat, turn as nat);
}

/// The application is told which leg sent which digit.
pub proof fn digit_is_told_with_its_leg(j: Json, leg: Seq<char>, digit: char)
    requires
        tells_digit(j, leg, digit),
    ensures
        j.member("type"@) matches Some(t) && t.text() == Some("dtmf"@),
        j.member("leg_id"@) matches Some(t) && t.text() == Some(leg),
        j.member("digit"@) matches Some(t) && t.text() == Some(seq![digit]),
{
    reveal_strlit("type");
    reveal_strlit("leg_id");
    reveal_strlit("digit");
    assert("type"@.len() == 4);
    assert("leg_id"@.len() == 6);
    assert("digit"@.len() == 5);
    let e = j->Object_0@;
    let rest = e.drop_first();
    assert(rest[0] == e[1]);
    assert(rest.drop_first()[0] == e[2]);
    reveal_with_fuel(crate::table::lookup, 4);
}

/// Digits are sent as two frames each, in their order.
pub proof fn each_digit_has_two_frames(
    r: Seq<DtmfFrame>,
    digits: Seq<char>,
    timestamp: u32,
    seq: u16,
    i: int,
)
    requires
        frames_from(r, digits, timestamp, seq),
        0 <= i < digits.len(),
        is_dtmf_char(digits[i]),
    ensures
        r.len() == 2 * digits.len(),
        digit_of(r[2 * i].payload@[0]) == Some(digits[i]),
        digit_of(r[2 * i + 1].payload@[0]) == Some(digits[i]),
        r[2 * i].marker && !r[2 * i + 1].marker,
        i == 0 ==> r[0].rtp_timestamp == timestamp && r[0].sequence_number == seq,
{
    assert(frames_of_digit(r[2 * i], r[2 * i + 1], digits[i], i, timestamp, seq));
    frames_open_and_end_an_event(r[2 * i], r[2 * i + 1], digits[i], i, timestamp, seq);
    reveal(frames_of_digit);
}

} // verus!
