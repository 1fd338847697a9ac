//! Reading settings out of environment variables that the caller has collected: numbers,
//! switches and texts, each with the value to fall back on.

use crate::level::lowercased;
use crate::record::is_digit;
use crate::string_map::{lookup, StringMap};
use vstd::prelude::*;
use vstd::slice::slice_subrange;
use vstd::string::*;
use vstd::utf8::encode_utf8;

verus! {

/// The number that a run of decimal digits stands for.
pub open spec fn digits_value(bytes: Seq<u8>) -> nat
    decreases bytes.len(),
{
    if bytes.len() == 0 {
        0
    } else {
        digits_value(bytes.drop_last()) * 10 + (bytes.last() - 0x30) as nat
    }
}

/// Every byte is a decimal digit.
pub open spec fn all_digits(bytes: Seq<u8>) -> bool {
    forall|i: int| 0 <= i < bytes.len() ==> is_digit(#[trigger] bytes[i])
}

/// The digits of a text that may start with a plus sign.
pub open spec fn unsigned_body(bytes: Seq<u8>) -> Seq<u8> {
    if bytes.len() > 0 && bytes[0] == 0x2b {
        bytes.skip(1)
    } else {
        bytes
    }
}

/// The number that a text stands for: an optional plus sign, then at least one decimal
/// digit and nothing else, for a number of at most `max`.
pub open spec fn unsigned_of(bytes: Seq<u8>, max: nat) -> Option<nat> {
    let body = unsigned_body(bytes);
    if body.len() > 0 && all_digits(body) && digits_value(body) <= max {
        Some(digits_value(body))
    } else {
        None
    }
}

/// The digits read so far never stand for more than all of the digits.
pub proof fn lemma_digits_value_grows(bytes: Seq<u8>, k: int)
    requires
        all_digits(bytes),
        0 <= k <= bytes.len(),
    ensures
        digits_value(bytes.take(k)) <= digits_value(bytes),
    decreases bytes.len() - k,
{
    if k == bytes.len() {
        assert(bytes.take(k) =~= bytes);
    } else {
        lemma_digits_value_grows(bytes, k + 1);
        assert(bytes.take(k + 1).drop_last() =~= bytes.take(k));
        assert(is_digit(bytes[k]));
    }
}

/// The number that `s` stands for, if it stands for one of at most `max`.
pub fn parse_unsigned(s: &[u8], max: u64) -> (r: Option<u64>)
    ensures
        r matches Some(n) ==> unsigned_of(s@, max as nat) == Some(n as nat),
        r is None ==> unsigned_of(s@, max as nat) is None,
{
    let start: usize = if s.len() > 0 && s[0] == 0x2b {
        1
    } else {
        0
    };
    if s.len() == start {
        return None;
    }
    let ghost body = unsigned_body(s@);
    assert(body =~= s@.skip(start as int));
    let mut acc: u64 = 0;
    let mut i: usize = start;
    assert(body.take(0) =~= Seq::<u8>::empty());
    while i < s.len()
        invariant
            start <= i <= s@.len(),
            body == s@.skip(start as int),
            body == unsigned_body(s@),
            body.len() == s@.len() - start,
            acc == digits_value(body.take(i - start)),
            acc <= max,
            forall|j: int| 0 <= j < i - start ==> is_digit(#[trigger] body[j]),
        decreases s@.len() - i,
    {
        let b = s[i];
        assert(body[i - start] == b);
        if b < 0x30 || b > 0x39 {
            assert(!is_digit(body[i - start]));
            return None;
        }
        let d = (b - 0x30) as u64;
        proof {
            assert(body.take(i - start + 1).drop_last() =~= body.take(i - start));
            assert(body.take(i - start + 1).last() == b);
        }
        if d > max || acc > (max - d) / 10 {
            proof {
                if all_digits(body) {
                    lemma_digits_value_grows(body, i - start + 1);
                }
            }
            return None;
        }
        acc = acc * 10 + d;
        i += 1;
    }
    assert(body.take(body.len() as int) =~= body);
    Some(acc)
}

/// A blank: a space, a tab, a line feed, a vertical tab, a form feed or a carriage
/// return.
pub open spec fn is_blank(b: u8) -> bool {
    b == 0x20 || (0x09 <= b && b <= 0x0d)
}

/// `at` is the place of the first comma of `bytes`, or the length of `bytes` where it
/// holds none.
pub open spec fn comma_stop(bytes: Seq<u8>, at: int) -> bool {
    &&& 0 <= at <= bytes.len()
    &&& forall|j: int| 0 <= j < at ==> (#[trigger] bytes[j]) != 0x2c
    &&& at == bytes.len() || bytes[at] == 0x2c
}

/// `at` is the place of the first byte of `bytes` that is not a blank, or the length of
/// `bytes` where all are blanks.
pub open spec fn text_stop(bytes: Seq<u8>, at: int) -> bool {
    &&& 0 <= at <= bytes.len()
    &&& forall|j: int| 0 <= j < at ==> is_blank(#[trigger] bytes[j])
    &&& at == bytes.len() || !is_blank(bytes[at])
}

/// The place of the first comma, or the length where there is none.
pub open spec fn comma_at(bytes: Seq<u8>) -> int {
    choose|at: int| comma_stop(bytes, at)
}

/// The place of the first byte that is not a blank, or the length where all are blanks.
pub open spec fn trim_start(bytes: Seq<u8>) -> int {
    choose|at: int| text_stop(bytes, at)
}

/// `at` is the place behind the last byte of `bytes` that is not a blank, and not before
/// `from`.
pub open spec fn last_from(bytes: Seq<u8>, from: int, at: int) -> bool {
    &&& from <= at <= bytes.len()
    &&& forall|j: int| at <= j < bytes.len() ==> is_blank(#[trigger] bytes[j])
    &&& at == from || !is_blank(bytes[at - 1])
}

/// The place behind the last byte that is not a blank.
pub open spec fn trim_end(bytes: Seq<u8>) -> int {
    choose|at: int| last_from(bytes, trim_start(bytes), at)
}

/// The bytes without the blanks at both ends.
pub open spec fn trimmed(bytes: Seq<u8>) -> Seq<u8> {
    bytes.subrange(trim_start(bytes), trim_end(bytes))
}

/// The numbers of a list: items with commas between them, each a number with blanks
/// around it. Nothing where an item is not a number that fits.
pub open spec fn index_list(bytes: Seq<u8>) -> Option<Seq<usize>>
    decreases bytes.len(),
{
    let at = comma_at(bytes);
    if at < 0 || at > bytes.len() {
        None
    } else {
        match unsigned_of(trimmed(bytes.take(at)), usize::MAX as nat) {
            None => None,
            Some(n) => if at == bytes.len() {
                Some(seq![n as usize])
            } else {
                match index_list(bytes.skip(at + 1)) {
                    Some(rest) => Some(seq![n as usize] + rest),
                    None => None,
                }
            },
        }
    }
}

/// There is one place where a scan for the first comma stops.
pub proof fn lemma_comma_stop_unique(bytes: Seq<u8>, a: int, b: int)
    requires
        comma_stop(bytes, a),
        comma_stop(bytes, b),
    ensures
        a == b,
{
    if a < b {
        assert(bytes[a] != 0x2c);
    } else if b < a {
        assert(bytes[b] != 0x2c);
    }
}

/// There is one place where a scan for the first byte that is not a blank stops.
pub proof fn lemma_text_stop_unique(bytes: Seq<u8>, a: int, b: int)
    requires
        text_stop(bytes, a),
        text_stop(bytes, b),
    ensures
        a == b,
{
    if a < b {
        assert(is_blank(bytes[a]));
    } else if b < a {
        assert(is_blank(bytes[b]));
    }
}

/// There is one place behind the last byte that is not a blank.
pub proof fn lemma_last_from_unique(bytes: Seq<u8>, from: int, a: int, b: int)
    requires
        last_from(bytes, from, a),
        last_from(bytes, from, b),
    ensures
        a == b,
{
    if a < b {
        assert(is_blank(bytes[b - 1]));
    } else if b < a {
        assert(is_blank(bytes[a - 1]));
    }
}

/// The bytes of `s` from `from` to `to` without the blanks at both ends.
fn trim(s: &[u8], from: usize, to: usize) -> (r: (usize, usize))
    requires
        from <= to <= s@.len(),
    ensures
        from <= r.0 <= r.1 <= to,
        s@.subrange(r.0 as int, r.1 as int) == trimmed(s@.subrange(from as int, to as int)),
{
    let ghost part = s@.subrange(from as int, to as int);
    let mut lo = from;
    while lo < to && (s[lo] == 0x20 || (0x09 <= s[lo] && s[lo] <= 0x0d))
        invariant
            from <= lo <= to <= s@.len(),
            part == s@.subrange(from as int, to as int),
            forall|j: int| 0 <= j < lo - from ==> is_blank(#[trigger] part[j]),
        decreases to - lo,
    {
        lo += 1;
    }
    let mut hi = to;
    while hi > lo && (s[hi - 1] == 0x20 || (0x09 <= s[hi - 1] && s[hi - 1] <= 0x0d))
        invariant
            from <= lo <= hi <= to <= s@.len(),
            part == s@.subrange(from as int, to as int),
            forall|j: int| hi - from <= j < part.len() ==> is_blank(#[trigger] part[j]),
        decreases hi - lo,
    {
        hi -= 1;
    }
    proof {
        assert(text_stop(part, lo - from));
        lemma_text_stop_unique(part, lo - from, trim_start(part));
        assert(last_from(part, lo - from, hi - from));
        lemma_last_from_unique(part, trim_start(part), hi - from, trim_end(part));
        assert(s@.subrange(lo as int, hi as int) =~= part.subrange(lo - from, hi - from));
    }
    (lo, hi)
}

/// The numbers of a list of sizes with commas between them.
pub fn parse_index_list(s: &[u8]) -> (r: Option<Vec<usize>>)
    ensures
        r matches Some(v) ==> index_list(s@) == Some(v@),
        r is None ==> index_list(s@) is None,
{
    let mut out: Vec<usize> = Vec::new();
    let mut pos: usize = 0;
    assert(s@.skip(0) =~= s@);
    loop
        invariant
            pos <= s@.len(),
            index_list(s@) == match index_list(s@.skip(pos as int)) {
                Some(rest) => Some(out@ + rest),
                None => None,
            },
        decreases s@.len() - pos,
    {
        let ghost tail = s@.skip(pos as int);
        let mut at = pos;
        while at < s.len() && s[at] != 0x2c
            invariant
                pos <= at <= s@.len(),
                tail == s@.skip(pos as int),
                forall|j: int| 0 <= j < at - pos ==> (#[trigger] tail[j]) != 0x2c,
            decreases s@.len() - at,
        {
            at += 1;
        }
        proof {
            assert(comma_stop(tail, at - pos));
            lemma_comma_stop_unique(tail, at - pos, comma_at(tail));
            assert(tail.take(at - pos) =~= s@.subrange(pos as int, at as int));
            if at < s@.len() {
                assert(tail.skip(at - pos + 1) =~= s@.skip(at + 1));
            }
        }
        let (lo, hi) = trim(s, pos, at);
        let item = slice_subrange(s, lo, hi);
        match parse_unsigned(item, usize::MAX as u64) {
            None => {
                return None;
            },
            Some(n) => {
                let ghost before = out@;
                out.push(n as usize);
                if at == s.len() {
                    assert(before + seq![n as usize] =~= out@);
                    return Some(out);
                }
                proof {
                    match index_list(s@.skip(at + 1)) {
                        Some(rest) => {
                            assert(before + (seq![n as usize] + rest) =~= out@ + rest);
                        },
                        None => {},
                    }
                }
                pos = at + 1;
            },
        }
    }
}

/// The switch that a lower-case text stands for: `true`, `1`, `yes` and `on` switch on,
/// `false`, `0`, `no` and `off` switch off.
pub open spec fn switch_named(name: Seq<char>) -> Option<bool> {
    if name == "true"@ || name == "1"@ || name == "yes"@ || name == "on"@ {
        Some(true)
    } else if name == "false"@ || name == "0"@ || name == "no"@ || name == "off"@ {
        Some(false)
    } else {
        None
    }
}

/// The switch that a lower-case text stands for.
pub fn parse_switch(s: &str) -> (r: Option<bool>)
    ensures
        r == switch_named(s@),
{
    if s.eq("true") || s.eq("1") || s.eq("yes") || s.eq("on") {
        Some(true)
    } else if s.eq("false") || s.eq("0") || s.eq("no") || s.eq("off") {
        Some(false)
    } else {
        None
    }
}

/// The number under `key`, where the variable is set and stands for a number of at most
/// `max`; `default` otherwise.
pub open spec fn number_or(
    vars: Seq<(Seq<char>, String)>,
    key: Seq<char>,
    max: nat,
    default: nat,
) -> nat {
    match lookup(vars, key) {
        Some(text) => match unsigned_of(encode_utf8(text@), max) {
            Some(n) => n,
            None => default,
        },
        None => default,
    }
}

/// The switch under `key`, where the variable is set and stands for a switch; `default`
/// otherwise.
pub open spec fn switch_or(vars: Seq<(Seq<char>, String)>, key: Seq<char>, default: bool)
    -> bool {
    match lookup(vars, key) {
        Some(text) => match switch_named(lowercased(text@)) {
            Some(b) => b,
            None => default,
        },
        None => default,
    }
}

/// The text under `key`, where the variable is set; `default` otherwise.
pub open spec fn text_or(vars: Seq<(Seq<char>, String)>, key: Seq<char>, default: Seq<char>)
    -> Seq<char> {
    match lookup(vars, key) {
        Some(text) => text@,
        None => default,
    }
}

/// The number under `key`, or `default`.
pub fn env_var_or_default(vars: &StringMap<String>, key: &str, default: u64) -> (r: u64)
    requires
        vars.wf(),
    ensures
        r == number_or(vars@, key@, u64::MAX as nat, default as nat),
{
    match vars.get(key) {
        Some(text) => match parse_unsigned(text.as_str().as_bytes(), u64::MAX) {
            Some(n) => n,
            None => default,
        },
        None => default,
    }
}

/// The number under `key` as a size, or `default`.
pub fn env_usize_or_default(vars: &StringMap<String>, key: &str, default: usize) -> (r: usize)
    requires
        vars.wf(),
    ensures
        r == number_or(vars@, key@, usize::MAX as nat, default as nat),
{
    match vars.get(key) {
        Some(text) => match parse_unsigned(text.as_str().as_bytes(), usize::MAX as u64) {
            Some(n) => n as usize,
            None => default,
        },
        None => default,
    }
}

/// The number under `key` as a byte, or `default`.
pub fn env_u8_or_default(vars: &StringMap<String>, key: &str, default: u8) -> (r: u8)
    requires
        vars.wf(),
    ensures
        r == number_or(vars@, key@, u8::MAX as nat, default as nat),
{
    match vars.get(key) {
        Some(text) => match parse_unsigned(text.as_str().as_bytes(), 255) {
            Some(n) => n as u8,
            None => default,
        },
        None => default,
    }
}

/// The number under `key` in 32 bits, or `default`.
pub fn env_u32_or_default(vars: &StringMap<String>, key: &str, default: u32) -> (r: u32)
    requires
        vars.wf(),
    ensures
        r == number_or(vars@, key@, u32::MAX as nat, default as nat),
{
    match vars.get(key) {
        Some(text) => match parse_unsigned(text.as_str().as_bytes(), 0xffff_ffff) {
            Some(n) => n as u32,
            None => default,
        },
        None => default,
    }
}

/// The number under `key` as a port, or `default`.
pub fn env_u16_or_default(vars: &StringMap<String>, key: &str, default: u16) -> (r: u16)
    requires
        vars.wf(),
    ensures
        r == number_or(vars@, key@, u16::MAX as nat, default as nat),
{
    match vars.get(key) {
        Some(text) => match parse_unsigned(text.as_str().as_bytes(), 65535) {
            Some(n) => n as u16,
            None => default,
        },
        None => default,
    }
}

/// The text under `key`, or `default`.
pub fn env_string_or_default(vars: &StringMap<String>, key: &str, default: &str) -> (r: String)
    requires
        vars.wf(),
    ensures
        r@ == text_or(vars@, key@, default@),
{
    match vars.get(key) {
        Some(text) => text.clone(),
        None => String::from_str(default),
    }
}

/// The switch under `key`, or `default`.
pub fn env_bool_or_default(vars: &StringMap<String>, key: &str, default: bool) -> (r: bool)
    requires
        vars.wf(),
    ensures
        r == switch_or(vars@, key@, default),
{
    match vars.get(key) {
        Some(text) => {
            let lower = text.as_str().to_lowercase();
            match parse_switch(lower.as_str()) {
                Some(b) => b,
                None => default,
            }
        },
        None => default,
    }
}

/// The milliseconds under `key`, or `default_ms`.
pub fn duration_from_millis_env(vars: &StringMap<String>, key: &str, default_ms: u64) -> (r: u64)
    requires
        vars.wf(),
    ensures
        r == number_or(vars@, key@, u64::MAX as nat, default_ms as nat),
{
    env_var_or_default(vars, key, default_ms)
}

/// The seconds under `key`, or `default_secs`.
pub fn duration_from_secs_env(vars: &StringMap<String>, key: &str, default_secs: u64) -> (r:
    u64)
    requires
        vars.wf(),
    ensures
        r == number_or(vars@, key@, u64::MAX as nat, default_secs as nat),
{
    env_var_or_default(vars, key, default_secs)
}

} // verus!
