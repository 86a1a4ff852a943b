use vstd::prelude::*;
use vstd::string::{StringExecFns, StringSliceAdditionalSpecFns};

use crate::bus::name_views;

verus! {

// ─────────────────────────────────────────────────────────────
// Liveness from the process table
// ─────────────────────────────────────────────────────────────

/// `i` is the position of the last `)` in `b`.
pub open spec fn last_close_paren(b: Seq<u8>, i: int) -> bool {
    0 <= i < b.len() && b[i] == 41u8 && forall|j: int| i < j < b.len() ==> #[trigger] b[j] != 41u8
}

/// The stat record `b` (`pid (comm) state ...`) shows a zombie: the byte two places
/// after the last `)` is `Z`.
pub open spec fn zombie_stat(b: Seq<u8>) -> bool {
    exists|i: int| #[trigger] last_close_paren(b, i) && i + 2 < b.len() && b[i + 2] == 90u8
}

/// A process is alive when its stat record can be read and does not show a zombie.
pub open spec fn stat_alive(stat: Option<Seq<u8>>) -> bool {
    match stat {
        Some(b) => !zombie_stat(b),
        None => false,
    }
}

/// Decides liveness from the contents of a process's stat record, `None` when it could
/// not be read. A record whose state cannot be found counts as alive.
pub fn stat_reports_alive(stat: Option<&str>) -> (r: bool)
    ensures
        r == stat_alive(
            match stat {
                Some(s) => Some(s.spec_bytes()),
                None => None,
            },
        ),
{
    let s = match stat {
        Some(s) => s,
        None => {
            return false;
        },
    };
    let b = s.as_bytes();
    stat_bytes_alive(b)
}

fn stat_bytes_alive(b: &[u8]) -> (r: bool)
    ensures
        r == !zombie_stat(b@),
{
    let mut k: usize = b.len();
    while k > 0
        invariant
            k <= b@.len(),
            forall|j: int| k <= j < b@.len() ==> #[trigger] b@[j] != 41u8,
        decreases k,
    {
        if b[k - 1] == 41u8 {
            let i = k - 1;
            assert(last_close_paren(b@, i as int));
            if b.len() - i > 2 && b[i + 2] == 90u8 {
                return false;
            }
            assert(!zombie_stat(b@)) by {
                if zombie_stat(b@) {
                    let w = choose|w: int|
                        #[trigger] last_close_paren(b@, w) && w + 2 < b@.len() && b@[w + 2] == 90u8;
                    if w < i {
                        assert(b@[i as int] != 41u8);
                    } else if w > i {
                        assert(b@[w] != 41u8);
                    }
                }
            }
            return true;
        }
        k = k - 1;
    }
    assert(!zombie_stat(b@)) by {
        if zombie_stat(b@) {
            let w = choose|w: int|
                #[trigger] last_close_paren(b@, w) && w + 2 < b@.len() && b@[w + 2] == 90u8;
            assert(b@[w] != 41u8);
        }
    }
    true
}

// ─────────────────────────────────────────────────────────────
// Process ids from a listing of matching processes
// ─────────────────────────────────────────────────────────────

/// The lines of a text, as `str::lines` splits them.
pub uninterp spec fn lines_of(s: Seq<char>) -> Seq<Seq<char>>;

/// Relies on `str::lines`: splits at `\n` and at `\r\n`, the ending not kept and no
/// empty last line after a final ending; the result depends on the text alone.
#[verifier::external_body]
fn split_lines(s: &str) -> (r: Vec<String>)
    ensures
        name_views(r@) == lines_of(s@),
{
    s.lines().map(|l| l.to_string()).collect()
}

/// White space as `char::is_whitespace` defines it (the Unicode `White_Space` property).
pub open spec fn is_white(c: char) -> bool {
    let u = c as u32;
    u == 0x20 || (0x09 <= u && u <= 0x0d) || u == 0x85 || u == 0xa0 || u == 0x1680 || (0x2000
        <= u && u <= 0x200a) || u == 0x2028 || u == 0x2029 || u == 0x202f || u == 0x205f || u
        == 0x3000
}

pub open spec fn strip_leading(s: Seq<char>) -> Seq<char>
    decreases s.len(),
{
    if s.len() > 0 && is_white(s[0]) {
        strip_leading(s.drop_first())
    } else {
        s
    }
}

pub open spec fn strip_trailing(s: Seq<char>) -> Seq<char>
    decreases s.len(),
{
    if s.len() > 0 && is_white(s.last()) {
        strip_trailing(s.drop_last())
    } else {
        s
    }
}

/// `s` without white space at either end.
pub open spec fn trimmed(s: Seq<char>) -> Seq<char> {
    strip_trailing(strip_leading(s))
}

pub open spec fn is_digit(c: char) -> bool {
    '0' <= c && c <= '9'
}

pub open spec fn digit_value(c: char) -> int {
    (c as u32) - ('0' as u32)
}

/// The number that a run of decimal digits denotes.
pub open spec fn digits_value(d: Seq<char>) -> int
    decreases d.len(),
{
    if d.len() == 0 {
        0
    } else {
        digits_value(d.drop_last()) * 10 + digit_value(d.last())
    }
}

/// The digits of a decimal number: the text after an optional leading `+`.
pub open spec fn unsigned_digits(t: Seq<char>) -> Seq<char> {
    if t.len() > 0 && t[0] == '+' {
        t.drop_first()
    } else {
        t
    }
}

/// An unsigned 32-bit decimal number: an optional `+`, then one or more digits,
/// denoting at most `u32::MAX`.
pub open spec fn decimal_u32(t: Seq<char>) -> Option<u32> {
    let d = unsigned_digits(t);
    if d.len() > 0 && (forall|i: int| 0 <= i < d.len() ==> is_digit(#[trigger] d[i]))
        && digits_value(d) <= u32::MAX {
        Some(digits_value(d) as u32)
    } else {
        None
    }
}

/// The process id on one line of a listing: the line's text without surrounding
/// white space, read as a decimal number.
pub open spec fn pid_of_line(line: Seq<char>) -> Option<u32> {
    decimal_u32(trimmed(line))
}

proof fn lemma_strip_leading(s: Seq<char>, a: int)
    requires
        0 <= a <= s.len(),
        forall|j: int| 0 <= j < a ==> is_white(#[trigger] s[j]),
        a == s.len() || !is_white(s[a]),
    ensures
        strip_leading(s) == s.subrange(a, s.len() as int),
    decreases a,
{
    if a == 0 {
        assert(s.subrange(0, s.len() as int) =~= s);
    } else {
        assert(is_white(s[0]));
        let t = s.drop_first();
        assert forall|j: int| 0 <= j < a - 1 implies is_white(#[trigger] t[j]) by {
            assert(t[j] == s[j + 1]);
        }
        if a - 1 < t.len() {
            assert(t[a - 1] == s[a]);
        }
        lemma_strip_leading(t, a - 1);
        assert(t.subrange(a - 1, t.len() as int) =~= s.subrange(a, s.len() as int));
    }
}

proof fn lemma_strip_trailing(s: Seq<char>, b: int)
    requires
        0 <= b <= s.len(),
        forall|j: int| b <= j < s.len() ==> is_white(#[trigger] s[j]),
        b == 0 || !is_white(s[b - 1]),
    ensures
        strip_trailing(s) == s.subrange(0, b),
    decreases s.len() - b,
{
    if b == s.len() {
        assert(s.subrange(0, b) =~= s);
    } else {
        assert(is_white(s.last()));
        let t = s.drop_last();
        assert forall|j: int| b <= j < t.len() implies is_white(#[trigger] t[j]) by {
            assert(t[j] == s[j]);
        }
        if b > 0 {
            assert(t[b - 1] == s[b - 1]);
        }
        lemma_strip_trailing(t, b);
        assert(t.subrange(0, b) =~= s.subrange(0, b));
    }
}

proof fn lemma_digits_grow(d: Seq<char>, i: int)
    requires
        0 <= i <= d.len(),
        forall|k: int| 0 <= k < d.len() ==> is_digit(#[trigger] d[k]),
    ensures
        digits_value(d) >= digits_value(d.subrange(0, i)),
        digits_value(d.subrange(0, i)) >= 0,
    decreases d.len(),
{
    if d.len() == 0 {
        assert(d.subrange(0, i) =~= d);
    } else if i == d.len() {
        assert(d.subrange(0, i) =~= d);
        lemma_digits_grow(d.drop_last(), d.len() - 1);
        assert(d.drop_last().subrange(0, d.len() - 1) =~= d.drop_last());
    } else {
        let t = d.drop_last();
        assert forall|k: int| 0 <= k < t.len() implies is_digit(#[trigger] t[k]) by {
            assert(t[k] == d[k]);
        }
        lemma_digits_grow(t, i);
        assert(t.subrange(0, i) =~= d.subrange(0, i));
        assert(is_digit(d.last()));
    }
}

fn char_is_white(c: char) -> (r: bool)
    ensures
        r == is_white(c),
{
    let u = c as u32;
    u == 0x20 || (0x09 <= u && u <= 0x0d) || u == 0x85 || u == 0xa0 || u == 0x1680 || (0x2000
        <= u && u <= 0x200a) || u == 0x2028 || u == 0x2029 || u == 0x202f || u == 0x205f || u
        == 0x3000
}

/// Reads the process id on one line of a listing.
pub fn parse_pid_line(line: &str) -> (r: Option<u32>)
    ensures
        r == pid_of_line(line@),
{
    let n = line.unicode_len();
    let mut a: usize = 0;
    while a < n && char_is_white(line.get_char(a))
        invariant
            n == line@.len(),
            a <= n,
            forall|j: int| 0 <= j < a ==> is_white(#[trigger] line@[j]),
        decreases n - a,
    {
        a = a + 1;
    }
    proof {
        lemma_strip_leading(line@, a as int);
    }
    let ghost lead = line@.subrange(a as int, n as int);
    let mut b: usize = n;
    while b > a && char_is_white(line.get_char(b - 1))
        invariant
            n == line@.len(),
            a <= b <= n,
            forall|j: int| b <= j < n ==> is_white(#[trigger] line@[j]),
        decreases b,
    {
        b = b - 1;
    }
    proof {
        assert forall|j: int| b - a <= j < lead.len() implies is_white(#[trigger] lead[j]) by {
            assert(lead[j] == line@[j + a]);
        }
        if b > a {
            assert(lead[b - a - 1] == line@[b - 1]);
        }
        lemma_strip_trailing(lead, b - a);
        assert(lead.subrange(0, b - a) =~= line@.subrange(a as int, b as int));
    }
    let ghost t = line@.subrange(a as int, b as int);
    assert(trimmed(line@) == t);
    let mut start: usize = a;
    if a < b && line.get_char(a) == '+' {
        start = a + 1;
    }
    let ghost d = line@.subrange(start as int, b as int);
    assert(d =~= unsigned_digits(t));
    if start >= b {
        assert(decimal_u32(t) is None);
        return None;
    }
    let mut v: u32 = 0;
    let mut i: usize = start;
    while i < b
        invariant
            n == line@.len(),
            start <= i <= b <= n,
            d == line@.subrange(start as int, b as int),
            d == unsigned_digits(t),
            t == trimmed(line@),
            forall|k: int| start <= k < i ==> is_digit(#[trigger] line@[k]),
            v as int == digits_value(line@.subrange(start as int, i as int)),
        decreases b - i,
    {
        let c = line.get_char(i);
        let ghost pre = line@.subrange(start as int, i as int);
        let ghost next = line@.subrange(start as int, i + 1);
        assert(next.drop_last() =~= pre);
        assert(next.last() == c);
        if !('0' <= c && c <= '9') {
            assert(!is_digit(d[i - start]));
            assert(decimal_u32(t) is None);
            return None;
        }
        let dig: u32 = (c as u32) - ('0' as u32);
        if v > 429496729 || (v == 429496729 && dig > 5) {
            proof {
                assert(digits_value(next) == v * 10 + digit_value(c));
                assert(v * 10 + digit_value(c) > u32::MAX) by (nonlinear_arith)
                    requires
                        v > 429496729 || (v == 429496729 && digit_value(c) > 5),
                        digit_value(c) >= 0,
                ;
                if forall|k: int| 0 <= k < d.len() ==> is_digit(#[trigger] d[k]) {
                    lemma_digits_grow(d, i + 1 - start);
                    assert(d.subrange(0, i + 1 - start) =~= next);
                }
            }
            return None;
        }
        v = v * 10 + dig;
        i = i + 1;
    }
    assert(line@.subrange(start as int, i as int) =~= d);
    Some(v)
}

/// The process ids on the given lines, in order; lines that hold no number are
/// passed over.
pub fn pids_in_lines(lines: &Vec<String>) -> (r: Vec<u32>)
    ensures
        r@ == name_views(lines@).filter_map(|l: Seq<char>| pid_of_line(l)),
{
    let ghost ls = name_views(lines@);
    let mut out: Vec<u32> = Vec::new();
    let mut i: usize = 0;
    while i < lines.len()
        invariant
            i <= lines@.len(),
            ls == name_views(lines@),
            out@ == ls.subrange(0, i as int).filter_map(|l: Seq<char>| pid_of_line(l)),
        decreases lines@.len() - i,
    {
        let ghost pre = ls.subrange(0, i as int);
        let ghost next = ls.subrange(0, i + 1);
        assert(next.drop_last() =~= pre);
        assert(next.last() == lines@[i as int]@);
        match parse_pid_line(lines[i].as_str()) {
            Some(pid) => {
                out.push(pid);
                assert(out@ =~= pre.filter_map(|l: Seq<char>| pid_of_line(l)) + seq![pid]);
            },
            None => {},
        }
        i = i + 1;
    }
    assert(ls.subrange(0, ls.len() as int) =~= ls);
    out
}

/// Every process id that a listing of matching processes gives, one per line, in
/// order; lines that hold no number are passed over.
pub fn pids_in_listing(listing: &str) -> (r: Vec<u32>)
    ensures
        r@ == lines_of(listing@).filter_map(|l: Seq<char>| pid_of_line(l)),
{
    let lines = split_lines(listing);
    pids_in_lines(&lines)
}

/// The process id on the first line of a listing, if that line holds one.
pub fn first_pid_in_listing(listing: &str) -> (r: Option<u32>)
    ensures
        r == (if lines_of(listing@).len() > 0 {
            pid_of_line(lines_of(listing@)[0])
        } else {
            None
        }),
{
    let lines = split_lines(listing);
    if lines.len() > 0 {
        assert(name_views(lines@)[0] == lines@[0]@);
        parse_pid_line(lines[0].as_str())
    } else {
        None
    }
}

// ─────────────────────────────────────────────────────────────
// Locating and launching the daemon's executable
// ─────────────────────────────────────────────────────────────

/// Bare executable name, looked up on the search path when no candidate file exists.
pub open spec fn bare_binary_name() -> Seq<char> {
    "spotifyd"@
}

/// A candidate location of the daemon's executable and whether a file is there.
#[derive(Clone, Debug)]
pub struct BinaryProbe {
    pub path: String,
    pub exists: bool,
}

pub open spec fn probe_hit(p: Option<BinaryProbe>) -> bool {
    match p {
        Some(q) => q.exists,
        None => false,
    }
}

/// The executable to launch: the first existing candidate among the configured path,
/// the path from the environment and the downloaded copy, in that order; otherwise
/// the bare name.
pub open spec fn chosen_binary(
    configured: Option<BinaryProbe>,
    from_env: Option<BinaryProbe>,
    downloaded: Option<BinaryProbe>,
) -> Seq<char> {
    if probe_hit(configured) {
        configured->0.path@
    } else if probe_hit(from_env) {
        from_env->0.path@
    } else if probe_hit(downloaded) {
        downloaded->0.path@
    } else {
        bare_binary_name()
    }
}

/// Resolves the daemon's executable from the candidates in priority order.
pub fn find_spotifyd_binary(
    configured: &Option<BinaryProbe>,
    from_env: &Option<BinaryProbe>,
    downloaded: &Option<BinaryProbe>,
) -> (r: String)
    ensures
        r@ == chosen_binary(*configured, *from_env, *downloaded),
{
    if let Some(p) = configured {
        if p.exists {
            return p.path.clone();
        }
    }
    if let Some(p) = from_env {
        if p.exists {
            return p.path.clone();
        }
    }
    if let Some(p) = downloaded {
        if p.exists {
            return p.path.clone();
        }
    }
    String::from_str("spotifyd")
}

/// The daemon's arguments: stay in the foreground, and announce the device name when
/// one is configured.
pub open spec fn daemon_args(device_name: Option<String>) -> Seq<Seq<char>> {
    match device_name {
        Some(n) => seq!["--no-daemon"@, "--device-name"@, n@],
        None => seq!["--no-daemon"@],
    }
}

/// Builds the daemon's argument list.
pub fn spawn_args(device_name: &Option<String>) -> (r: Vec<String>)
    ensures
        name_views(r@) == daemon_args(*device_name),
{
    let mut args: Vec<String> = Vec::new();
    args.push(String::from_str("--no-daemon"));
    if let Some(n) = device_name {
        args.push(String::from_str("--device-name"));
        args.push(n.clone());
    }
    assert(name_views(args@) =~= daemon_args(*device_name));
    args
}

} // verus!
