//! The persisted configuration and export file naming.
//!
//! The user's config file may override the screenshots directory with
//! `save_dir=<path>` lines; exported files are named
//! `screenshot-YYYYMMDD-HHMMSS.png`. Both formats are byte-exact here;
//! reading and writing the files is the caller's job.

use vstd::prelude::*;

verus! {

/// ASCII whitespace, as trimming treats it: tab, line feed, vertical
/// tab, form feed, carriage return, space.
pub open spec fn is_ascii_ws(b: u8) -> bool {
    b == 9 || b == 10 || b == 11 || b == 12 || b == 13 || b == 32
}

/// Leading whitespace removed.
pub open spec fn trim_front(s: Seq<u8>) -> Seq<u8>
    decreases s.len(),
{
    if s.len() > 0 && is_ascii_ws(s[0]) {
        trim_front(s.drop_first())
    } else {
        s
    }
}

/// Trailing whitespace removed.
pub open spec fn trim_back(s: Seq<u8>) -> Seq<u8>
    decreases s.len(),
{
    if s.len() > 0 && is_ascii_ws(s.last()) {
        trim_back(s.drop_last())
    } else {
        s
    }
}

/// Whitespace removed from both ends.
pub open spec fn trimmed(s: Seq<u8>) -> Seq<u8> {
    trim_back(trim_front(s))
}

/// The bytes of the configuration key `save_dir=`.
pub open spec fn save_dir_key() -> Seq<u8> {
    seq![115u8, 97u8, 118u8, 101u8, 95u8, 100u8, 105u8, 114u8, 61u8]
}

/// What one configuration line contributes: a line starting with
/// `save_dir=` yields the rest of the line with surrounding whitespace
/// (including any carriage return) trimmed; any other line yields
/// nothing.
pub open spec fn line_candidate(l: Seq<u8>) -> Option<Seq<u8>> {
    if l.len() >= 9 && l.take(9) == save_dir_key() {
        Option::Some(trimmed(l.skip(9)))
    } else {
        Option::None
    }
}

/// The configured directories of a file's remaining bytes, given the
/// bytes of the current line read so far: lines are separated by line
/// feeds, and a final line without one still counts.
pub open spec fn candidates_from(s: Seq<u8>, cur: Seq<u8>) -> Seq<Seq<u8>>
    decreases s.len(),
{
    if s.len() == 0 {
        match line_candidate(cur) {
            Option::Some(c) => seq![c],
            Option::None => Seq::empty(),
        }
    } else if s[0] == 10 {
        let tail = candidates_from(s.drop_first(), Seq::empty());
        match line_candidate(cur) {
            Option::Some(c) => seq![c] + tail,
            Option::None => tail,
        }
    } else {
        candidates_from(s.drop_first(), cur.push(s[0]))
    }
}

/// Every `save_dir=` directory a configuration file names, in file
/// order. The caller keeps the first one it can use.
pub open spec fn save_dir_candidates_spec(content: Seq<u8>) -> Seq<Seq<u8>> {
    candidates_from(content, Seq::empty())
}

/// The exact content written to persist a chosen directory: one
/// `save_dir=<path>` line.
pub open spec fn save_dir_config_spec(path: Seq<u8>) -> Seq<u8> {
    save_dir_key() + path + seq![10u8]
}

/// Removing all-whitespace indices from the front one by one reaches any
/// cut point whose prefix is all whitespace and whose first kept byte is
/// not.
proof fn lemma_trim_front_is_skip(s: Seq<u8>, k: int)
    requires
        0 <= k <= s.len(),
        forall|j: int| 0 <= j < k ==> is_ascii_ws(#[trigger] s[j]),
        k == s.len() || !is_ascii_ws(s[k]),
    ensures
        trim_front(s) == s.skip(k),
    decreases k,
{
    if k == 0 {
        assert(s.skip(0) =~= s);
    } else {
        assert(s.drop_first() =~= s.skip(1));
        lemma_trim_front_is_skip(s.skip(1), k - 1);
        assert(s.skip(1).skip(k - 1) =~= s.skip(k));
    }
}

/// Removing all-whitespace indices from the back one by one reaches any
/// cut point whose suffix is all whitespace and whose last kept byte is
/// not.
proof fn lemma_trim_back_is_take(s: Seq<u8>, k: int)
    requires
        0 <= k <= s.len(),
        forall|j: int| k <= j < s.len() ==> is_ascii_ws(#[trigger] s[j]),
        k == 0 || !is_ascii_ws(s[k - 1]),
    ensures
        trim_back(s) == s.take(k),
    decreases s.len(),
{
    if k == s.len() {
        assert(s.take(k) =~= s);
    } else {
        lemma_trim_back_is_take(s.drop_last(), k);
    }
}

/// Scanning bytes that hold no line feed only extends the current line.
proof fn lemma_scan_without_newline(s1: Seq<u8>, s2: Seq<u8>, cur: Seq<u8>)
    requires
        forall|i: int| 0 <= i < s1.len() ==> s1[i] != 10,
    ensures
        candidates_from(s1 + s2, cur) == candidates_from(s2, cur + s1),
    decreases s1.len(),
{
    if s1.len() == 0 {
        assert(s1 + s2 =~= s2);
        assert(cur + s1 =~= cur);
    } else {
        assert((s1 + s2)[0] == s1[0]);
        assert((s1 + s2).drop_first() =~= s1.drop_first() + s2);
        lemma_scan_without_newline(s1.drop_first(), s2, cur.push(s1[0]));
        assert(cur.push(s1[0]) + s1.drop_first() =~= cur + s1);
    }
}

/// Law: a configuration written by [`render_save_dir`] parses back to
/// exactly the one directory it persisted (whitespace-trimmed), for any
/// path without a line feed of its own.
pub proof fn lemma_config_round_trip(path: Seq<u8>)
    requires
        forall|i: int| 0 <= i < path.len() ==> path[i] != 10,
    ensures
        save_dir_candidates_spec(save_dir_config_spec(path)) == seq![trimmed(path)],
{
    let key = save_dir_key();
    let body = key + path;
    assert(forall|i: int| 0 <= i < key.len() ==> key[i] != 10);
    assert(save_dir_config_spec(path) =~= key + (path + seq![10u8]));
    lemma_scan_without_newline(key, path + seq![10u8], Seq::empty());
    assert(Seq::<u8>::empty() + key =~= key);
    lemma_scan_without_newline(path, seq![10u8], key);
    assert(seq![10u8][0] == 10u8);
    assert(seq![10u8].drop_first() =~= Seq::<u8>::empty());
    assert(candidates_from(seq![10u8], body) == match line_candidate(body) {
        Option::Some(c) => seq![c] + candidates_from(Seq::empty(), Seq::empty()),
        Option::None => candidates_from(Seq::empty(), Seq::empty()),
    });
    assert(body.take(9) =~= key);
    assert(body.skip(9) =~= path);
    assert(line_candidate(body) == Option::Some(trimmed(path)));
    assert(candidates_from(Seq::empty(), Seq::empty()) =~= Seq::<Seq<u8>>::empty());
    assert(seq![trimmed(path)] + Seq::<Seq<u8>>::empty() =~= seq![trimmed(path)]);
}

/// Whether a byte is ASCII whitespace.
fn is_ws(b: u8) -> (r: bool)
    ensures
        r == is_ascii_ws(b),
{
    b == 9 || b == 10 || b == 11 || b == 12 || b == 13 || b == 32
}

/// A copy of `v` with surrounding ASCII whitespace removed.
fn trim_bytes(v: &Vec<u8>) -> (r: Vec<u8>)
    ensures
        r@ == trimmed(v@),
{
    let n = v.len();
    let mut start: usize = 0;
    while start < n && is_ws(v[start])
        invariant
            n == v@.len(),
            0 <= start <= n,
            forall|j: int| 0 <= j < start ==> is_ascii_ws(#[trigger] v@[j]),
        decreases n - start,
    {
        start = start + 1;
    }
    proof {
        lemma_trim_front_is_skip(v@, start as int);
    }
    let mut end: usize = n;
    while end > start && is_ws(v[end - 1])
        invariant
            n == v@.len(),
            start <= end <= n,
            forall|j: int| end <= j < n ==> is_ascii_ws(#[trigger] v@[j]),
        decreases end,
    {
        end = end - 1;
    }
    proof {
        let tail = v@.skip(start as int);
        assert(forall|j: int|
            end - start <= j < tail.len() ==> is_ascii_ws(#[trigger] tail[j]));
        lemma_trim_back_is_take(tail, end - start);
    }
    let mut r: Vec<u8> = Vec::new();
    let mut i: usize = start;
    while i < end
        invariant
            start <= i <= end <= n,
            n == v@.len(),
            r@ == v@.subrange(start as int, i as int),
        decreases end - i,
    {
        r.push(v[i]);
        proof {
            assert(r@ =~= v@.subrange(start as int, i + 1));
        }
        i = i + 1;
    }
    proof {
        assert(v@.subrange(start as int, end as int) =~= v@.skip(start as int).take(
            end - start,
        ));
    }
    r
}

/// What this line contributes, per [`line_candidate`].
fn extract_candidate(line: &Vec<u8>) -> (r: Option<Vec<u8>>)
    ensures
        (r is Some) == (line_candidate(line@) is Some),
        r matches Some(v) ==> line_candidate(line@) == Option::Some(v@),
{
    if line.len() < 9 {
        return None;
    }
    if line[0] != 115 || line[1] != 97 || line[2] != 118 || line[3] != 101 || line[4] != 95
        || line[5] != 100 || line[6] != 105 || line[7] != 114 || line[8] != 61 {
        proof {
            assert(line@.take(9) != save_dir_key());
        }
        return None;
    }
    proof {
        assert(line@.take(9) =~= save_dir_key());
    }
    let mut suffix: Vec<u8> = Vec::new();
    let mut i: usize = 9;
    let n = line.len();
    while i < n
        invariant
            9 <= i <= n,
            n == line@.len(),
            suffix@ == line@.subrange(9, i as int),
        decreases n - i,
    {
        suffix.push(line[i]);
        proof {
            assert(suffix@ =~= line@.subrange(9, i + 1));
        }
        i = i + 1;
    }
    proof {
        assert(line@.subrange(9, n as int) =~= line@.skip(9));
    }
    Some(trim_bytes(&suffix))
}

/// Every directory the configuration file's `save_dir=` lines name, in
/// file order: the caller walks them and keeps the first directory that
/// exists or can be created, exactly as the line's path, whitespace
/// trimmed.
pub fn save_dir_candidates(content: &Vec<u8>) -> (r: Vec<Vec<u8>>)
    ensures
        r@.map_values(|v: Vec<u8>| v@) == save_dir_candidates_spec(content@),
{
    let mut r: Vec<Vec<u8>> = Vec::new();
    let mut cur: Vec<u8> = Vec::new();
    let n = content.len();
    let mut i: usize = 0;
    proof {
        assert(content@.skip(0) =~= content@);
        assert(r@.map_values(|v: Vec<u8>| v@) =~= Seq::<Seq<u8>>::empty());
        assert(Seq::<Seq<u8>>::empty() + candidates_from(content@, Seq::empty())
            =~= candidates_from(content@, Seq::empty()));
    }
    while i < n
        invariant
            0 <= i <= n,
            n == content@.len(),
            save_dir_candidates_spec(content@) == r@.map_values(|v: Vec<u8>| v@)
                + candidates_from(content@.skip(i as int), cur@),
        decreases n - i,
    {
        let b = content[i];
        proof {
            assert(content@.skip(i as int)[0] == b);
            assert(content@.skip(i as int).drop_first() =~= content@.skip(i + 1));
        }
        if b == 10 {
            let ghost pre = r@.map_values(|v: Vec<u8>| v@);
            if let Some(c) = extract_candidate(&cur) {
                r.push(c);
                proof {
                    assert(r@.map_values(|v: Vec<u8>| v@) =~= pre + seq![c@]);
                }
            }
            cur = Vec::new();
        } else {
            cur.push(b);
        }
        i = i + 1;
    }
    proof {
        assert(content@.skip(n as int) =~= Seq::<u8>::empty());
    }
    let ghost pre = r@.map_values(|v: Vec<u8>| v@);
    if let Some(c) = extract_candidate(&cur) {
        r.push(c);
        proof {
            assert(r@.map_values(|v: Vec<u8>| v@) =~= pre + seq![c@]);
        }
    }
    proof {
        assert(r@.map_values(|v: Vec<u8>| v@) =~= save_dir_candidates_spec(content@));
    }
    r
}

/// The exact bytes that persist `path` as the screenshots directory.
pub fn render_save_dir(path: &Vec<u8>) -> (r: Vec<u8>)
    ensures
        r@ == save_dir_config_spec(path@),
{
    let mut r: Vec<u8> = Vec::new();
    r.push(115);
    r.push(97);
    r.push(118);
    r.push(101);
    r.push(95);
    r.push(100);
    r.push(105);
    r.push(114);
    r.push(61);
    let mut i: usize = 0;
    let n = path.len();
    while i < n
        invariant
            0 <= i <= n,
            n == path@.len(),
            r@ == save_dir_key() + path@.take(i as int),
        decreases n - i,
    {
        r.push(path[i]);
        proof {
            assert(r@ =~= save_dir_key() + path@.take(i + 1));
        }
        i = i + 1;
    }
    r.push(10);
    proof {
        assert(path@.take(n as int) =~= path@);
        assert(r@ =~= save_dir_config_spec(path@));
    }
    r
}

/// The ASCII digit for one decimal digit value.
pub open spec fn digit(n: int) -> u8 {
    (48 + n) as u8
}

/// A value under one hundred, zero-padded to two ASCII digits.
pub open spec fn two_digits(n: int) -> Seq<u8> {
    seq![digit(n / 10), digit(n % 10)]
}

/// A value under ten thousand, zero-padded to four ASCII digits.
pub open spec fn four_digits(n: int) -> Seq<u8> {
    two_digits(n / 100) + two_digits(n % 100)
}

/// The bytes of `screenshot-`.
pub open spec fn filename_prefix() -> Seq<u8> {
    seq![115u8, 99u8, 114u8, 101u8, 101u8, 110u8, 115u8, 104u8, 111u8, 116u8, 45u8]
}

/// The bytes of `.png`.
pub open spec fn png_suffix() -> Seq<u8> {
    seq![46u8, 112u8, 110u8, 103u8]
}

/// The timestamped export filename
/// `screenshot-YYYYMMDD-HHMMSS.png`.
pub open spec fn screenshot_filename_spec(
    year: int,
    month: int,
    day: int,
    hour: int,
    minute: int,
    second: int,
) -> Seq<u8> {
    filename_prefix() + four_digits(year) + two_digits(month) + two_digits(day) + seq![45u8]
        + two_digits(hour) + two_digits(minute) + two_digits(second) + png_suffix()
}

/// Append a value under one hundred as two zero-padded ASCII digits.
fn push_two_digits(r: &mut Vec<u8>, n: u64)
    requires
        n <= 99,
    ensures
        final(r)@ == old(r)@ + two_digits(n as int),
{
    proof {
        vstd::arithmetic::div_mod::lemma_div_nonincreasing(n as int, 10);
        vstd::arithmetic::div_mod::lemma_div_pos_is_pos(n as int, 10);
        vstd::arithmetic::div_mod::lemma_mod_bound(n as int, 10);
        vstd::arithmetic::div_mod::lemma_div_is_ordered(n as int, 99, 10);
    }
    r.push((48 + n / 10) as u8);
    r.push((48 + n % 10) as u8);
    proof {
        assert(r@ =~= old(r)@ + two_digits(n as int));
    }
}

/// The timestamped export filename for a capture saved at the given
/// local time: `screenshot-YYYYMMDD-HHMMSS.png`, every field
/// zero-padded.
pub fn screenshot_filename(
    year: u64,
    month: u64,
    day: u64,
    hour: u64,
    minute: u64,
    second: u64,
) -> (r: Vec<u8>)
    requires
        year <= 9999,
        month <= 99,
        day <= 99,
        hour <= 99,
        minute <= 99,
        second <= 99,
    ensures
        r@ == screenshot_filename_spec(
            year as int,
            month as int,
            day as int,
            hour as int,
            minute as int,
            second as int,
        ),
{
    let mut r: Vec<u8> = Vec::new();
    r.push(115);
    r.push(99);
    r.push(114);
    r.push(101);
    r.push(101);
    r.push(110);
    r.push(115);
    r.push(104);
    r.push(111);
    r.push(116);
    r.push(45);
    proof {
        assert(r@ =~= filename_prefix());
        vstd::arithmetic::div_mod::lemma_div_nonincreasing(year as int, 100);
        vstd::arithmetic::div_mod::lemma_div_pos_is_pos(year as int, 100);
        vstd::arithmetic::div_mod::lemma_mod_bound(year as int, 100);
        vstd::arithmetic::div_mod::lemma_div_is_ordered(year as int, 9999, 100);
    }
    push_two_digits(&mut r, year / 100);
    push_two_digits(&mut r, year % 100);
    push_two_digits(&mut r, month);
    push_two_digits(&mut r, day);
    r.push(45);
    push_two_digits(&mut r, hour);
    push_two_digits(&mut r, minute);
    push_two_digits(&mut r, second);
    r.push(46);
    r.push(112);
    r.push(110);
    r.push(103);
    proof {
        assert(r@ =~= screenshot_filename_spec(
            year as int,
            month as int,
            day as int,
            hour as int,
            minute as int,
            second as int,
        ));
    }
    r
}

} // verus!
