//! Recordings: a seed plus every input event with the state hash after it,
//! in the `wade-events` text format.
//!
//! ```text
//! wade-events 1
//! seed 8127364512
//! 1000 down 160 110 #3f9a1c02
//! 1080 up 160 110 #b7e0442d
//! 2400 key 3 #5d21a7c4
//! ```
//!
//! Each line after the header and the seed is a timestamp in milliseconds,
//! then a touch phase (`down`, `move` or `up`) with x and y, or `key` with
//! the key (`0`-`9`, `z` or `p`), then the state hash after the event as `#`
//! and eight hexadecimal digits. Empty lines are skipped. `Deadline` events
//! are not recorded; replay regenerates them from the app's deadlines.

use vstd::prelude::*;

use crate::event::{digit, Digit, Event, EventKind, Key, Touch, TouchPhase};
use crate::geometry::Point;
use crate::harness::Harness;
use crate::time::{at, Instant};

verus! {

broadcast use {crate::time::group_time, crate::event::lemma_digit_view, crate::event::lemma_digit_of_view};

/// The newest header version this code reads. The parser accepts every
/// version from 1 up to it.
pub const VERSION: u32 = 1;

/// A recorded input.
#[derive(Clone, Copy, Debug, PartialEq, Eq, Structural)]
pub enum Input {
    Touch(Touch),
    Key(Key),
}

impl Input {
    /// The event kind this input is delivered as.
    pub fn kind(self) -> (k: EventKind)
        ensures
            k == match self {
                Input::Touch(t) => EventKind::Touch(t),
                Input::Key(key) => EventKind::Key(key),
            },
    {
        match self {
            Input::Touch(t) => EventKind::Touch(t),
            Input::Key(key) => EventKind::Key(key),
        }
    }
}

/// One recorded input with the state hash after it was handled.
#[derive(Clone, Copy, Debug, PartialEq, Eq, Structural)]
pub struct Entry {
    pub at: Instant,
    pub input: Input,
    pub hash: u32,
}

/// The first entry whose recomputed hash differs from the recorded one.
#[derive(Clone, Copy, Debug, PartialEq, Eq, Structural)]
pub struct Mismatch {
    pub index: usize,
    pub at: Instant,
    pub expected: u32,
    pub actual: u32,
}

/// A seed and every input of a session.
#[derive(Clone, Debug)]
pub struct Recording {
    pub seed: u64,
    pub entries: Vec<Entry>,
}

impl Entry {
    /// The mismatch of entry `index` when the state hash after it is `hash`,
    /// or `None` when `hash` is the recorded one.
    pub fn mismatch(&self, index: usize, hash: u32) -> (m: Option<Mismatch>)
        ensures
            m is None <==> hash == self.hash,
            m is Some ==> m == Some(Mismatch { index, at: self.at, expected: self.hash, actual: hash }),
    {
        if hash == self.hash {
            None
        } else {
            Some(Mismatch { index, at: self.at, expected: self.hash, actual: hash })
        }
    }
}

// The text format.

/// The start and end of each piece of `s` between separators `sep`, in
/// order: one more piece than there are separators.
pub open spec fn pieces(s: Seq<u8>, sep: u8) -> Seq<(int, int)>
    decreases s.len(),
{
    if s.len() == 0 {
        seq![(0int, 0int)]
    } else {
        let p = pieces(s.drop_last(), sep);
        if s.last() == sep {
            p.push((s.len() as int, s.len() as int))
        } else {
            p.update(p.len() - 1, (p.last().0, s.len() as int))
        }
    }
}

/// `s` split at every `sep`.
pub open spec fn split(s: Seq<u8>, sep: u8) -> Seq<Seq<u8>> {
    pieces(s, sep).map_values(|r: (int, int)| s.subrange(r.0, r.1))
}

/// The lines of a text.
pub open spec fn lines(s: Seq<u8>) -> Seq<Seq<u8>> {
    split(s, 10u8)
}

/// The words of a line.
pub open spec fn words(line: Seq<u8>) -> Seq<Seq<u8>> {
    split(line, 32u8)
}

pub open spec fn is_digit(c: u8) -> bool {
    48 <= c <= 57
}

/// The value of the decimal digits `s`.
pub open spec fn dec_value(s: Seq<u8>) -> nat
    decreases s.len(),
{
    if s.len() == 0 {
        0
    } else {
        dec_value(s.drop_last()) * 10 + (s.last() - 48) as nat
    }
}

/// `s` is a decimal number no greater than `bound`.
pub open spec fn dec_ok(s: Seq<u8>, bound: int) -> bool {
    &&& s.len() > 0
    &&& forall|i: int| 0 <= i < s.len() ==> is_digit(#[trigger] s[i])
    &&& dec_value(s) <= bound
}

/// The coordinate a word holds: a decimal number, with `-` before it if
/// negative, that fits an `i32`.
pub open spec fn coord_of(w: Seq<u8>) -> Option<i32> {
    if w.len() > 0 && w[0] == 45u8 {
        if dec_ok(w.skip(1), 0x8000_0000) {
            Some((0 - dec_value(w.skip(1))) as i32)
        } else {
            None
        }
    } else if dec_ok(w, i32::MAX as int) {
        Some(dec_value(w) as i32)
    } else {
        None
    }
}

/// The value of hexadecimal digit `c`, either case, if it is one.
pub open spec fn hex_digit(c: u8) -> Option<nat> {
    if 48 <= c <= 57 {
        Some((c - 48) as nat)
    } else if 97 <= c <= 102 {
        Some((c - 87) as nat)
    } else if 65 <= c <= 70 {
        Some((c - 55) as nat)
    } else {
        None
    }
}

/// The value of the hexadecimal digits `s`.
pub open spec fn hex_value(s: Seq<u8>) -> nat
    decreases s.len(),
{
    if s.len() == 0 {
        0
    } else {
        hex_value(s.drop_last()) * 16 + hex_digit(s.last())->0
    }
}

/// A state hash: `#` and eight hexadecimal digits.
pub open spec fn hash_of(w: Seq<u8>) -> Option<u32> {
    if w.len() == 9 && w[0] == 35u8 && forall|i: int| 1 <= i < 9 ==> (#[trigger] hex_digit(w[i])) is Some {
        Some(hex_value(w.subrange(1, 9)) as u32)
    } else {
        None
    }
}

/// The touch phase a word names.
pub open spec fn phase_of(w: Seq<u8>) -> Option<TouchPhase> {
    if w == seq![100u8, 111u8, 119u8, 110u8] {
        Some(TouchPhase::Down)
    } else if w == seq![109u8, 111u8, 118u8, 101u8] {
        Some(TouchPhase::Move)
    } else if w == seq![117u8, 112u8] {
        Some(TouchPhase::Up)
    } else {
        None
    }
}

/// The key a word names: a digit, `z` or `p`.
pub open spec fn key_of(w: Seq<u8>) -> Option<Key> {
    if w.len() == 1 && is_digit(w[0]) {
        Some(Key::Digit(digit((w[0] - 48) as u8)))
    } else if w == seq![122u8] {
        Some(Key::Z)
    } else if w == seq![112u8] {
        Some(Key::P)
    } else {
        None
    }
}

/// The word `key`.
pub open spec fn key_word() -> Seq<u8> {
    seq![107u8, 101u8, 121u8]
}

/// The entry a line holds, if it holds one.
pub open spec fn entry_of(line: Seq<u8>) -> Option<Entry> {
    let w = words(line);
    if w.len() == 5 && dec_ok(w[0], u64::MAX as int) && phase_of(w[1]) is Some && coord_of(w[2]) is Some
        && coord_of(w[3]) is Some && hash_of(w[4]) is Some {
        Some(
            Entry {
                at: at(dec_value(w[0]) as u64),
                input: Input::Touch(
                    Touch {
                        phase: phase_of(w[1])->0,
                        point: Point { x: coord_of(w[2])->0, y: coord_of(w[3])->0 },
                    },
                ),
                hash: hash_of(w[4])->0,
            },
        )
    } else if w.len() == 4 && dec_ok(w[0], u64::MAX as int) && w[1] == key_word() && key_of(w[2]) is Some
        && hash_of(w[3]) is Some {
        Some(
            Entry {
                at: at(dec_value(w[0]) as u64),
                input: Input::Key(key_of(w[2])->0),
                hash: hash_of(w[3])->0,
            },
        )
    } else {
        None
    }
}

/// The entries of lines `ls`, skipping empty ones, if every other line
/// holds an entry.
pub open spec fn entries_of(ls: Seq<Seq<u8>>) -> Option<Seq<Entry>>
    decreases ls.len(),
{
    if ls.len() == 0 {
        Some(seq![])
    } else {
        match entries_of(ls.drop_last()) {
            Some(es) => if ls.last().len() == 0 {
                Some(es)
            } else {
                match entry_of(ls.last()) {
                    Some(e) => Some(es.push(e)),
                    None => None,
                }
            },
            None => None,
        }
    }
}

/// The header line: `wade-events` and a version from 1 to `VERSION`.
pub open spec fn header_ok(line: Seq<u8>) -> bool {
    let w = words(line);
    &&& w.len() == 2
    &&& w[0] == seq![119u8, 97u8, 100u8, 101u8, 45u8, 101u8, 118u8, 101u8, 110u8, 116u8, 115u8]
    &&& dec_ok(w[1], VERSION as int)
    &&& dec_value(w[1]) >= 1
}

/// The seed line: `seed` and the seed.
pub open spec fn seed_of(line: Seq<u8>) -> Option<u64> {
    let w = words(line);
    if w.len() == 2 && w[0] == seq![115u8, 101u8, 101u8, 100u8] && dec_ok(w[1], u64::MAX as int) {
        Some(dec_value(w[1]) as u64)
    } else {
        None
    }
}

/// The seed and entries that the text `s` records, if it is a recording.
pub open spec fn parse_spec(s: Seq<u8>) -> Option<(u64, Seq<Entry>)> {
    let ls = lines(s);
    if ls.len() >= 2 && header_ok(ls[0]) && seed_of(ls[1]) is Some {
        match entries_of(ls.subrange(2, ls.len() as int)) {
            Some(es) => Some((seed_of(ls[1])->0, es)),
            None => None,
        }
    } else {
        None
    }
}


/// A piece's range stays within the text it was cut from.
proof fn lemma_pieces_in_range(s: Seq<u8>, sep: u8)
    ensures
        pieces(s, sep).len() >= 1,
        forall|k: int|
            0 <= k < pieces(s, sep).len() ==> 0 <= (#[trigger] pieces(s, sep)[k]).0 <= pieces(s, sep)[k].1 <= s.len(),
    decreases s.len(),
{
    if s.len() > 0 {
        lemma_pieces_in_range(s.drop_last(), sep);
    }
}

/// Where `s` splits at `sep`: the start and end of each piece.
fn split_ranges(s: &[u8], sep: u8) -> (r: Vec<(usize, usize)>)
    ensures
        r@.len() == pieces(s@, sep).len(),
        forall|k: int|
            0 <= k < r@.len() ==> (#[trigger] r@[k]).0 as int == pieces(s@, sep)[k].0 && r@[k].1 as int
                == pieces(s@, sep)[k].1,
{
    let mut r: Vec<(usize, usize)> = vec![(0, 0)];
    let mut i: usize = 0;
    proof {
        assert(s@.take(0) =~= Seq::<u8>::empty());
    }
    while i < s.len()
        invariant
            i <= s@.len(),
            r@.len() >= 1,
            r@.len() == pieces(s@.take(i as int), sep).len(),
            forall|k: int|
                0 <= k < r@.len() ==> (#[trigger] r@[k]).0 as int == pieces(s@.take(i as int), sep)[k].0
                    && r@[k].1 as int == pieces(s@.take(i as int), sep)[k].1,
        decreases s@.len() - i,
    {
        let ghost before = s@.take(i as int);
        proof {
            assert(s@.take(i + 1).drop_last() =~= before);
            assert(s@.take(i + 1).last() == s@[i as int]);
        }
        if s[i] == sep {
            r.push((i + 1, i + 1));
        } else {
            let last = r.len() - 1;
            let start = r[last].0;
            r.set(last, (start, i + 1));
        }
        i = i + 1;
    }
    proof {
        assert(s@.take(s@.len() as int) =~= s@);
    }
    r
}

/// True if `a` and `b` hold the same bytes.
fn same(a: &[u8], b: &[u8]) -> (r: bool)
    ensures
        r == (a@ == b@),
{
    if a.len() != b.len() {
        return false;
    }
    let mut i: usize = 0;
    while i < a.len()
        invariant
            i <= a@.len(),
            a@.len() == b@.len(),
            forall|k: int| 0 <= k < i ==> a@[k] == b@[k],
        decreases a@.len() - i,
    {
        if a[i] != b[i] {
            return false;
        }
        i = i + 1;
    }
    proof {
        assert(a@ =~= b@);
    }
    true
}

/// The decimal number `s`, if it is one no greater than `bound`.
fn parse_decimal(s: &[u8], bound: u64) -> (r: Option<u64>)
    ensures
        r == if dec_ok(s@, bound as int) {
            Some(dec_value(s@) as u64)
        } else {
            None
        },
{
    if s.len() == 0 {
        return None;
    }
    // Past `bound`, the value is kept at `bound + 1`: more digits only add.

    let cap: u128 = bound as u128 + 1;
    let mut acc: u128 = 0;
    let mut i: usize = 0;
    proof {
        assert(s@.take(0) =~= Seq::<u8>::empty());
    }
    while i < s.len()
        invariant
            i <= s@.len(),
            cap == bound + 1,
            forall|k: int| 0 <= k < i ==> is_digit(#[trigger] s@[k]),
            acc == if dec_value(s@.take(i as int)) > bound {
                cap as int
            } else {
                dec_value(s@.take(i as int)) as int
            },
        decreases s@.len() - i,
    {
        let c = s[i];
        if c < 48 || c > 57 {
            return None;
        }
        proof {
            assert(s@.take(i + 1).drop_last() =~= s@.take(i as int));
        }
        let v = acc * 10 + (c - 48) as u128;
        acc = if acc >= cap || v > bound as u128 {
            cap
        } else {
            v
        };
        i = i + 1;
    }
    proof {
        assert(s@.take(s@.len() as int) =~= s@);
    }
    if acc >= cap {
        None
    } else {
        Some(acc as u64)
    }
}

/// The coordinate a word holds, if it holds one.
fn parse_coord(w: &[u8]) -> (r: Option<i32>)
    ensures
        r == coord_of(w@),
{
    if w.len() > 0 && w[0] == 45 {
        let rest = vstd::slice::slice_subrange(w, 1, w.len());
        proof {
            assert(rest@ =~= w@.skip(1));
        }
        match parse_decimal(rest, 0x8000_0000) {
            Some(v) => Some((0 - v as i64) as i32),
            None => None,
        }
    } else {
        match parse_decimal(w, i32::MAX as u64) {
            Some(v) => Some(v as i32),
            None => None,
        }
    }
}

/// The value of hexadecimal digit `c`, if it is one.
fn hex_digit_value(c: u8) -> (v: Option<u8>)
    ensures
        v is Some == hex_digit(c) is Some,
        v matches Some(v) ==> v as nat == hex_digit(c)->0 && v < 16,
{
    if 48 <= c && c <= 57 {
        Some(c - 48)
    } else if 97 <= c && c <= 102 {
        Some(c - 87)
    } else if 65 <= c && c <= 70 {
        Some(c - 55)
    } else {
        None
    }
}

/// The largest value `n` hexadecimal digits hold.
pub open spec fn hex_max(n: nat) -> nat
    decreases n,
{
    if n == 0 {
        0
    } else {
        hex_max((n - 1) as nat) * 16 + 15
    }
}

/// Sixteen to the power `n`.
pub open spec fn pow16(n: nat) -> nat
    decreases n,
{
    if n == 0 {
        1
    } else {
        pow16((n - 1) as nat) * 16
    }
}

/// `n` hexadecimal digits hold values below sixteen to the power `n`.
proof fn lemma_hex_max(n: nat)
    ensures
        hex_max(n) + 1 == pow16(n),
    decreases n,
{
    if n > 0 {
        lemma_hex_max((n - 1) as nat);
    }
}

/// Powers of sixteen grow with the exponent.
proof fn lemma_pow16_grows(a: nat, b: nat)
    requires
        a <= b,
    ensures
        pow16(a) <= pow16(b),
    decreases b,
{
    if a < b {
        lemma_pow16_grows(a, (b - 1) as nat);
    }
}

/// The state hash a word holds, if it holds one.
fn parse_hash(w: &[u8]) -> (r: Option<u32>)
    ensures
        r == hash_of(w@),
{
    if w.len() != 9 || w[0] != 35 {
        return None;
    }
    let mut acc: u64 = 0;
    let mut i: usize = 1;
    proof {
        assert(w@.subrange(1, 1) =~= Seq::<u8>::empty());
    }
    while i < 9
        invariant
            1 <= i <= 9,
            w@.len() == 9,
            forall|k: int| 1 <= k < i ==> (#[trigger] hex_digit(w@[k])) is Some,
            acc == hex_value(w@.subrange(1, i as int)),
            acc <= hex_max((i - 1) as nat),
        decreases 9 - i,
    {
        let d = match hex_digit_value(w[i]) {
            Some(d) => d,
            None => {
                return None;
            },
        };
        proof {
            assert(w@.subrange(1, i + 1).drop_last() =~= w@.subrange(1, i as int));
            assert(hex_max(i as nat) == hex_max((i - 1) as nat) * 16 + 15);
            lemma_hex_max((i - 1) as nat);
            lemma_pow16_grows((i - 1) as nat, 7);
            reveal_with_fuel(pow16, 8);
            assert(pow16(7) == 0x1000_0000);
        }
        acc = acc * 16 + d as u64;
        i = i + 1;
    }
    proof {
        lemma_hex_max(8);
        reveal_with_fuel(pow16, 9);
        assert(pow16(8) == 0x1_0000_0000);
        assert(w@.subrange(1, 9) == w@.subrange(1, i as int));
    }
    Some(acc as u32)
}

/// The touch phase a word names.
fn parse_phase(w: &[u8]) -> (r: Option<TouchPhase>)
    ensures
        r == phase_of(w@),
{
    if same(w, &[100u8, 111u8, 119u8, 110u8]) {
        Some(TouchPhase::Down)
    } else if same(w, &[109u8, 111u8, 118u8, 101u8]) {
        Some(TouchPhase::Move)
    } else if same(w, &[117u8, 112u8]) {
        Some(TouchPhase::Up)
    } else {
        None
    }
}

/// The key a word names.
fn parse_key(w: &[u8]) -> (r: Option<Key>)
    ensures
        r == key_of(w@),
{
    if w.len() == 1 && 48 <= w[0] && w[0] <= 57 {
        match Digit::new(w[0] - 48) {
            Some(d) => {
                proof {
                    assert(d == digit(d@));
                }
                Some(Key::Digit(d))
            },
            None => None,
        }
    } else if w.len() == 1 && w[0] == 122 {
        proof {
            assert(w@ =~= seq![122u8]);
        }
        Some(Key::Z)
    } else if w.len() == 1 && w[0] == 112 {
        proof {
            assert(w@ =~= seq![112u8]);
        }
        Some(Key::P)
    } else {
        None
    }
}

/// Word `k` of `line`, cut where `split_ranges` found it.
fn word<'a>(line: &'a [u8], rs: &Vec<(usize, usize)>, k: usize) -> (w: &'a [u8])
    requires
        rs@.len() == pieces(line@, 32u8).len(),
        forall|j: int|
            0 <= j < rs@.len() ==> (#[trigger] rs@[j]).0 as int == pieces(line@, 32u8)[j].0 && rs@[j].1 as int
                == pieces(line@, 32u8)[j].1,
        k < rs@.len(),
    ensures
        w@ == words(line@)[k as int],
{
    proof {
        lemma_pieces_in_range(line@, 32u8);
    }
    vstd::slice::slice_subrange(line, rs[k].0, rs[k].1)
}

/// The entry a line holds, if it holds one.
fn parse_entry(line: &[u8]) -> (r: Option<Entry>)
    ensures
        r == entry_of(line@),
{
    let rs = split_ranges(line, 32);
    if rs.len() == 5 {
        let ms = match parse_decimal(word(line, &rs, 0), u64::MAX) {
            Some(v) => v,
            None => return None,
        };
        let phase = match parse_phase(word(line, &rs, 1)) {
            Some(p) => p,
            None => return None,
        };
        let x = match parse_coord(word(line, &rs, 2)) {
            Some(v) => v,
            None => return None,
        };
        let y = match parse_coord(word(line, &rs, 3)) {
            Some(v) => v,
            None => return None,
        };
        let hash = match parse_hash(word(line, &rs, 4)) {
            Some(h) => h,
            None => return None,
        };
        let at = Instant::from_millis(ms);
        proof {
            assert(at == crate::time::at(at@));
        }
        Some(Entry { at, input: Input::Touch(Touch { phase, point: Point::new(x, y) }), hash })
    } else if rs.len() == 4 {
        let ms = match parse_decimal(word(line, &rs, 0), u64::MAX) {
            Some(v) => v,
            None => return None,
        };
        let w1 = word(line, &rs, 1);
        if !(w1.len() == 3 && w1[0] == 107 && w1[1] == 101 && w1[2] == 121) {
            proof {
                if w1@ == key_word() {
                    assert(w1@[0] == 107u8 && w1@[1] == 101u8 && w1@[2] == 121u8);
                }
            }
            return None;
        }
        proof {
            assert(w1@ =~= key_word());
        }
        let key = match parse_key(word(line, &rs, 2)) {
            Some(k) => k,
            None => return None,
        };
        let hash = match parse_hash(word(line, &rs, 3)) {
            Some(h) => h,
            None => return None,
        };
        let at = Instant::from_millis(ms);
        proof {
            assert(at == crate::time::at(at@));
        }
        Some(Entry { at, input: Input::Key(key), hash })
    } else {
        None
    }
}

/// True if a line is the header: `wade-events` and a version this code reads.
fn parse_header(line: &[u8]) -> (ok: bool)
    ensures
        ok == header_ok(line@),
{
    let rs = split_ranges(line, 32);
    if rs.len() != 2 {
        return false;
    }
    let w0 = word(line, &rs, 0);
    if !same(w0, &[119u8, 97u8, 100u8, 101u8, 45u8, 101u8, 118u8, 101u8, 110u8, 116u8, 115u8]) {
        return false;
    }
    match parse_decimal(word(line, &rs, 1), VERSION as u64) {
        Some(v) => v >= 1,
        None => false,
    }
}

/// The seed a line holds, if it is a seed line.
fn parse_seed(line: &[u8]) -> (seed: Option<u64>)
    ensures
        seed == seed_of(line@),
{
    let rs = split_ranges(line, 32);
    if rs.len() != 2 {
        return None;
    }
    let w0 = word(line, &rs, 0);
    if !same(w0, &[115u8, 101u8, 101u8, 100u8]) {
        return None;
    }
    parse_decimal(word(line, &rs, 1), u64::MAX)
}

/// Once some line lacks an entry, more lines do not make a recording.
proof fn lemma_entries_stay_refused(ls: Seq<Seq<u8>>, n: int)
    requires
        0 <= n <= ls.len(),
        entries_of(ls.subrange(0, n)) is None,
    ensures
        entries_of(ls) is None,
    decreases ls.len(),
{
    if ls.len() == n {
        assert(ls.subrange(0, n) =~= ls);
    } else {
        assert(ls.drop_last().subrange(0, n) =~= ls.subrange(0, n));
        lemma_entries_stay_refused(ls.drop_last(), n);
    }
}

impl Recording {
    /// A recording of a session seeded with `seed`, with no entries yet.
    pub fn new(seed: u64) -> (r: Recording)
        ensures
            r.seed == seed,
            r.entries@ == Seq::<Entry>::empty(),
    {
        Recording { seed, entries: Vec::new() }
    }

    /// The recording the text `text` holds, if it is one: see [`parse_spec`].
    pub fn parse(text: &[u8]) -> (r: Option<Recording>)
        ensures
            r is Some <==> parse_spec(text@) is Some,
            r matches Some(rec) ==> parse_spec(text@) == Some((rec.seed, rec.entries@)),
    {
        let ls = split_ranges(text, 10);
        let ghost all = lines(text@);
        proof {
            lemma_pieces_in_range(text@, 10u8);
        }
        if ls.len() < 2 {
            return None;
        }
        let header = vstd::slice::slice_subrange(text, ls[0].0, ls[0].1);
        proof {
            assert(header@ == all[0]);
        }
        if !parse_header(header) {
            return None;
        }
        let seed_line = vstd::slice::slice_subrange(text, ls[1].0, ls[1].1);
        proof {
            assert(seed_line@ == all[1]);
        }
        let seed = match parse_seed(seed_line) {
            Some(s) => s,
            None => return None,
        };
        let mut entries: Vec<Entry> = Vec::new();
        let mut k: usize = 2;
        proof {
            assert(all.subrange(2, 2) =~= Seq::<Seq<u8>>::empty());
        }
        while k < ls.len()
            invariant
                2 <= k <= ls@.len(),
                all == lines(text@),
                all.len() == ls@.len(),
                ls@.len() == pieces(text@, 10u8).len(),
                forall|j: int|
                    0 <= j < ls@.len() ==> (#[trigger] ls@[j]).0 as int == pieces(text@, 10u8)[j].0 && ls@[j].1 as int
                        == pieces(text@, 10u8)[j].1,
                forall|j: int|
                    0 <= j < pieces(text@, 10u8).len() ==> 0 <= (#[trigger] pieces(text@, 10u8)[j]).0 <= pieces(
                        text@,
                        10u8,
                    )[j].1 <= text@.len(),
                entries_of(all.subrange(2, k as int)) == Some(entries@),
            decreases ls@.len() - k,
        {
            let line = vstd::slice::slice_subrange(text, ls[k].0, ls[k].1);
            proof {
                assert(line@ == all[k as int]);
                assert(all.subrange(2, k + 1).drop_last() =~= all.subrange(2, k as int));
                assert(all.subrange(2, k + 1).last() == all[k as int]);
            }
            if line.len() > 0 {
                match parse_entry(line) {
                    Some(e) => entries.push(e),
                    None => {
                        proof {
                            lemma_entries_stay_refused(all.subrange(2, all.len() as int), k + 1 - 2);
                            assert(all.subrange(2, all.len() as int).subrange(0, k + 1 - 2) =~= all.subrange(2, k + 1));
                        }
                        return None;
                    },
                }
            }
            k = k + 1;
        }
        proof {
            assert(all.subrange(2, k as int) =~= all.subrange(2, all.len() as int));
        }
        Some(Recording { seed, entries })
    }

    /// Run the recording through a fresh harness with the default settings:
    /// before each entry, deliver the deadlines the app requests up to its
    /// time, then the entry, then compare the state hash with the recorded
    /// one. Returns the harness in its final state, or the first mismatch.
    /// On `Ok`, the harness handled every entry, and the state hash after
    /// each was the one recorded with it.
    pub fn replay(&self) -> (r: Result<Harness, Mismatch>)
        ensures
            r matches Ok(h) ==> h.ready(),
            r matches Ok(h) ==> {
                &&& h.after_inputs().len() == self.entries@.len()
                &&& forall|i: int|
                    0 <= i < self.entries@.len() ==> crate::harness::state_hash_of(#[trigger] h.after_inputs()[i])
                        == self.entries@[i].hash
            },
            r matches Err(m) ==> {
                &&& m.index < self.entries@.len()
                &&& m.at == self.entries@[m.index as int].at
                &&& m.expected == self.entries@[m.index as int].hash
                &&& m.actual != m.expected
            },
    {
        let mut h = Harness::new(self.seed);
        match self.replay_on(&mut h) {
            Ok(()) => {
                proof {
                    assert forall|i: int| 0 <= i < self.entries@.len() implies crate::harness::state_hash_of(
                        #[trigger] h.after_inputs()[i],
                    ) == self.entries@[i].hash by {
                        assert(h.after_inputs()[0 + i] == h.after_inputs()[i]);
                    }
                }
                Ok(h)
            },
            Err(m) => Err(m),
        }
    }

    /// Replay the entries on `h`, as [`Recording::replay`] does on a fresh
    /// harness. On `Ok`, the state hash after each entry was the one recorded
    /// with it; on `Err(m)`, those before entry `m.index` matched, and the
    /// state hash after entry `m.index`, `m.actual`, did not.
    pub fn replay_on(&self, h: &mut Harness) -> (r: Result<(), Mismatch>)
        requires
            old(h).ready(),
        ensures
            final(h).ready(),
            ({
                let n0 = old(h).after_inputs().len();
                let trail = final(h).after_inputs();
                &&& trail.len() >= n0
                &&& trail.subrange(0, n0 as int) == old(h).after_inputs()
                &&& r is Ok ==> {
                    &&& trail.len() == n0 + self.entries@.len()
                    &&& forall|i: int|
                        0 <= i < self.entries@.len() ==> crate::harness::state_hash_of(#[trigger] trail[n0 + i])
                            == self.entries@[i].hash
                }
                &&& r matches Err(m) ==> {
                    &&& m.index < self.entries@.len()
                    &&& trail.len() == n0 + m.index + 1
                    &&& forall|i: int|
                        0 <= i < m.index ==> crate::harness::state_hash_of(#[trigger] trail[n0 + i])
                            == self.entries@[i].hash
                    &&& m == (Mismatch {
                        index: m.index,
                        at: self.entries@[m.index as int].at,
                        expected: self.entries@[m.index as int].hash,
                        actual: crate::harness::state_hash_of(trail[n0 + m.index]),
                    })
                    &&& m.actual != m.expected
                }
            }),
    {
        let ghost start = h.after_inputs();
        let ghost n0 = start.len();
        let mut i: usize = 0;
        while i < self.entries.len()
            invariant
                h.ready(),
                i <= self.entries@.len(),
                n0 == start.len(),
                start == old(h).after_inputs(),
                h.after_inputs().len() == n0 + i,
                h.after_inputs().subrange(0, n0 as int) == start,
                forall|j: int|
                    0 <= j < i ==> crate::harness::state_hash_of(#[trigger] h.after_inputs()[n0 + j])
                        == self.entries@[j].hash,
            decreases self.entries@.len() - i,
        {
            let ghost before = h.after_inputs();
            let found = replay_entry(h, self.entries[i], i);
            proof {
                assert(h.after_inputs().subrange(0, n0 as int) =~= before.subrange(0, n0 as int));
                assert forall|j: int| 0 <= j < i implies crate::harness::state_hash_of(
                    #[trigger] h.after_inputs()[n0 + j],
                ) == self.entries@[j].hash by {
                    assert(h.after_inputs()[n0 + j] == before[n0 + j]);
                }
            }
            if let Some(m) = found {
                return Err(m);
            }
            i = i + 1;
        }
        Ok(())
    }
}

/// Replay entry `e`, the `index`-th, on `h`: deliver the deadlines the app
/// requests up to its time, then the entry, and compare the state hash after
/// it with the recorded one.
fn replay_entry(h: &mut Harness, e: Entry, index: usize) -> (m: Option<Mismatch>)
    requires
        old(h).ready(),
    ensures
        final(h).ready(),
        final(h).after_inputs().len() == old(h).after_inputs().len() + 1,
        final(h).after_inputs().subrange(0, old(h).after_inputs().len() as int) == old(h).after_inputs(),
        ({
            let actual = crate::harness::state_hash_of(final(h).after_inputs().last());
            &&& m is None <==> actual == e.hash
            &&& m is Some ==> m == Some(Mismatch { index, at: e.at, expected: e.hash, actual })
        }),
{
    let ghost before = h.after_inputs();
    // Events never move the core back in time.
    let t = h.app().now().latest(e.at);
    let _ = h.run_until(t);
    let _ = h.handle(Event { at: e.at, kind: e.input.kind() });
    let hash = h.state_hash();
    proof {
        assert(h.after_inputs() == before.push(h.driven().model()));
        assert(h.after_inputs().subrange(0, before.len() as int) =~= before);
    }
    e.mismatch(index, hash)
}

// Writing recordings.

/// The words `ws` joined with `sep` between them.
pub open spec fn join(ws: Seq<Seq<u8>>, sep: u8) -> Seq<u8>
    decreases ws.len(),
{
    if ws.len() == 0 {
        seq![]
    } else if ws.len() == 1 {
        ws[0]
    } else {
        join(ws.drop_last(), sep).push(sep) + ws.last()
    }
}

/// `s` holds no byte `c`.
pub open spec fn free_of(s: Seq<u8>, c: u8) -> bool {
    forall|i: int| 0 <= i < s.len() ==> #[trigger] s[i] != c
}

/// The decimal digits of `n`, without leading zeros.
pub open spec fn dec_digits(n: nat) -> Seq<u8>
    decreases n,
{
    if n < 10 {
        seq![(48 + n) as u8]
    } else {
        dec_digits(n / 10).push((48 + n % 10) as u8)
    }
}

/// The lowercase hexadecimal digit for `d`, below 16.
pub open spec fn hex_char(d: nat) -> u8 {
    if d < 10 {
        (48 + d) as u8
    } else {
        (87 + d) as u8
    }
}

/// The last `k` hexadecimal digits of `v`, zero-padded.
pub open spec fn hex_digits(v: nat, k: nat) -> Seq<u8>
    decreases k,
{
    if k == 0 {
        seq![]
    } else {
        hex_digits(v / 16, (k - 1) as nat).push(hex_char(v % 16))
    }
}

/// A coordinate as text: its decimal digits, after `-` if negative.
pub open spec fn coord_text(c: i32) -> Seq<u8> {
    if c < 0 {
        seq![45u8] + dec_digits((0 - c) as nat)
    } else {
        dec_digits(c as nat)
    }
}

/// A touch phase's word.
pub open spec fn phase_text(p: TouchPhase) -> Seq<u8> {
    match p {
        TouchPhase::Down => seq![100u8, 111u8, 119u8, 110u8],
        TouchPhase::Move => seq![109u8, 111u8, 118u8, 101u8],
        TouchPhase::Up => seq![117u8, 112u8],
    }
}

/// A key's word.
pub open spec fn key_text(k: Key) -> Seq<u8> {
    match k {
        Key::Digit(d) => seq![(48 + d@) as u8],
        Key::Z => seq![122u8],
        Key::P => seq![112u8],
    }
}

/// A state hash's word: `#` and eight lowercase hexadecimal digits.
pub open spec fn hash_text(h: u32) -> Seq<u8> {
    seq![35u8] + hex_digits(h as nat, 8)
}

/// The words of an entry's line.
pub open spec fn entry_words(e: Entry) -> Seq<Seq<u8>> {
    match e.input {
        Input::Touch(t) => seq![
            dec_digits(e.at@ as nat),
            phase_text(t.phase),
            coord_text(t.point.x),
            coord_text(t.point.y),
            hash_text(e.hash),
        ],
        Input::Key(k) => seq![dec_digits(e.at@ as nat), key_word(), key_text(k), hash_text(e.hash)],
    }
}

/// An entry's line, without the line break.
pub open spec fn entry_text(e: Entry) -> Seq<u8> {
    join(entry_words(e), 32u8)
}

/// An entry is valid when a digit key it holds is a decimal digit, as every
/// `Digit` is.
pub open spec fn entry_valid(e: Entry) -> bool {
    e.input matches Input::Key(Key::Digit(d)) ==> d@ <= 9
}

/// The lines of a recording: the header, the seed, and one per entry.
pub open spec fn recording_lines(seed: u64, entries: Seq<Entry>) -> Seq<Seq<u8>> {
    seq![
        seq![119u8, 97u8, 100u8, 101u8, 45u8, 101u8, 118u8, 101u8, 110u8, 116u8, 115u8, 32u8, 49u8],
        seq![115u8, 101u8, 101u8, 100u8, 32u8] + dec_digits(seed as nat),
    ] + entries.map_values(|e: Entry| entry_text(e))
}

/// A recording's text: each line followed by a line break.
pub open spec fn recording_text(seed: u64, entries: Seq<Entry>) -> Seq<u8> {
    join(recording_lines(seed, entries).push(seq![]), 10u8)
}

/// Decimal digits read back as the number they were written from.
proof fn lemma_dec_digits(n: nat)
    ensures
        dec_digits(n).len() > 0,
        forall|i: int| 0 <= i < dec_digits(n).len() ==> is_digit(#[trigger] dec_digits(n)[i]),
        dec_value(dec_digits(n)) == n,
    decreases n,
{
    let s = dec_digits(n);
    if n < 10 {
        assert(s.drop_last() =~= Seq::<u8>::empty());
        assert(dec_value(s.drop_last()) == 0);
        assert(s.last() == (48 + n) as u8);
        assert(is_digit(s[0]));
    } else {
        lemma_dec_digits(n / 10);
        assert(s.drop_last() =~= dec_digits(n / 10));
        vstd::arithmetic::div_mod::lemma_fundamental_div_mod(n as int, 10);
        assert(s.last() == (48 + n % 10) as u8);
        assert(dec_value(s) == dec_value(dec_digits(n / 10)) * 10 + n % 10);
        assert forall|i: int| 0 <= i < s.len() implies is_digit(#[trigger] s[i]) by {
            if i < s.len() - 1 {
                assert(s[i] == dec_digits(n / 10)[i]);
            }
        }
    }
}

/// Hexadecimal digits read back as the value they were written from, modulo
/// what `k` digits hold.
proof fn lemma_hex_digits(v: nat, k: nat)
    ensures
        hex_digits(v, k).len() == k,
        forall|i: int| 0 <= i < k ==> (#[trigger] hex_digit(hex_digits(v, k)[i])) is Some,
        hex_value(hex_digits(v, k)) == v % pow16(k),
    decreases k,
{
    if k > 0 {
        let s = hex_digits(v, k);
        let p = hex_digits(v / 16, (k - 1) as nat);
        lemma_hex_digits(v / 16, (k - 1) as nat);
        assert(s.drop_last() =~= p);
        assert(hex_digit(hex_char(v % 16)) == Some(v % 16));
        assert forall|i: int| 0 <= i < k implies (#[trigger] hex_digit(s[i])) is Some by {
            if i < k - 1 {
                assert(s[i] == p[i]);
            }
        }
        lemma_hex_max((k - 1) as nat);
        vstd::arithmetic::div_mod::lemma_mod_breakdown(v as int, 16, pow16((k - 1) as nat) as int);
        assert(pow16(k) == 16 * pow16((k - 1) as nat));
    } else {
        assert(v % 1 == 0);
    }
}

/// A state hash's word reads back as the hash.
proof fn lemma_hash_text(h: u32)
    ensures
        hash_of(hash_text(h)) == Some(h),
        free_of(hash_text(h), 32u8),
        free_of(hash_text(h), 10u8),
{
    let w = hash_text(h);
    lemma_hex_digits(h as nat, 8);
    assert(w.subrange(1, 9) =~= hex_digits(h as nat, 8));
    assert forall|i: int| 1 <= i < 9 implies (#[trigger] hex_digit(w[i])) is Some by {
        assert(w[i] == hex_digits(h as nat, 8)[i - 1]);
    }
    reveal_with_fuel(pow16, 9);
    assert(pow16(8) == 0x1_0000_0000);
    assert forall|i: int| 0 <= i < w.len() implies #[trigger] w[i] != 32u8 && w[i] != 10u8 by {
        if i > 0 {
            assert(w[i] == hex_digits(h as nat, 8)[i - 1]);
            assert(hex_digit(w[i]) is Some);
        }
    }
}

/// Decimal digits hold no space and no line break.
proof fn lemma_dec_free(n: nat)
    ensures
        free_of(dec_digits(n), 32u8),
        free_of(dec_digits(n), 10u8),
{
    lemma_dec_digits(n);
    assert forall|i: int| 0 <= i < dec_digits(n).len() implies #[trigger] dec_digits(n)[i] != 32u8 && dec_digits(
        n,
    )[i] != 10u8 by {
        assert(is_digit(dec_digits(n)[i]));
    }
}

/// A coordinate's text reads back as the coordinate.
proof fn lemma_coord_text(c: i32)
    ensures
        coord_of(coord_text(c)) == Some(c),
        free_of(coord_text(c), 32u8),
        free_of(coord_text(c), 10u8),
{
    let w = coord_text(c);
    if c < 0 {
        let n = (0 - c) as nat;
        lemma_dec_digits(n);
        lemma_dec_free(n);
        assert(w.skip(1) =~= dec_digits(n));
        assert forall|i: int| 0 <= i < w.len() implies #[trigger] w[i] != 32u8 && w[i] != 10u8 by {
            if i > 0 {
                assert(w[i] == dec_digits(n)[i - 1]);
            }
        }
    } else {
        lemma_dec_digits(c as nat);
        lemma_dec_free(c as nat);
        assert(is_digit(w[0]));
    }
}

/// Splitting a text at `sep` and joining the pieces back is the identity,
/// seen from the split side: the pieces of a join are the joined words.
proof fn lemma_pieces_append(s: Seq<u8>, w: Seq<u8>, sep: u8)
    requires
        free_of(w, sep),
    ensures
        pieces(s.push(sep) + w, sep) == pieces(s, sep).push(((s.len() + 1) as int, (s.len() + 1 + w.len()) as int)),
    decreases w.len(),
{
    if w.len() == 0 {
        assert(s.push(sep) + w =~= s.push(sep));
        assert(s.push(sep).drop_last() =~= s);
    } else {
        let w0 = w.drop_last();
        lemma_pieces_append(s, w0, sep);
        assert((s.push(sep) + w).drop_last() =~= s.push(sep) + w0);
        assert((s.push(sep) + w).last() == w.last());
    }
}

/// The pieces of a text without separators: the whole text.
proof fn lemma_pieces_single(w: Seq<u8>, sep: u8)
    requires
        free_of(w, sep),
    ensures
        pieces(w, sep) == seq![(0int, w.len() as int)],
    decreases w.len(),
{
    if w.len() > 0 {
        lemma_pieces_single(w.drop_last(), sep);
    }
}

/// Appending a separator and a word without separators adds that word to
/// the split.
proof fn lemma_split_extend(s: Seq<u8>, w: Seq<u8>, sep: u8)
    requires
        free_of(w, sep),
    ensures
        split(s.push(sep) + w, sep) == split(s, sep).push(w),
{
    let t = s.push(sep) + w;
    lemma_pieces_append(s, w, sep);
    lemma_pieces_in_range(s, sep);
    let ps = pieces(s, sep);
    assert forall|k: int| 0 <= k < ps.len() + 1 implies #[trigger] split(t, sep)[k] == split(s, sep).push(w)[k] by {
        if k < ps.len() {
            assert(t.subrange(ps[k].0, ps[k].1) =~= s.subrange(ps[k].0, ps[k].1));
        } else {
            assert(t.subrange((s.len() + 1) as int, (s.len() + 1 + w.len()) as int) =~= w);
        }
    }
    assert(split(t, sep) =~= split(s, sep).push(w));
}

/// Words without separators, joined, split back into the same words.
proof fn lemma_split_join(ws: Seq<Seq<u8>>, sep: u8)
    requires
        ws.len() >= 1,
        forall|k: int| 0 <= k < ws.len() ==> free_of(#[trigger] ws[k], sep),
    ensures
        split(join(ws, sep), sep) == ws,
    decreases ws.len(),
{
    if ws.len() == 1 {
        lemma_pieces_single(ws[0], sep);
        assert(ws[0].subrange(0, ws[0].len() as int) =~= ws[0]);
        assert(split(join(ws, sep), sep) =~= ws);
    } else {
        let front = ws.drop_last();
        lemma_split_join(front, sep);
        assert(free_of(ws.last(), sep));
        lemma_split_extend(join(front, sep), ws.last(), sep);
        assert(front.push(ws.last()) =~= ws);
    }
}

/// Words free of a byte, joined by a separator other than it, are free of it.
proof fn lemma_join_free(ws: Seq<Seq<u8>>, sep: u8, c: u8)
    requires
        sep != c,
        forall|k: int| 0 <= k < ws.len() ==> free_of(#[trigger] ws[k], c),
    ensures
        free_of(join(ws, sep), c),
    decreases ws.len(),
{
    if ws.len() > 1 {
        let front = ws.drop_last();
        lemma_join_free(front, sep, c);
        let s = join(front, sep);
        let t = join(ws, sep);
        assert(free_of(ws.last(), c));
        assert forall|i: int| 0 <= i < t.len() implies #[trigger] t[i] != c by {
            if i < s.len() {
                assert(t[i] == s[i]);
            } else if i > s.len() {
                assert(t[i] == ws.last()[i - s.len() - 1]);
            }
        }
    } else if ws.len() == 1 {
        assert(free_of(ws[0], c));
    }
}

/// The words of a valid entry hold no space and no line break.
proof fn lemma_entry_words_free(e: Entry)
    requires
        entry_valid(e),
    ensures
        forall|k: int| 0 <= k < entry_words(e).len() ==> free_of(#[trigger] entry_words(e)[k], 32u8) && free_of(
            entry_words(e)[k],
            10u8,
        ),
{
    let ws = entry_words(e);
    lemma_dec_free(e.at@ as nat);
    lemma_hash_text(e.hash);
    match e.input {
        Input::Touch(t) => {
            lemma_coord_text(t.point.x);
            lemma_coord_text(t.point.y);
            let p = phase_text(t.phase);
            assert(free_of(p, 32u8) && free_of(p, 10u8));
        },
        Input::Key(k) => {
            let kt = key_text(k);
            assert(free_of(kt, 32u8) && free_of(kt, 10u8));
            assert(free_of(key_word(), 32u8) && free_of(key_word(), 10u8));
        },
    }
}

/// A valid entry's line reads back as the entry, and holds no line break.
pub proof fn lemma_entry_text_reads_back(e: Entry)
    requires
        entry_valid(e),
    ensures
        entry_of(entry_text(e)) == Some(e),
        free_of(entry_text(e), 10u8),
{
    let ws = entry_words(e);
    lemma_entry_words_free(e);
    lemma_split_join(ws, 32u8);
    lemma_join_free(ws, 32u8, 10u8);
    lemma_dec_digits(e.at@ as nat);
    lemma_hash_text(e.hash);
    assert(crate::time::at(e.at@) == e.at);
    match e.input {
        Input::Touch(t) => {
            lemma_coord_text(t.point.x);
            lemma_coord_text(t.point.y);
            assert(phase_of(phase_text(t.phase)) == Some(t.phase));
            assert(t == Touch { phase: t.phase, point: Point { x: t.point.x, y: t.point.y } });
        },
        Input::Key(k) => {
            match k {
                Key::Digit(d) => {
                    assert(digit(d@) == d);
                    assert(key_of(key_text(k)) == Some(k));
                },
                _ => {
                    assert(key_of(key_text(k)) == Some(k));
                },
            }
        },
    }
}

/// The lines of valid entries read back as the entries.
proof fn lemma_entry_lines_read_back(es: Seq<Entry>)
    requires
        forall|i: int| 0 <= i < es.len() ==> entry_valid(#[trigger] es[i]),
    ensures
        entries_of(es.map_values(|e: Entry| entry_text(e))) == Some(es),
    decreases es.len(),
{
    let ls = es.map_values(|e: Entry| entry_text(e));
    if es.len() > 0 {
        let front = es.drop_last();
        assert(ls.drop_last() =~= front.map_values(|e: Entry| entry_text(e)));
        assert forall|i: int| 0 <= i < front.len() implies entry_valid(#[trigger] front[i]) by {
            assert(front[i] == es[i]);
        }
        lemma_entry_lines_read_back(front);
        let last = es.last();
        assert(entry_valid(es[es.len() - 1]));
        lemma_entry_text_reads_back(last);
        lemma_dec_digits(last.at@ as nat);
        assert(entry_text(last).len() > 0) by {
            let ws = entry_words(last);
            lemma_entry_words_free(last);
            lemma_split_join(ws, 32u8);
            if entry_text(last).len() == 0 {
                assert(split(entry_text(last), 32u8) == seq![Seq::<u8>::empty()]) by {
                    assert(entry_text(last) =~= Seq::<u8>::empty());
                }
            }
        }
        assert(ls.last() == entry_text(last));
        assert(front.push(last) =~= es);
    } else {
        assert(ls =~= Seq::<Seq<u8>>::empty());
    }
}

/// A recording written as text reads back as the same seed and entries:
/// parsing undoes writing.
pub proof fn lemma_recording_text_reads_back(seed: u64, entries: Seq<Entry>)
    requires
        forall|i: int| 0 <= i < entries.len() ==> entry_valid(#[trigger] entries[i]),
    ensures
        parse_spec(recording_text(seed, entries)) == Some((seed, entries)),
{
    let name = seq![119u8, 97u8, 100u8, 101u8, 45u8, 101u8, 118u8, 101u8, 110u8, 116u8, 115u8];
    let seed_word = seq![115u8, 101u8, 101u8, 100u8];
    let header_words = seq![name, seq![49u8]];
    let seed_words = seq![seed_word, dec_digits(seed as nat)];
    let texts = entries.map_values(|e: Entry| entry_text(e));
    let ls = recording_lines(seed, entries).push(seq![]);
    lemma_dec_digits(seed as nat);
    lemma_dec_free(seed as nat);
    // The header and the seed line, word by word.
    assert(free_of(name, 32u8) && free_of(seq![49u8], 32u8) && free_of(seed_word, 32u8));
    assert(header_words.drop_last() =~= seq![name]);
    assert(seed_words.drop_last() =~= seq![seed_word]);
    assert(join(seq![name], 32u8) == name);
    assert(join(seq![seed_word], 32u8) == seed_word);
    assert(header_words.last() == seq![49u8]);
    assert(seed_words.last() == dec_digits(seed as nat));
    assert(join(header_words, 32u8) == name.push(32u8) + seq![49u8]);
    assert(join(seed_words, 32u8) == seed_word.push(32u8) + dec_digits(seed as nat));
    assert(ls[0] == seq![119u8, 97u8, 100u8, 101u8, 45u8, 101u8, 118u8, 101u8, 110u8, 116u8, 115u8, 32u8, 49u8]);
    assert(ls[1] == seq![115u8, 101u8, 101u8, 100u8, 32u8] + dec_digits(seed as nat));
    assert(join(header_words, 32u8) =~= ls[0]);
    assert(join(seed_words, 32u8) =~= ls[1]);
    lemma_split_join(header_words, 32u8);
    lemma_split_join(seed_words, 32u8);
    assert(seq![49u8].drop_last() =~= Seq::<u8>::empty());
    assert(words(ls[0]) == header_words);
    assert(dec_value(Seq::<u8>::empty()) == 0);
    assert(seq![49u8].last() == 49u8);
    assert(dec_value(seq![49u8]) == 1);
    assert(dec_ok(seq![49u8], VERSION as int));
    assert(header_ok(ls[0]));
    assert(seed_of(ls[1]) == Some(seed));
    // Every line is free of line breaks, so the lines split back.
    assert forall|k: int| 0 <= k < ls.len() implies free_of(#[trigger] ls[k], 10u8) by {
        if k == 0 {
            assert(free_of(ls[0], 10u8));
        } else if k == 1 {
            assert forall|i: int| 0 <= i < ls[1].len() implies #[trigger] ls[1][i] != 10u8 by {
                if i >= 5 {
                    assert(ls[1][i] == dec_digits(seed as nat)[i - 5]);
                }
            }
        } else if k < ls.len() - 1 {
            assert(ls[k] == entry_text(entries[k - 2]));
            assert(entry_valid(entries[k - 2]));
            lemma_entry_text_reads_back(entries[k - 2]);
        }
    }
    lemma_split_join(ls, 10u8);
    // The entries, then the empty line the final line break leaves.
    lemma_entry_lines_read_back(entries);
    assert(ls.subrange(2, ls.len() as int) =~= texts.push(seq![]));
    assert(texts.push(seq![]).drop_last() =~= texts);
}

/// Append the decimal digits of `n`.
fn write_decimal(out: &mut Vec<u8>, n: u64)
    ensures
        final(out)@ == old(out)@ + dec_digits(n as nat),
    decreases n,
{
    if n >= 10 {
        write_decimal(out, n / 10);
    }
    out.push(48 + (n % 10) as u8);
    proof {
        if n >= 10 {
            assert(old(out)@ + dec_digits((n / 10) as nat).push((48 + n % 10) as u8) =~= (old(out)@ + dec_digits(
                (n / 10) as nat,
            )).push((48 + n % 10) as u8));
        } else {
            assert(old(out)@.push((48 + n % 10) as u8) =~= old(out)@ + dec_digits(n as nat));
        }
    }
}

/// Append the last `k` hexadecimal digits of `v`, zero-padded, lowercase.
fn write_hex(out: &mut Vec<u8>, v: u32, k: u32)
    ensures
        final(out)@ == old(out)@ + hex_digits(v as nat, k as nat),
    decreases k,
{
    if k == 0 {
        assert(old(out)@ + hex_digits(v as nat, 0) =~= old(out)@);
        return;
    }
    write_hex(out, v / 16, k - 1);
    let d = (v % 16) as u8;
    out.push(if d < 10 {
        48 + d
    } else {
        87 + d
    });
    proof {
        assert(old(out)@ + hex_digits(v as nat, k as nat) =~= (old(out)@ + hex_digits(
            (v / 16) as nat,
            (k - 1) as nat,
        )).push(hex_char(v as nat % 16)));
    }
}

/// Append `bytes`.
fn write_bytes(out: &mut Vec<u8>, bytes: &[u8])
    ensures
        final(out)@ == old(out)@ + bytes@,
{
    let mut i: usize = 0;
    while i < bytes.len()
        invariant
            i <= bytes@.len(),
            out@ == old(out)@ + bytes@.take(i as int),
        decreases bytes@.len() - i,
    {
        out.push(bytes[i]);
        i = i + 1;
        proof {
            assert(old(out)@ + bytes@.take(i as int) =~= (old(out)@ + bytes@.take(i - 1)).push(bytes@[i - 1]));
        }
    }
    proof {
        assert(bytes@.take(bytes@.len() as int) =~= bytes@);
    }
}

/// Append a coordinate's text.
fn write_coord(out: &mut Vec<u8>, c: i32)
    ensures
        final(out)@ == old(out)@ + coord_text(c),
{
    if c < 0 {
        out.push(45);
        write_decimal(out, (0 - c as i64) as u64);
        proof {
            assert(old(out)@ + coord_text(c) =~= old(out)@.push(45u8) + dec_digits((0 - c) as nat));
        }
    } else {
        write_decimal(out, c as u64);
    }
}

impl Entry {
    /// The entry's line in the recording format, without the line break.
    pub fn text(&self) -> (t: Vec<u8>)
        ensures
            t@ == entry_text(*self),
            entry_of(t@) == Some(*self),
    {
        let mut out: Vec<u8> = Vec::new();
        write_decimal(&mut out, self.at.as_millis());
        let ghost w0 = out@;
        out.push(32);
        match self.input {
            Input::Touch(t) => {
                let phase: &[u8] = match t.phase {
                    TouchPhase::Down => &[100u8, 111u8, 119u8, 110u8],
                    TouchPhase::Move => &[109u8, 111u8, 118u8, 101u8],
                    TouchPhase::Up => &[117u8, 112u8],
                };
                write_bytes(&mut out, phase);
                proof {
                    assert(phase@ =~= phase_text(t.phase));
                }
                let ghost w1 = out@;
                out.push(32);
                write_coord(&mut out, t.point.x);
                let ghost w2 = out@;
                out.push(32);
                write_coord(&mut out, t.point.y);
                let ghost w3 = out@;
                out.push(32);
                out.push(35);
                write_hex(&mut out, self.hash, 8);
                proof {
                    let ws = entry_words(*self);
                    assert(ws.drop_last().drop_last().drop_last().drop_last() =~= seq![ws[0]]);
                    assert(join(seq![ws[0]], 32u8) == ws[0]);
                    assert(join(ws.drop_last().drop_last().drop_last(), 32u8) =~= w1);
                    assert(join(ws.drop_last().drop_last(), 32u8) =~= w2);
                    assert(join(ws.drop_last(), 32u8) =~= w3);
                    assert(join(ws, 32u8) =~= out@);
                }
            },
            Input::Key(key) => {
                write_bytes(&mut out, &[107u8, 101u8, 121u8]);
                let ghost w1 = out@;
                out.push(32);
                match key {
                    Key::Digit(d) => {
                        let n = d.get();
                        out.push(48 + n);
                    },
                    Key::Z => out.push(122),
                    Key::P => out.push(112),
                }
                let ghost w2 = out@;
                out.push(32);
                out.push(35);
                write_hex(&mut out, self.hash, 8);
                proof {
                    let ws = entry_words(*self);
                    assert(ws.drop_last().drop_last().drop_last() =~= seq![ws[0]]);
                    assert(join(seq![ws[0]], 32u8) == ws[0]);
                    assert(join(ws.drop_last().drop_last(), 32u8) =~= w1);
                    assert(join(ws.drop_last(), 32u8) =~= w2);
                    assert(join(ws, 32u8) =~= out@);
                }
            },
        }
        proof {
            let e = *self;
            if let Input::Key(Key::Digit(d)) = e.input {
                assert(d@ <= 9);
            }
            lemma_entry_text_reads_back(e);
        }
        out
    }
}

impl Recording {
    /// The recording in the `wade-events` format: the header, the seed, and a
    /// line per entry, each line ending in a line break. Parsing the text
    /// gives this recording back.
    pub fn text(&self) -> (t: Vec<u8>)
        ensures
            t@ == recording_text(self.seed, self.entries@),
            parse_spec(t@) == Some((self.seed, self.entries@)),
    {
        let mut out: Vec<u8> = Vec::new();
        write_bytes(&mut out, &[119u8, 97u8, 100u8, 101u8, 45u8, 101u8, 118u8, 101u8, 110u8, 116u8, 115u8, 32u8, 49u8]);
        out.push(10);
        write_bytes(&mut out, &[115u8, 101u8, 101u8, 100u8, 32u8]);
        write_decimal(&mut out, self.seed);
        let ghost head = recording_lines(self.seed, Seq::<Entry>::empty());
        proof {
            assert(head.drop_last() =~= seq![head[0]]);
            assert(join(seq![head[0]], 10u8) == head[0]);
            assert(join(head, 10u8) =~= out@);
        }
        let mut i: usize = 0;
        while i < self.entries.len()
            invariant
                i <= self.entries@.len(),
                out@ == join(recording_lines(self.seed, self.entries@.take(i as int)), 10u8),
                forall|j: int| 0 <= j < i ==> entry_valid(#[trigger] self.entries@[j]),
            decreases self.entries@.len() - i,
        {
            let e = self.entries[i];
            out.push(10);
            let line = e.text();
            write_bytes(&mut out, line.as_slice());
            proof {
                let before = recording_lines(self.seed, self.entries@.take(i as int));
                let after = recording_lines(self.seed, self.entries@.take(i + 1));
                assert(self.entries@.take(i + 1) =~= self.entries@.take(i as int).push(e));
                assert(after.drop_last() =~= before);
                assert(after.last() == entry_text(e));
                assert(join(after, 10u8) =~= out@);
                if let Input::Key(Key::Digit(d)) = e.input {
                    assert(entry_of(entry_text(e)) == Some(e));
                    assert(key_of(key_text(Key::Digit(d))) is Some);
                }
            }
            i = i + 1;
        }
        out.push(10);
        proof {
            assert(self.entries@.take(i as int) =~= self.entries@);
            let ls = recording_lines(self.seed, self.entries@);
            assert(ls.push(seq![]).drop_last() =~= ls);
            assert(join(ls.push(seq![]), 10u8) =~= out@);
            lemma_recording_text_reads_back(self.seed, self.entries@);
        }
        out
    }
}
} // verus!
