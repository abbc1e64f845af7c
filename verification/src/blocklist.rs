//! The blocked-domain set and the text format it is loaded from.
//!
//! The source format is newline-separated domains: blank lines and lines
//! starting with `#` are ignored, surrounding ASCII whitespace is trimmed,
//! and every entry is normalized to fully-qualified trailing-dot form.

use vstd::prelude::*;
use crate::domain::{entry_blocks, entry_blocks_name};

verus! {

/// Is any entry of the list a blocker of `name`?
pub open spec fn blocked_by(name: Seq<u8>, entries: Seq<Seq<u8>>) -> bool {
    exists|i: int| 0 <= i < entries.len() && entry_blocks(name, entries[i])
}

/// Law: a name is blocked exactly when some entry of the list equals it, or
/// the name ends with `"."` followed by that entry. No precedence rules:
/// any matching entry blocks, independent of how many others also match.
pub proof fn lemma_blocked_characterization(name: Seq<u8>, entries: Seq<Seq<u8>>)
    ensures
        blocked_by(name, entries) <==> exists|i: int|
            0 <= i < entries.len() && (name == entries[i] || (name.len() > entries[i].len()
                && name.subrange(name.len() - entries[i].len(), name.len() as int) == entries[i]
                && name[name.len() - entries[i].len() - 1] == ('.' as u8))),
{
    assert forall|i: int| 0 <= i < entries.len() implies (entry_blocks(name, entries[i]) <==> (name
        == entries[i] || (name.len() > entries[i].len() && name.subrange(
        name.len() - entries[i].len(),
        name.len() as int,
    ) == entries[i] && name[name.len() - entries[i].len() - 1] == ('.' as u8)))) by {
    }
}

/// ASCII whitespace, as trimmed from the ends of a blocklist line.
pub open spec fn is_ws(b: u8) -> bool {
    b == 32 || b == 9 || b == 10 || b == 12 || b == 13
}

/// Index of the first non-whitespace byte at or after `i`, or `s.len()`.
pub open spec fn skip_ws(s: Seq<u8>, i: int) -> int
    decreases s.len() - i when 0 <= i <= s.len()
{
    if i < s.len() && is_ws(s[i]) {
        skip_ws(s, i + 1)
    } else {
        i
    }
}

/// Index just past the last non-whitespace byte at or before `i`, or 0.
pub open spec fn skip_ws_back(s: Seq<u8>, i: int) -> int
    decreases i when 0 <= i <= s.len()
{
    if i > 0 && is_ws(s[i - 1]) {
        skip_ws_back(s, i - 1)
    } else {
        i
    }
}

/// The line with ASCII whitespace removed from both ends.
pub open spec fn trimmed(s: Seq<u8>) -> Seq<u8> {
    if skip_ws(s, 0) == s.len() {
        Seq::empty()
    } else {
        s.subrange(skip_ws(s, 0), skip_ws_back(s, s.len() as int))
    }
}

/// What one source line contributes: nothing for blank or `#` lines, else
/// the trimmed entry with a trailing dot appended when missing.
pub open spec fn normalize_line(line: Seq<u8>) -> Option<Seq<u8>> {
    let t = trimmed(line);
    if t.len() == 0 {
        Option::None
    } else if t[0] == ('#' as u8) {
        Option::None
    } else if t[t.len() - 1] == ('.' as u8) {
        Option::Some(t)
    } else {
        Option::Some(t.push('.' as u8))
    }
}

/// Index of the first newline at or after `pos`, or `s.len()`.
pub open spec fn find_nl_from(s: Seq<u8>, pos: int) -> int
    decreases s.len() - pos when 0 <= pos <= s.len()
{
    if pos < s.len() {
        if s[pos] == 10u8 {
            pos
        } else {
            find_nl_from(s, pos + 1)
        }
    } else {
        pos
    }
}

pub proof fn lemma_find_nl_bounds(s: Seq<u8>, pos: int)
    requires
        0 <= pos <= s.len(),
    ensures
        pos <= find_nl_from(s, pos) <= s.len(),
    decreases s.len() - pos,
{
    if pos < s.len() && s[pos] != 10u8 {
        lemma_find_nl_bounds(s, pos + 1);
    }
}

/// The entries contributed by the lines of `s` from `pos` on.
pub open spec fn parse_from(s: Seq<u8>, pos: int) -> Seq<Seq<u8>>
    decreases s.len() - pos when 0 <= pos <= s.len()
    via parse_from_decreases
{
    if pos >= s.len() {
        Seq::empty()
    } else {
        let e = find_nl_from(s, pos);
        let rest = if e < s.len() {
            parse_from(s, e + 1)
        } else {
            Seq::empty()
        };
        match normalize_line(s.subrange(pos, e)) {
            Option::None => rest,
            Option::Some(x) => seq![x] + rest,
        }
    }
}

#[via_fn]
proof fn parse_from_decreases(s: Seq<u8>, pos: int) {
    if 0 <= pos <= s.len() {
        lemma_find_nl_bounds(s, pos);
    }
}

/// The whole blocklist text, parsed.
pub open spec fn parsed_entries(s: Seq<u8>) -> Seq<Seq<u8>> {
    parse_from(s, 0)
}

proof fn lemma_find_nl_at(s: Seq<u8>, pos: int, e: int)
    requires
        0 <= pos <= e <= s.len(),
        forall|k: int| pos <= k < e ==> s[k] != 10u8,
        e < s.len() ==> s[e] == 10u8,
    ensures
        find_nl_from(s, pos) == e,
    decreases e - pos,
{
    if pos < e {
        lemma_find_nl_at(s, pos + 1, e);
    }
}

proof fn lemma_skip_ws_at(s: Seq<u8>, i: int, lo: int)
    requires
        0 <= i <= lo <= s.len(),
        forall|k: int| i <= k < lo ==> is_ws(s[k]),
        lo < s.len() ==> !is_ws(s[lo]),
    ensures
        skip_ws(s, i) == lo,
    decreases lo - i,
{
    if i < lo {
        lemma_skip_ws_at(s, i + 1, lo);
    }
}

proof fn lemma_skip_ws_back_at(s: Seq<u8>, i: int, hi: int)
    requires
        0 <= hi <= i <= s.len(),
        forall|k: int| hi <= k < i ==> is_ws(s[k]),
        hi > 0 ==> !is_ws(s[hi - 1]),
    ensures
        skip_ws_back(s, i) == hi,
    decreases i - hi,
{
    if hi < i {
        lemma_skip_ws_back_at(s, i - 1, hi);
    }
}

fn is_ws_byte(b: u8) -> (r: bool)
    ensures
        r == is_ws(b),
{
    b == 32 || b == 9 || b == 10 || b == 12 || b == 13
}

/// Copy `text[a..b]` into an owned buffer.
fn copy_range(text: &[u8], a: usize, b: usize) -> (r: Vec<u8>)
    requires
        a <= b <= text@.len(),
    ensures
        r@ == text@.subrange(a as int, b as int),
{
    let mut out: Vec<u8> = Vec::new();
    let mut i: usize = a;
    while i < b
        invariant
            a <= i <= b <= text@.len(),
            out@ =~= text@.subrange(a as int, i as int),
        decreases b - i,
    {
        out.push(text[i]);
        assert(out@ =~= text@.subrange(a as int, i + 1));
        i += 1;
    }
    out
}

/// An immutable set of blocked domain suffixes, each in fully-qualified
/// trailing-dot form. Duplicate entries are harmless: any matching entry
/// blocks, independent of the others.
pub struct BlockedDomainSet {
    entries: Vec<Vec<u8>>,
}

impl View for BlockedDomainSet {
    type V = Seq<Seq<u8>>;

    closed spec fn view(&self) -> Seq<Seq<u8>> {
        self.entries.deep_view()
    }
}

impl BlockedDomainSet {
    /// Build the set from already-normalized entries.
    pub fn new(entries: Vec<Vec<u8>>) -> (r: BlockedDomainSet)
        ensures
            r@ == entries.deep_view(),
    {
        BlockedDomainSet { entries }
    }

    /// How many entries the set holds.
    pub fn len(&self) -> (r: usize)
        ensures
            r == self@.len(),
    {
        self.entries.len()
    }

    /// Scan the whole set: is `name` blocked by some entry?
    pub fn matches(&self, name: &[u8]) -> (r: bool)
        ensures
            r == blocked_by(name@, self@),
    {
        let mut i: usize = 0;
        while i < self.entries.len()
            invariant
                i <= self.entries.len(),
                self@.len() == self.entries@.len(),
                forall|j: int| 0 <= j < i ==> !entry_blocks(name@, self@[j]),
            decreases self.entries.len() - i,
        {
            assert(self@[i as int] == self.entries@[i as int].deep_view());
            assert(self.entries@[i as int].deep_view() =~= self.entries@[i as int]@);
            if entry_blocks_name(name, self.entries[i].as_slice()) {
                return true;
            }
            i += 1;
        }
        false
    }

    /// Parse blocklist source text into the set.
    pub fn parse(text: &[u8]) -> (r: BlockedDomainSet)
        ensures
            r@ == parsed_entries(text@),
    {
        let n: usize = text.len();
        let mut entries: Vec<Vec<u8>> = Vec::new();
        let mut pos: usize = 0;
        while pos < n
            invariant
                pos <= n,
                n == text@.len(),
                entries.deep_view() + parse_from(text@, pos as int) =~= parse_from(text@, 0),
            decreases n - pos,
        {
            let ghost s = text@;
            let ghost entries_before = entries.deep_view();
            // Find the end of the current line.
            let mut e: usize = pos;
            while e < n && text[e] != 10u8
                invariant
                    pos <= e <= n,
                    n == text@.len(),
                    forall|k: int| pos <= k < e ==> text@[k] != 10u8,
                decreases n - e,
            {
                e += 1;
            }
            proof {
                lemma_find_nl_at(s, pos as int, e as int);
            }
            // Trim ASCII whitespace inside [pos, e).
            let mut lo: usize = pos;
            while lo < e && is_ws_byte(text[lo])
                invariant
                    pos <= lo <= e <= n,
                    n == text@.len(),
                    forall|k: int| pos <= k < lo ==> is_ws(text@[k]),
                decreases e - lo,
            {
                lo += 1;
            }
            let mut hi: usize = e;
            while hi > lo && is_ws_byte(text[hi - 1])
                invariant
                    lo <= hi <= e <= n,
                    n == text@.len(),
                    forall|k: int| hi <= k < e ==> is_ws(text@[k]),
                decreases hi,
            {
                hi -= 1;
            }
            let ghost line = s.subrange(pos as int, e as int);
            proof {
                if lo == e {
                    // The whole line is whitespace.
                    assert(forall|k: int| 0 <= k < line.len() ==> is_ws(line[k]));
                    lemma_skip_ws_at(line, 0, line.len() as int);
                    assert(trimmed(line) =~= Seq::<u8>::empty());
                } else {
                    assert(!is_ws(line[lo - pos]));
                    lemma_skip_ws_at(line, 0, lo - pos);
                    assert(hi > lo);
                    assert(hi - 1 >= lo);
                    assert(!is_ws(line[hi - 1 - pos]));
                    lemma_skip_ws_back_at(line, line.len() as int, hi - pos);
                    assert(trimmed(line) =~= s.subrange(lo as int, hi as int));
                }
            }
            if lo < e && text[lo] != ('#' as u8) {
                let mut entry = copy_range(text, lo, hi);
                assert(entry@ == trimmed(line));
                assert(entry@.len() > 0);
                if entry[entry.len() - 1] != ('.' as u8) {
                    entry.push('.' as u8);
                    assert(entry@ =~= trimmed(line).push('.' as u8));
                }
                proof {
                    assert(normalize_line(line) == Option::Some(entry@));
                }
                entries.push(entry);
                proof {
                    assert(entries.deep_view() =~~= entries_before + seq![entry@]);
                }
            } else {
                proof {
                    if lo == e {
                        assert(normalize_line(line) == Option::<Seq<u8>>::None);
                    } else {
                        assert(trimmed(line)[0] == ('#' as u8));
                        assert(normalize_line(line) == Option::<Seq<u8>>::None);
                    }
                }
            }
            proof {
                // One unfolding of parse_from at `pos`.
                lemma_find_nl_bounds(s, pos as int);
                match normalize_line(line) {
                    Option::None => {
                        assert(entries.deep_view() =~= entries_before);
                    },
                    Option::Some(x) => {
                        assert(entries.deep_view() =~= entries_before + seq![x]);
                    },
                }
            }
            pos = if e < n {
                e + 1
            } else {
                n
            };
            proof {
                assert(entries.deep_view() + parse_from(s, pos as int) =~= parse_from(s, 0));
            }
        }
        assert(entries.deep_view() =~= parse_from(text@, 0));
        BlockedDomainSet { entries }
    }
}

} // verus!
