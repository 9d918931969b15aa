//! Persisted player settings: the best score and the mute flag. Natively
//! they are kept as `key=value` lines in a small text file; on the web as
//! two storage values. This module owns both formats; reading and writing
//! the storage itself is the shells' business (through [`SettingsStore`]).

use vstd::prelude::*;
use crate::text::{
    chars_of, decimal, decimal_chars, empty_string, find_char, find_from, lemma_find_from_at,
    lemma_find_from_bounds, lemma_parse_decimal, lemma_decimal, lemma_trim_noop, parse_u32, parse_u32_at, all_digits, is_digit, push_char, push_chars, push_slice, slice_eq,
    trim, trim_bounds, decimal_string,
};

verus! {

#[derive(Clone, Copy, Debug, PartialEq, Eq, Structural)]
pub struct Settings {
    pub best_score: u32,
    pub muted: bool,
}

impl Default for Settings {
    fn default() -> (s: Settings)
        ensures
            s == default_settings(),
    {
        Settings { best_score: 0, muted: false }
    }
}

/// No best score yet, sound on.
pub open spec fn default_settings() -> Settings {
    Settings { best_score: 0, muted: false }
}

/// `best_score`
pub open spec fn best_score_key() -> Seq<char> {
    seq!['b', 'e', 's', 't', '_', 's', 'c', 'o', 'r', 'e']
}

/// `muted`
pub open spec fn muted_key() -> Seq<char> {
    seq!['m', 'u', 't', 'e', 'd']
}

/// One line of the settings text applied to `s`: `key=value`, both sides
/// trimmed; `best_score` takes an unsigned number (anything else counts as
/// 0), `muted` is on exactly when its value is `1`; other lines are ignored.
pub open spec fn apply_line(s: Settings, line: Seq<char>) -> Settings {
    let p = find_from(line, '=', 0);
    if p >= line.len() {
        s
    } else {
        let k = trim(line.subrange(0, p));
        let v = trim(line.subrange(p + 1, line.len() as int));
        if k == best_score_key() {
            Settings {
                best_score: match parse_u32(v) {
                    Some(n) => n,
                    None => 0,
                },
                ..s
            }
        } else if k == muted_key() {
            Settings { muted: v == seq!['1'], ..s }
        } else {
            s
        }
    }
}

/// The line of `t` that starts at `i` (`str::lines`: it ends before the
/// next `\n`, and a `\r` just before that `\n` is dropped too).
pub open spec fn line_at(t: Seq<char>, i: int) -> Seq<char> {
    let n = find_from(t, '\n', i);
    let raw = t.subrange(i, n);
    if n < t.len() && raw.len() > 0 && raw.last() == '\r' {
        raw.drop_last()
    } else {
        raw
    }
}

/// The lines of `t` from position `i` on, applied in order to `s`.
pub open spec fn apply_lines_from(s: Settings, t: Seq<char>, i: int) -> Settings
    decreases t.len() - i,
{
    if i < 0 || i >= t.len() {
        s
    } else {
        let n = find_from(t, '\n', i);
        let s2 = apply_line(s, line_at(t, i));
        if n < t.len() {
            proof {
                lemma_find_from_bounds(t, '\n', i);
            }
            apply_lines_from(s2, t, n + 1)
        } else {
            s2
        }
    }
}

/// What a settings text reads as: the defaults, updated line by line.
pub open spec fn settings_from_text(t: Seq<char>) -> Settings {
    apply_lines_from(default_settings(), t, 0)
}

/// The settings text: `best_score=<n>` and `muted=<0|1>`, one per line.
pub open spec fn settings_text(s: Settings) -> Seq<char> {
    best_score_key() + seq!['='] + decimal(s.best_score as nat) + seq!['\n'] + muted_key()
        + seq!['='] + (if s.muted {
        seq!['1']
    } else {
        seq!['0']
    }) + seq!['\n']
}

/// Apply the line `chars[a..b]` to `s`.
fn apply_line_exec(chars: &Vec<char>, a: usize, b: usize, s: Settings) -> (r: Settings)
    requires
        a <= b <= chars.len(),
    ensures
        r == apply_line(s, chars@.subrange(a as int, b as int)),
{
    let ghost line = chars@.subrange(a as int, b as int);
    let p = find_char(chars, '=', a, b);
    if p >= b {
        return s;
    }
    let (ka, kb) = trim_bounds(chars, a, p);
    let (va, vb) = trim_bounds(chars, p + 1, b);
    proof {
        assert(chars@.subrange(a as int, p as int) =~= line.subrange(0, p - a));
        assert(chars@.subrange(p + 1, b as int) =~= line.subrange(p - a + 1, line.len() as int));
    }
    let best_key: [char; 10] = ['b', 'e', 's', 't', '_', 's', 'c', 'o', 'r', 'e'];
    let muted_key_chars: [char; 5] = ['m', 'u', 't', 'e', 'd'];
    let one: [char; 1] = ['1'];
    assert(best_key@ =~= best_score_key());
    assert(muted_key_chars@ =~= muted_key());
    assert(one@ =~= seq!['1']);
    if slice_eq(chars, ka, kb, &best_key) {
        let n = match parse_u32_at(chars, va, vb) {
            Some(n) => n,
            None => 0,
        };
        Settings { best_score: n, ..s }
    } else if slice_eq(chars, ka, kb, &muted_key_chars) {
        Settings { muted: slice_eq(chars, va, vb, &one), ..s }
    } else {
        s
    }
}

impl Settings {
    /// Serialize as `key=value` lines (the native file format).
    pub fn to_text(&self) -> (t: String)
        ensures
            t@ == settings_text(*self),
    {
        let mut t = empty_string();
        let best_key: [char; 11] = ['b', 'e', 's', 't', '_', 's', 'c', 'o', 'r', 'e', '='];
        let muted_key_chars: [char; 7] = ['\n', 'm', 'u', 't', 'e', 'd', '='];
        push_slice(&mut t, &best_key);
        push_chars(&mut t, &decimal_chars(self.best_score));
        push_slice(&mut t, &muted_key_chars);
        push_char(&mut t, if self.muted { '1' } else { '0' });
        push_char(&mut t, '\n');
        assert(best_key@ =~= best_score_key() + seq!['=']);
        assert(muted_key_chars@ =~= seq!['\n'] + muted_key() + seq!['=']);
        assert(t@ =~= settings_text(*self));
        t
    }

    /// Parse `key=value` lines; unknown keys are ignored, bad values default.
    pub fn from_text(text: &str) -> (s: Settings)
        ensures
            s == settings_from_text(text@),
    {
        let chars = chars_of(text);
        let len = chars.len();
        let mut s = Settings { best_score: 0, muted: false };
        let mut i: usize = 0;
        assert(chars@.subrange(0, len as int) =~= chars@);
        while i < len
            invariant
                len == chars.len(),
                chars@ == text@,
                i <= len,
                settings_from_text(text@) == apply_lines_from(s, text@, i as int),
            decreases len - i,
        {
            let n = find_char(&chars, '\n', i, len);
            proof {
                let t = chars@;
                lemma_find_from_bounds(t, '\n', i as int);
                lemma_find_from_bounds(t.subrange(i as int, len as int), '\n', 0);
                let j = find_from(t.subrange(i as int, len as int), '\n', 0) + i;
                assert forall|k: int| i <= k < j implies t[k] != '\n' by {
                    assert(t[k] == t.subrange(i as int, len as int)[k - i]);
                }
                if j < len {
                    assert(t[j] == t.subrange(i as int, len as int)[j - i]);
                }
                lemma_find_from_at(t, '\n', i as int, j);
            }
            let mut e = n;
            if n < len && e > i && chars[e - 1] == '\r' {
                e = e - 1;
                proof {
                    assert(chars@.subrange(i as int, n as int).drop_last() =~= chars@.subrange(
                        i as int,
                        e as int,
                    ));
                }
            }
            s = apply_line_exec(&chars, i, e, s);
            if n < len {
                i = n + 1;
            } else {
                i = len;
            }
        }
        s
    }
}


/// A line of the text starts at `i`.
pub open spec fn line_start(t: Seq<char>, i: int) -> bool {
    0 <= i < t.len() && (i == 0 || t[i - 1] == '\n')
}

/// The trimmed key of a `key=value` line (none without a `=`).
pub open spec fn line_key(line: Seq<char>) -> Option<Seq<char>> {
    let p = find_from(line, '=', 0);
    if p >= line.len() {
        None
    } else {
        Some(trim(line.subrange(0, p)))
    }
}

/// The trimmed value of a `key=value` line.
pub open spec fn line_value(line: Seq<char>) -> Seq<char> {
    trim(line.subrange(find_from(line, '=', 0) + 1, line.len() as int))
}

/// A line that sets the best score.
pub open spec fn best_line(line: Seq<char>) -> bool {
    line_key(line) == Some(best_score_key())
}

/// A line that sets the mute flag.
pub open spec fn muted_line(line: Seq<char>) -> bool {
    line_key(line) == Some(muted_key())
}

/// The best score a line sets: its value as a number, or 0.
pub open spec fn best_value(line: Seq<char>) -> u32 {
    match parse_u32(line_value(line)) {
        Some(n) => n,
        None => 0,
    }
}

/// The mute flag a line sets: on exactly for the value `1`.
pub open spec fn muted_value(line: Seq<char>) -> bool {
    line_value(line) == seq!['1']
}

proof fn lemma_apply_line_fields(s: Settings, line: Seq<char>)
    ensures
        best_line(line) ==> apply_line(s, line).best_score == best_value(line)
            && apply_line(s, line).muted == s.muted,
        muted_line(line) ==> apply_line(s, line).muted == muted_value(line)
            && apply_line(s, line).best_score == s.best_score,
        !best_line(line) ==> apply_line(s, line).best_score == s.best_score,
        !muted_line(line) ==> apply_line(s, line).muted == s.muted,
{
    assert(best_score_key().len() != muted_key().len());
}

/// From a line start `i` on, no line starts before the next newline.
proof fn lemma_next_line(t: Seq<char>, i: int)
    requires
        0 <= i < t.len(),
    ensures
        i <= find_from(t, '\n', i) <= t.len(),
        find_from(t, '\n', i) < t.len() ==> t[find_from(t, '\n', i)] == '\n',
        forall|j: int| i < j <= find_from(t, '\n', i) ==> !#[trigger] line_start(t, j),
{
    lemma_find_from_bounds(t, '\n', i);
    let n = find_from(t, '\n', i);
    assert forall|j: int| i < j <= n implies !#[trigger] line_start(t, j) by {
        if j < t.len() {
            assert(t[j - 1] != '\n');
        }
    }
}

proof fn lemma_best_from(s: Settings, t: Seq<char>, i: int)
    requires
        0 <= i <= t.len(),
        i == 0 || t[i - 1] == '\n',
    ensures
        (forall|j: int| i <= j && #[trigger] line_start(t, j) ==> !best_line(line_at(t, j)))
            ==> apply_lines_from(s, t, i).best_score == s.best_score,
        forall|k: int|
            i <= k && #[trigger] line_start(t, k) && best_line(line_at(t, k)) && (forall|j: int|
                k < j && #[trigger] line_start(t, j) ==> !best_line(line_at(t, j)))
                ==> apply_lines_from(s, t, i).best_score == best_value(line_at(t, k)),
    decreases t.len() - i,
{
    if i < t.len() {
        lemma_next_line(t, i);
        let n = find_from(t, '\n', i);
        let s2 = apply_line(s, line_at(t, i));
        lemma_apply_line_fields(s, line_at(t, i));
        assert(line_start(t, i));
        if n < t.len() {
            lemma_best_from(s2, t, n + 1);
            assert(apply_lines_from(s, t, i) == apply_lines_from(s2, t, n + 1));
            assert forall|k: int|
                i <= k && #[trigger] line_start(t, k) && best_line(line_at(t, k)) && (forall|j: int|
                    k < j && #[trigger] line_start(t, j) ==> !best_line(line_at(t, j)))
                    implies apply_lines_from(s, t, i).best_score == best_value(line_at(t, k)) by {
                if k == i {
                    assert forall|j: int| n + 1 <= j && #[trigger] line_start(t, j) implies !best_line(
                        line_at(t, j),
                    ) by {
                        assert(i < j);
                    }
                } else {
                    assert(k > n);
                }
            }
        } else {
            assert(apply_lines_from(s, t, i) == s2);
            assert forall|k: int| i <= k && #[trigger] line_start(t, k) implies k == i by {
                if k > i {
                    assert(!line_start(t, k));
                }
            }
        }
    }
}

proof fn lemma_muted_from(s: Settings, t: Seq<char>, i: int)
    requires
        0 <= i <= t.len(),
        i == 0 || t[i - 1] == '\n',
    ensures
        (forall|j: int| i <= j && #[trigger] line_start(t, j) ==> !muted_line(line_at(t, j)))
            ==> apply_lines_from(s, t, i).muted == s.muted,
        forall|k: int|
            i <= k && #[trigger] line_start(t, k) && muted_line(line_at(t, k)) && (forall|j: int|
                k < j && #[trigger] line_start(t, j) ==> !muted_line(line_at(t, j)))
                ==> apply_lines_from(s, t, i).muted == muted_value(line_at(t, k)),
    decreases t.len() - i,
{
    if i < t.len() {
        lemma_next_line(t, i);
        let n = find_from(t, '\n', i);
        let s2 = apply_line(s, line_at(t, i));
        lemma_apply_line_fields(s, line_at(t, i));
        assert(line_start(t, i));
        if n < t.len() {
            lemma_muted_from(s2, t, n + 1);
            assert(apply_lines_from(s, t, i) == apply_lines_from(s2, t, n + 1));
            assert forall|k: int|
                i <= k && #[trigger] line_start(t, k) && muted_line(line_at(t, k)) && (forall|j: int|
                    k < j && #[trigger] line_start(t, j) ==> !muted_line(line_at(t, j)))
                    implies apply_lines_from(s, t, i).muted == muted_value(line_at(t, k)) by {
                if k == i {
                    assert forall|j: int| n + 1 <= j && #[trigger] line_start(t, j) implies !muted_line(
                        line_at(t, j),
                    ) by {
                        assert(i < j);
                    }
                } else {
                    assert(k > n);
                }
            }
        } else {
            assert(apply_lines_from(s, t, i) == s2);
            assert forall|k: int| i <= k && #[trigger] line_start(t, k) implies k == i by {
                if k > i {
                    assert(!line_start(t, k));
                }
            }
        }
    }
}

/// Reading a settings text, the last `best_score` line and the last `muted`
/// line decide; every other line is ignored, and a setting no line sets
/// keeps its default (best score 0, sound on).
pub proof fn lemma_settings_last_line_wins(t: Seq<char>)
    ensures
        forall|k: int|
            #[trigger] line_start(t, k) && best_line(line_at(t, k)) && (forall|j: int|
                k < j && #[trigger] line_start(t, j) ==> !best_line(line_at(t, j)))
                ==> settings_from_text(t).best_score == best_value(line_at(t, k)),
        (forall|j: int| #[trigger] line_start(t, j) ==> !best_line(line_at(t, j)))
            ==> settings_from_text(t).best_score == 0,
        forall|k: int|
            #[trigger] line_start(t, k) && muted_line(line_at(t, k)) && (forall|j: int|
                k < j && #[trigger] line_start(t, j) ==> !muted_line(line_at(t, j)))
                ==> settings_from_text(t).muted == muted_value(line_at(t, k)),
        (forall|j: int| #[trigger] line_start(t, j) ==> !muted_line(line_at(t, j)))
            ==> !settings_from_text(t).muted,
{
    lemma_best_from(default_settings(), t, 0);
    lemma_muted_from(default_settings(), t, 0);
}

/// Reading back what `to_text` wrote gives the same settings.
pub proof fn lemma_settings_text_round_trip(s: Settings)
    ensures
        settings_from_text(settings_text(s)) == s,
{
    let d = decimal(s.best_score as nat);
    lemma_decimal(s.best_score as nat);
    lemma_parse_decimal(s.best_score);
    let m = if s.muted {
        '1'
    } else {
        '0'
    };
    let l1 = best_score_key() + seq!['='] + d;
    let l2 = muted_key() + seq!['=', m];
    let t = settings_text(s);
    assert(t =~= l1 + seq!['\n'] + l2 + seq!['\n']);
    let n1 = l1.len() as int;
    // the first line
    assert forall|k: int| 0 <= k < n1 implies t[k] != '\n' by {
        assert(t[k] == l1[k]);
        if k >= 11 {
            assert(l1[k] == d[k - 11]);
            assert(is_digit(d[k - 11]));
        }
    }
    assert(t[n1] == '\n');
    lemma_find_from_at(t, '\n', 0, n1);
    assert(t.subrange(0, n1) =~= l1);
    assert(l1.last() == d.last());
    assert(is_digit(d[d.len() - 1]));
    assert(line_at(t, 0) == l1);
    assert forall|k: int| 0 <= k < 10 implies l1[k] != '=' by {}
    lemma_find_from_at(l1, '=', 0, 10);
    assert(l1.subrange(0, 10) =~= best_score_key());
    lemma_trim_noop(best_score_key());
    assert(l1.subrange(11, l1.len() as int) =~= d);
    let s1 = apply_line(default_settings(), l1);
    assert(s1 == Settings { best_score: s.best_score, muted: false });
    // the second line
    let i2 = n1 + 1;
    let n2 = i2 + 7;
    assert forall|k: int| i2 <= k < n2 implies t[k] != '\n' by {
        assert(t[k] == l2[k - i2]);
    }
    assert(t[n2] == '\n');
    lemma_find_from_at(t, '\n', i2, n2);
    assert(t.subrange(i2, n2) =~= l2);
    assert(line_at(t, i2) == l2);
    assert forall|k: int| 0 <= k < 5 implies l2[k] != '=' by {}
    lemma_find_from_at(l2, '=', 0, 5);
    assert(l2.subrange(0, 5) =~= muted_key());
    lemma_trim_noop(muted_key());
    assert(l2.subrange(6, 7) =~= seq![m]);
    lemma_trim_noop(seq![m]);
    let s2 = apply_line(s1, l2);
    assert(s2 == s);
    assert(n2 + 1 == t.len());
    assert(apply_lines_from(s2, t, n2 + 1) == s2);
    assert(apply_lines_from(s1, t, i2) == s2);
    assert(apply_lines_from(default_settings(), t, 0) == apply_lines_from(s1, t, i2));
}


/// The best score as read back from its storage value: the trimmed text as
/// an unsigned number, 0 when absent or unreadable.
pub open spec fn stored_best_value(v: Option<Seq<char>>) -> u32 {
    match v {
        Some(t) => match parse_u32(trim(t)) {
            Some(n) => n,
            None => 0,
        },
        None => 0,
    }
}

/// The mute flag as read back from its storage value: on exactly when it is `1`.
pub open spec fn stored_muted_value(v: Option<Seq<char>>) -> bool {
    match v {
        Some(t) => t == seq!['1'],
        None => false,
    }
}

pub open spec fn opt_view(v: Option<&str>) -> Option<Seq<char>> {
    match v {
        Some(t) => Some(t@),
        None => None,
    }
}

impl Settings {
    /// Settings from the two web storage values (either may be missing).
    pub fn from_stored(best: Option<&str>, muted: Option<&str>) -> (s: Settings)
        ensures
            s.best_score == stored_best_value(opt_view(best)),
            s.muted == stored_muted_value(opt_view(muted)),
    {
        let best_score = match best {
            Some(b) => {
                let chars = chars_of(b);
                let (a, e) = trim_bounds(&chars, 0, chars.len());
                assert(chars@.subrange(0, chars.len() as int) =~= chars@);
                match parse_u32_at(&chars, a, e) {
                    Some(n) => n,
                    None => 0,
                }
            },
            None => 0,
        };
        let muted = match muted {
            Some(m) => {
                let chars = chars_of(m);
                let one: [char; 1] = ['1'];
                assert(one@ =~= seq!['1']);
                assert(chars@.subrange(0, chars.len() as int) =~= chars@);
                slice_eq(&chars, 0, chars.len(), &one)
            },
            None => false,
        };
        Settings { best_score, muted }
    }

    /// The web storage value of the best score: its decimal digits.
    pub fn stored_best_score(&self) -> (t: String)
        ensures
            t@ == decimal(self.best_score as nat),
    {
        decimal_string(self.best_score)
    }

    /// The web storage value of the mute flag: `1` or `0`.
    pub fn stored_muted(&self) -> (t: &'static str)
        ensures
            t@ == (if self.muted {
                seq!['1']
            } else {
                seq!['0']
            }),
    {
        proof {
            reveal_strlit("1");
            reveal_strlit("0");
        }
        if self.muted {
            "1"
        } else {
            "0"
        }
    }
}

/// Reading back the stored values gives the same settings.
pub proof fn lemma_stored_round_trip(s: Settings)
    ensures
        stored_best_value(Some(decimal(s.best_score as nat))) == s.best_score,
        stored_muted_value(Some(if s.muted {
            seq!['1']
        } else {
            seq!['0']
        })) == s.muted,
{
    lemma_parse_decimal(s.best_score);
    assert(seq!['0'][0] != seq!['1'][0]);
}

/// Where the settings live between sessions. The shells implement it: the
/// native one on a text file, the web one on the browser's storage.
pub trait SettingsStore {
    fn load(&self) -> Settings;

    fn save(&self, settings: &Settings);
}

} // verus!
