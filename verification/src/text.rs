//! Text primitives on character sequences: search, replacement, trimming
//! and decimal formatting, each with an exact specification over `Seq<char>`.
use vstd::prelude::*;

verus! {

broadcast use vstd::string::group_string_axioms;

/// `String::push` appends one character.
pub assume_specification[ String::push ](s: &mut String, ch: char)
    ensures
        final(s)@ == old(s)@.push(ch),
;

/// `pat` occurs in `s` starting at index `i`.
pub open spec fn occurs_at(s: Seq<char>, pat: Seq<char>, i: int) -> bool {
    &&& 0 <= i
    &&& i + pat.len() <= s.len()
    &&& s.subrange(i, i + pat.len()) == pat
}

/// `pat` occurs somewhere in `s` (the empty pattern occurs in every text).
pub open spec fn contains_text(s: Seq<char>, pat: Seq<char>) -> bool {
    exists|i: int| occurs_at(s, pat, i)
}

/// `s` begins with `prefix`.
pub open spec fn starts_with_text(s: Seq<char>, prefix: Seq<char>) -> bool {
    occurs_at(s, prefix, 0)
}

/// The text with `to` written before every character of `s` and once at its end,
/// which is what replacing the empty pattern does.
pub open spec fn interleave(s: Seq<char>, to: Seq<char>) -> Seq<char>
    decreases s.len(),
{
    if s.len() == 0 {
        to
    } else {
        to + seq![s[0]] + interleave(s.drop_first(), to)
    }
}

/// Every occurrence of `from` in `s` replaced by `to`, the occurrences taken from
/// left to right without overlap.
pub open spec fn replace_all(s: Seq<char>, from: Seq<char>, to: Seq<char>) -> Seq<char>
    decreases s.len(),
{
    if from.len() == 0 {
        interleave(s, to)
    } else if s.len() == 0 {
        s
    } else if starts_with_text(s, from) {
        to + replace_all(s.subrange(from.len() as int, s.len() as int), from, to)
    } else {
        seq![s[0]] + replace_all(s.drop_first(), from, to)
    }
}

/// The characters of `s`, in order.
pub fn chars_of(s: &str) -> (v: Vec<char>)
    ensures
        v@ == s@,
{
    let mut v: Vec<char> = Vec::new();
    for c in it: s.chars()
        invariant
            v@ == it.seq().take(it.index()),
            it.seq() == s@,
    {
        v.push(c);
    }
    v
}

/// Whether `pat` occurs in `s` at index `i`.
pub fn occurs_at_exec(s: &Vec<char>, pat: &Vec<char>, i: usize) -> (r: bool)
    ensures
        r == occurs_at(s@, pat@, i as int),
{
    if i > s.len() || pat.len() > s.len() - i {
        return false;
    }
    let mut j: usize = 0;
    while j < pat.len()
        invariant
            i + pat.len() <= s.len(),
            j <= pat.len(),
            forall|k: int| 0 <= k < j ==> s@[i + k] == pat@[k],
        decreases pat.len() - j,
    {
        if s[i + j] != pat[j] {
            assert(s@.subrange(i as int, i + pat.len())[j as int] != pat@[j as int]);
            return false;
        }
        j = j + 1;
    }
    assert(s@.subrange(i as int, i + pat.len()) =~= pat@);
    true
}

/// Whether `pat` occurs in `s`.
pub fn contains_chars(s: &Vec<char>, pat: &Vec<char>) -> (r: bool)
    ensures
        r == contains_text(s@, pat@),
{
    if pat.len() > s.len() {
        assert forall|i: int| !occurs_at(s@, pat@, i) by {}
        return false;
    }
    let last = s.len() - pat.len();
    let mut i: usize = 0;
    loop
        invariant
            last == s.len() - pat.len(),
            i <= last,
            forall|k: int| 0 <= k < i ==> !occurs_at(s@, pat@, k),
        ensures
            forall|k: int| 0 <= k <= last ==> !occurs_at(s@, pat@, k),
        decreases last - i,
    {
        if occurs_at_exec(s, pat, i) {
            return true;
        }
        if i == last {
            break;
        }
        i = i + 1;
    }
    assert forall|k: int| !occurs_at(s@, pat@, k) by {
        if 0 <= k <= last {
        }
    }
    false
}

/// Whether `pat` occurs in `s` (as `str::contains`).
pub fn contains(s: &str, pat: &str) -> (r: bool)
    ensures
        r == contains_text(s@, pat@),
{
    let sv = chars_of(s);
    let pv = chars_of(pat);
    contains_chars(&sv, &pv)
}

/// Whether `s` begins with `prefix` (as `str::starts_with`).
pub fn starts_with(s: &str, prefix: &str) -> (r: bool)
    ensures
        r == starts_with_text(s@, prefix@),
{
    let sv = chars_of(s);
    let pv = chars_of(prefix);
    occurs_at_exec(&sv, &pv, 0)
}

/// `s` with every occurrence of `from` replaced by `to` (as `str::replace`).
pub fn replace(s: &str, from: &str, to: &str) -> (r: String)
    ensures
        r@ == replace_all(s@, from@, to@),
{
    let sv = chars_of(s);
    let fv = chars_of(from);
    let mut out = String::new();
    let mut i: usize = 0;
    assert(sv@.skip(0) =~= sv@);
    assert(out@ + sv@ =~= sv@);
    if fv.len() == 0 {
        assert(out@ + interleave(sv@, to@) =~= interleave(sv@, to@));
        while i < sv.len()
            invariant
                fv@.len() == 0,
                i <= sv.len(),
                out@ + interleave(sv@.skip(i as int), to@) == interleave(sv@, to@),
            decreases sv.len() - i,
        {
            assert(sv@.skip(i as int).drop_first() =~= sv@.skip(i + 1));
            out.append(to);
            out.push(sv[i]);
            assert(out@ + interleave(sv@.skip(i + 1), to@) =~= interleave(sv@, to@));
            i = i + 1;
        }
        assert(sv@.skip(i as int).len() == 0);
        out.append(to);
        assert(out@ =~= interleave(sv@, to@));
        return out;
    }
    assert(out@ + replace_all(sv@, fv@, to@) =~= replace_all(sv@, fv@, to@));
    while i < sv.len()
        invariant
            fv@.len() > 0,
            i <= sv.len(),
            out@ + replace_all(sv@.skip(i as int), fv@, to@) == replace_all(sv@, fv@, to@),
        decreases sv.len() - i,
    {
        let ghost t = sv@.skip(i as int);
        if occurs_at_exec(&sv, &fv, i) {
            assert(t.subrange(0, fv@.len() as int) =~= sv@.subrange(i as int, i + fv@.len()));
            assert(t.subrange(fv@.len() as int, t.len() as int) =~= sv@.skip(i + fv@.len()));
            out.append(to);
            assert(out@ + replace_all(sv@.skip(i + fv@.len()), fv@, to@) =~= replace_all(sv@, fv@, to@));
            i = i + fv.len();
        } else {
            assert(!starts_with_text(t, fv@)) by {
                if starts_with_text(t, fv@) {
                    assert(t.subrange(0, fv@.len() as int) =~= sv@.subrange(i as int, i + fv@.len()));
                }
            }
            assert(t.drop_first() =~= sv@.skip(i + 1));
            out.push(sv[i]);
            assert(out@ + replace_all(sv@.skip(i + 1), fv@, to@) =~= replace_all(sv@, fv@, to@));
            i = i + 1;
        }
    }
    assert(out@ =~= replace_all(sv@, fv@, to@));
    out
}

/// No proper non-empty prefix of `b` is also a suffix of `b`.
pub open spec fn unbordered(b: Seq<char>) -> bool {
    forall|m: int| 0 < m < b.len() ==> #[trigger] b.take(m) != b.skip(b.len() - m)
}

/// A text without `pat` has no `pat` in any of its suffixes.
pub proof fn lemma_absent_in_suffix(s: Seq<char>, pat: Seq<char>, i: int)
    requires
        0 <= i <= s.len(),
        !contains_text(s, pat),
    ensures
        !contains_text(s.skip(i), pat),
{
    assert forall|j: int| !occurs_at(s.skip(i), pat, j) by {
        if occurs_at(s.skip(i), pat, j) {
            assert(s.skip(i).subrange(j, j + pat.len()) =~= s.subrange(i + j, i + j + pat.len()));
            assert(occurs_at(s, pat, i + j));
        }
    }
}

/// Replacing a non-empty pattern that does not occur changes nothing.
pub proof fn lemma_replace_absent(s: Seq<char>, from: Seq<char>, to: Seq<char>)
    requires
        from.len() > 0,
        !contains_text(s, from),
    ensures
        replace_all(s, from, to) == s,
    decreases s.len(),
{
    if s.len() > 0 {
        assert(!occurs_at(s, from, 0));
        lemma_absent_in_suffix(s, from, 1);
        assert(s.skip(1) =~= s.drop_first());
        lemma_replace_absent(s.drop_first(), from, to);
        assert(seq![s[0]] + s.drop_first() =~= s);
    }
}

/// Replacement splits at the first occurrence `k` of `from`: the text before it is
/// kept, and the rest is replaced on its own; `k == s.len()` when there is none.
pub proof fn lemma_split_at_first(s: Seq<char>, from: Seq<char>, to: Seq<char>) -> (k: int)
    requires
        from.len() > 0,
    ensures
        0 <= k <= s.len(),
        forall|j: int| 0 <= j < k ==> !occurs_at(s, from, j),
        occurs_at(s, from, k) ==> replace_all(s, from, to) == s.take(k) + to + replace_all(
            s.skip(k + from.len()),
            from,
            to,
        ),
        !occurs_at(s, from, k) ==> k == s.len() && !contains_text(s, from) && replace_all(
            s,
            from,
            to,
        ) == s,
    decreases s.len(),
{
    if s.len() == 0 {
        assert forall|j: int| !occurs_at(s, from, j) by {}
        0
    } else if starts_with_text(s, from) {
        assert(s.take(0) + to + replace_all(s.skip(from.len() as int), from, to) =~= to
            + replace_all(s.subrange(from.len() as int, s.len() as int), from, to));
        0
    } else {
        let t = s.drop_first();
        let k1 = lemma_split_at_first(t, from, to);
        assert forall|j: int| 0 <= j < k1 + 1 implies !occurs_at(s, from, j) by {
            if j > 0 && occurs_at(s, from, j) {
                assert(s.subrange(j, j + from.len()) =~= t.subrange(j - 1, j - 1 + from.len()));
                assert(occurs_at(t, from, j - 1));
            }
        }
        if occurs_at(t, from, k1) {
            assert(t.subrange(k1, k1 + from.len()) =~= s.subrange(k1 + 1, k1 + 1 + from.len()));
            assert(t.skip(k1 + from.len()) =~= s.skip(k1 + 1 + from.len()));
            assert(seq![s[0]] + t.take(k1) =~= s.take(k1 + 1));
            assert(seq![s[0]] + (t.take(k1) + to + replace_all(t.skip(k1 + from.len()), from, to))
                =~= s.take(k1 + 1) + to + replace_all(s.skip(k1 + 1 + from.len()), from, to));
        } else {
            assert forall|j: int| !occurs_at(s, from, j) by {
                if j > 0 && occurs_at(s, from, j) {
                    assert(s.subrange(j, j + from.len()) =~= t.subrange(j - 1, j - 1 + from.len()));
                    assert(occurs_at(t, from, j - 1));
                }
            }
            assert(seq![s[0]] + t =~= s);
        }
        k1 + 1
    }
}

/// Undoing a replacement gives the text back: replacing `to` by `from` in the result of
/// replacing `from` by `to` restores `s`, when `s` holds no `to` and `to` has no border
/// (so every `to` in the result is one that the first replacement wrote).
pub proof fn lemma_replace_round_trip(s: Seq<char>, from: Seq<char>, to: Seq<char>)
    requires
        from.len() > 0,
        to.len() > 0,
        unbordered(to),
        !contains_text(s, to),
    ensures
        replace_all(replace_all(s, from, to), to, from) == s,
    decreases s.len(),
{
    if s.len() == 0 {
    } else if starts_with_text(s, from) {
        let rest = s.subrange(from.len() as int, s.len() as int);
        lemma_absent_in_suffix(s, to, from.len() as int);
        assert(rest =~= s.skip(from.len() as int));
        lemma_replace_round_trip(rest, from, to);
        let y = to + replace_all(rest, from, to);
        assert(y.subrange(0, to.len() as int) =~= to);
        assert(y.subrange(to.len() as int, y.len() as int) =~= replace_all(rest, from, to));
        assert(s.subrange(0, from.len() as int) =~= from);
        assert(from + rest =~= s);
    } else {
        let t = s.drop_first();
        lemma_absent_in_suffix(s, to, 1);
        assert(t =~= s.skip(1));
        lemma_replace_round_trip(t, from, to);
        let y = seq![s[0]] + replace_all(t, from, to);
        assert(replace_all(s, from, to) == y);
        let k = lemma_split_at_first(t, from, to);
        assert(!starts_with_text(y, to)) by {
            if starts_with_text(y, to) {
                if occurs_at(t, from, k) {
                    let x = replace_all(t.skip(k + from.len()), from, to);
                    assert(y =~= s.take(k + 1) + to + x);
                    if k + 1 >= to.len() {
                        assert(s.subrange(0, to.len() as int) =~= y.subrange(0, to.len() as int));
                        assert(occurs_at(s, to, 0));
                    } else {
                        let m = to.len() - (k + 1);
                        assert(to.take(m) =~= to.skip(to.len() - m)) by {
                            assert forall|j: int| 0 <= j < m implies to.take(m)[j] == to.skip(
                                to.len() - m,
                            )[j] by {
                                assert(y[k + 1 + j] == to[j]);
                                assert(y.subrange(0, to.len() as int)[k + 1 + j] == to[k + 1 + j]);
                            }
                        }
                    }
                } else {
                    assert(y =~= s);
                    assert(occurs_at(s, to, 0));
                }
            }
        }
        assert(y.drop_first() =~= replace_all(t, from, to));
        assert(seq![s[0]] + t =~= s);
    }
}

/// The replacement `to` was written at index `i` of `replace_all(s, from, to)`.
pub open spec fn written_at(s: Seq<char>, from: Seq<char>, to: Seq<char>, i: int) -> bool
    decreases s.len(),
{
    if from.len() == 0 || s.len() == 0 {
        false
    } else if starts_with_text(s, from) {
        i == 0 || written_at(s.subrange(from.len() as int, s.len() as int), from, to, i - to.len())
    } else {
        written_at(s.drop_first(), from, to, i - 1)
    }
}

/// Nothing is written before the start of the text.
proof fn lemma_not_written_before_start(s: Seq<char>, from: Seq<char>, to: Seq<char>, i: int)
    requires
        i < 0,
    ensures
        !written_at(s, from, to, i),
    decreases s.len(),
{
    if from.len() > 0 && s.len() > 0 {
        if starts_with_text(s, from) {
            lemma_not_written_before_start(
                s.subrange(from.len() as int, s.len() as int),
                from,
                to,
                i - to.len(),
            );
        } else {
            lemma_not_written_before_start(s.drop_first(), from, to, i - 1);
        }
    }
}

/// Undoing a replacement gives the text back when `to` occurs in the result of
/// replacing `from` by `to` only where that replacement wrote it.
pub proof fn lemma_undo_replace(s: Seq<char>, from: Seq<char>, to: Seq<char>)
    requires
        from.len() > 0,
        to.len() > 0,
        forall|i: int|
            occurs_at(replace_all(s, from, to), to, i) ==> #[trigger] written_at(s, from, to, i),
    ensures
        replace_all(replace_all(s, from, to), to, from) == s,
    decreases s.len(),
{
    let r = replace_all(s, from, to);
    if s.len() == 0 {
    } else if starts_with_text(s, from) {
        let rest = s.subrange(from.len() as int, s.len() as int);
        let rr = replace_all(rest, from, to);
        assert(r == to + rr);
        assert forall|i: int| occurs_at(rr, to, i) implies #[trigger] written_at(
            rest,
            from,
            to,
            i,
        ) by {
            assert(r.subrange(i + to.len(), i + to.len() + to.len()) =~= rr.subrange(
                i,
                i + to.len(),
            ));
            assert(occurs_at(r, to, i + to.len()));
            assert(written_at(s, from, to, i + to.len()));
        }
        lemma_undo_replace(rest, from, to);
        assert(r.subrange(0, to.len() as int) =~= to);
        assert(r.subrange(to.len() as int, r.len() as int) =~= rr);
        assert(s.subrange(0, from.len() as int) =~= from);
        assert(from + rest =~= s);
    } else {
        let t = s.drop_first();
        let rt = replace_all(t, from, to);
        assert(r == seq![s[0]] + rt);
        assert forall|i: int| occurs_at(rt, to, i) implies #[trigger] written_at(t, from, to, i) by {
            assert(r.subrange(i + 1, i + 1 + to.len()) =~= rt.subrange(i, i + to.len()));
            assert(occurs_at(r, to, i + 1));
            assert(written_at(s, from, to, i + 1));
        }
        lemma_undo_replace(t, from, to);
        assert(!starts_with_text(r, to)) by {
            if starts_with_text(r, to) {
                assert(written_at(s, from, to, 0));
                lemma_not_written_before_start(t, from, to, -1);
            }
        }
        assert(r.drop_first() =~= rt);
        assert(seq![s[0]] + t =~= s);
    }
}

/// The characters with the Unicode `White_Space` property (what `char::is_whitespace` tests).
pub open spec fn is_white_space(c: char) -> bool {
    let u = c as int;
    ||| 0x9 <= u <= 0xD
    ||| u == 0x20
    ||| u == 0x85
    ||| u == 0xA0
    ||| u == 0x1680
    ||| 0x2000 <= u <= 0x200A
    ||| u == 0x2028
    ||| u == 0x2029
    ||| u == 0x202F
    ||| u == 0x205F
    ||| u == 0x3000
}

/// `s` without its leading white space.
pub open spec fn trim_start_text(s: Seq<char>) -> Seq<char>
    decreases s.len(),
{
    if s.len() > 0 && is_white_space(s[0]) {
        trim_start_text(s.drop_first())
    } else {
        s
    }
}

/// `s` without its trailing white space.
pub open spec fn trim_end_text(s: Seq<char>) -> Seq<char>
    decreases s.len(),
{
    if s.len() > 0 && is_white_space(s.last()) {
        trim_end_text(s.drop_last())
    } else {
        s
    }
}

/// `s` without leading and trailing white space (as `str::trim`).
pub open spec fn trim_text(s: Seq<char>) -> Seq<char> {
    trim_end_text(trim_start_text(s))
}

/// `s` with `prefix` removed from its start as many times as it occurs there
/// (as `str::trim_start_matches` with a string pattern).
pub open spec fn strip_prefixes(s: Seq<char>, prefix: Seq<char>) -> Seq<char>
    decreases s.len(),
{
    if prefix.len() > 0 && starts_with_text(s, prefix) {
        strip_prefixes(s.skip(prefix.len() as int), prefix)
    } else {
        s
    }
}

/// Whether `c` has the Unicode `White_Space` property.
pub fn is_whitespace(c: char) -> (r: bool)
    ensures
        r == is_white_space(c),
{
    let u = c as u32;
    (0x9 <= u && u <= 0xD) || u == 0x20 || u == 0x85 || u == 0xA0 || u == 0x1680 || (0x2000 <= u
        && u <= 0x200A) || u == 0x2028 || u == 0x2029 || u == 0x202F || u == 0x205F || u == 0x3000
}

/// The text of `v` from index `lo` up to `hi`.
pub fn string_from_chars(v: &Vec<char>, lo: usize, hi: usize) -> (r: String)
    requires
        lo <= hi <= v.len(),
    ensures
        r@ == v@.subrange(lo as int, hi as int),
{
    let mut r = String::new();
    let mut i = lo;
    while i < hi
        invariant
            lo <= i <= hi <= v.len(),
            r@ == v@.subrange(lo as int, i as int),
        decreases hi - i,
    {
        r.push(v[i]);
        assert(r@ =~= v@.subrange(lo as int, i + 1));
        i = i + 1;
    }
    r
}

/// `s` without leading and trailing white space (as `str::trim`).
pub fn trim(s: &str) -> (r: String)
    ensures
        r@ == trim_text(s@),
{
    let v = chars_of(s);
    let mut lo: usize = 0;
    assert(v@.skip(0) =~= v@);
    while lo < v.len() && is_whitespace(v[lo])
        invariant
            lo <= v.len(),
            trim_start_text(v@) == trim_start_text(v@.skip(lo as int)),
        decreases v.len() - lo,
    {
        assert(v@.skip(lo as int).drop_first() =~= v@.skip(lo + 1));
        lo = lo + 1;
    }
    assert(trim_start_text(v@) == v@.skip(lo as int));
    let mut hi: usize = v.len();
    assert(v@.skip(lo as int) =~= v@.subrange(lo as int, hi as int));
    while hi > lo && is_whitespace(v[hi - 1])
        invariant
            lo <= hi <= v.len(),
            trim_text(v@) == trim_end_text(v@.subrange(lo as int, hi as int)),
        decreases hi,
    {
        assert(v@.subrange(lo as int, hi as int).drop_last() =~= v@.subrange(lo as int, hi - 1));
        hi = hi - 1;
    }
    string_from_chars(&v, lo, hi)
}

/// `s` with `prefix` removed from its start as often as it is there
/// (as `str::trim_start_matches` with a string pattern).
pub fn trim_start_matches(s: &str, prefix: &str) -> (r: String)
    ensures
        r@ == strip_prefixes(s@, prefix@),
{
    let v = chars_of(s);
    let p = chars_of(prefix);
    let mut i: usize = 0;
    assert(v@.skip(0) =~= v@);
    if p.len() == 0 {
        return string_from_chars(&v, 0, v.len());
    }
    while occurs_at_exec(&v, &p, i)
        invariant
            p@.len() > 0,
            i <= v.len(),
            strip_prefixes(v@, p@) == strip_prefixes(v@.skip(i as int), p@),
        decreases v.len() - i,
    {
        assert(v@.skip(i as int).subrange(0, p@.len() as int) =~= v@.subrange(i as int, i + p@.len()));
        assert(v@.skip(i as int).skip(p@.len() as int) =~= v@.skip(i + p@.len()));
        i = i + p.len();
    }
    assert(!starts_with_text(v@.skip(i as int), p@)) by {
        if starts_with_text(v@.skip(i as int), p@) {
            assert(v@.skip(i as int).subrange(0, p@.len() as int) =~= v@.subrange(
                i as int,
                i + p@.len(),
            ));
        }
    }
    string_from_chars(&v, i, v.len())
}

/// The decimal digit `d` (`0 <= d <= 9`) as a character.
pub open spec fn digit_char(d: int) -> char {
    if d == 0 {
        '0'
    } else if d == 1 {
        '1'
    } else if d == 2 {
        '2'
    } else if d == 3 {
        '3'
    } else if d == 4 {
        '4'
    } else if d == 5 {
        '5'
    } else if d == 6 {
        '6'
    } else if d == 7 {
        '7'
    } else if d == 8 {
        '8'
    } else {
        '9'
    }
}

/// The decimal digits of `n`, most significant first, without leading zeros.
pub open spec fn natural_digits(n: nat) -> Seq<char>
    decreases n,
{
    if n < 10 {
        seq![digit_char(n as int)]
    } else {
        natural_digits(n / 10).push(digit_char((n % 10) as int))
    }
}

/// `n` written in decimal, with a leading `-` when negative (as `Display` and
/// `Debug` print integers).
pub open spec fn decimal(n: int) -> Seq<char> {
    if n < 0 {
        seq!['-'] + natural_digits((-n) as nat)
    } else {
        natural_digits(n as nat)
    }
}

/// `c` is one of the decimal digits `0` to `9`.
pub open spec fn is_decimal_digit(c: char) -> bool {
    48 <= c as int <= 57
}

/// The number that the decimal digits `s` stand for, most significant first.
pub open spec fn digits_value(s: Seq<char>) -> int
    decreases s.len(),
{
    if s.len() == 0 {
        0
    } else {
        digits_value(s.drop_last()) * 10 + (s.last() as int - 48)
    }
}

/// The digit character of `d` is the character whose code is that of `0` plus `d`.
pub proof fn lemma_digit_char_code(d: int)
    requires
        0 <= d < 10,
    ensures
        digit_char(d) as int == 48 + d,
{
}

/// The digits of `n` are decimal digits that read back as `n`, and the first is `0`
/// only for `n == 0`.
proof fn lemma_natural_digits_read_back(n: nat)
    ensures
        natural_digits(n).len() > 0,
        forall|i: int| 0 <= i < natural_digits(n).len() ==> is_decimal_digit(
            #[trigger] natural_digits(n)[i],
        ),
        digits_value(natural_digits(n)) == n,
        natural_digits(n)[0] == '0' ==> n == 0,
    decreases n,
{
    if n < 10 {
        lemma_digit_char_code(n as int);
        let s = natural_digits(n);
        assert(s == seq![digit_char(n as int)]);
        assert(s.drop_last() =~= Seq::<char>::empty());
        assert(digits_value(s.drop_last()) == 0);
        assert(s.last() == digit_char(n as int));
        assert(digits_value(s) == digits_value(s.drop_last()) * 10 + (s.last() as int - 48));
    } else {
        let q = n / 10;
        let d = n % 10;
        lemma_natural_digits_read_back(q);
        lemma_digit_char_code(d as int);
        let s = natural_digits(n);
        assert(s == natural_digits(q).push(digit_char(d as int)));
        assert(s.drop_last() =~= natural_digits(q));
        assert(s.last() == digit_char(d as int));
        assert(digits_value(s) == digits_value(s.drop_last()) * 10 + (s.last() as int - 48));
        assert(n == q * 10 + d);
        assert(s[0] == natural_digits(q)[0]);
        assert forall|i: int| 0 <= i < s.len() implies is_decimal_digit(#[trigger] s[i]) by {
            if i < s.len() - 1 {
                assert(s[i] == natural_digits(q)[i]);
            }
        }
    }
}

/// `decimal(n)` is the standard base-10 text of `n`: a `-` for a negative number,
/// then decimal digits without a leading zero (but for `0` itself) that read back as
/// the number's magnitude.
pub proof fn lemma_decimal_reads_back(n: int)
    ensures
        n >= 0 ==> {
            &&& decimal(n).len() > 0
            &&& forall|i: int| 0 <= i < decimal(n).len() ==> is_decimal_digit(#[trigger] decimal(n)[i])
            &&& digits_value(decimal(n)) == n
            &&& decimal(n)[0] == '0' ==> n == 0
        },
        n < 0 ==> {
            &&& decimal(n)[0] == '-'
            &&& decimal(n).len() > 1
            &&& forall|i: int|
                1 <= i < decimal(n).len() ==> is_decimal_digit(#[trigger] decimal(n)[i])
            &&& digits_value(decimal(n).drop_first()) == -n
            &&& decimal(n)[1] != '0'
        },
{
    if n < 0 {
        let m = (-n) as nat;
        lemma_natural_digits_read_back(m);
        assert(decimal(n).drop_first() =~= natural_digits(m));
        assert forall|i: int| 1 <= i < decimal(n).len() implies is_decimal_digit(
            #[trigger] decimal(n)[i],
        ) by {
            assert(decimal(n)[i] == natural_digits(m)[i - 1]);
        }
        assert(decimal(n)[1] == natural_digits(m)[0]);
    } else {
        lemma_natural_digits_read_back(n as nat);
    }
}

fn digit_to_char(d: u64) -> (c: char)
    requires
        d < 10,
    ensures
        c == digit_char(d as int),
{
    if d == 0 {
        '0'
    } else if d == 1 {
        '1'
    } else if d == 2 {
        '2'
    } else if d == 3 {
        '3'
    } else if d == 4 {
        '4'
    } else if d == 5 {
        '5'
    } else if d == 6 {
        '6'
    } else if d == 7 {
        '7'
    } else if d == 8 {
        '8'
    } else {
        '9'
    }
}

/// `n` written in decimal (as `n.to_string()`).
pub fn decimal_string(n: i32) -> (r: String)
    ensures
        r@ == decimal(n as int),
{
    let mut out = String::new();
    let mut u: u64;
    if n < 0 {
        out.push('-');
        u = (0 - (n as i64)) as u64;
    } else {
        u = n as u64;
    }
    let ghost n0: nat = u as nat;
    let mut rev: Vec<char> = Vec::new();
    while u >= 10
        invariant
            natural_digits(n0) == natural_digits(u as nat) + rev@.reverse(),
        decreases u,
    {
        let d = u % 10;
        let c = digit_to_char(d);
        assert(natural_digits(u as nat) == natural_digits((u / 10) as nat).push(digit_char(d as int)));
        assert(rev@.push(c).reverse() =~= seq![c] + rev@.reverse());
        rev.push(c);
        u = u / 10;
    }
    out.push(digit_to_char(u));
    let ghost start = out@;
    let mut k: usize = rev.len();
    assert(rev@.reverse().subrange(0, 0) =~= Seq::<char>::empty());
    while k > 0
        invariant
            k <= rev.len(),
            out@ == start + rev@.reverse().subrange(0, rev.len() - k),
        decreases k,
    {
        k = k - 1;
        out.push(rev[k]);
        assert(rev@.reverse()[rev.len() - k - 1] == rev@[k as int]);
        assert(out@ =~= start + rev@.reverse().subrange(0, rev.len() - k));
    }
    assert(rev@.reverse().subrange(0, rev.len() as int) =~= rev@.reverse());
    assert(out@ =~= decimal(n as int));
    out
}

/// Whether `a` and `b` are the same text.
pub fn equal_text(a: &str, b: &str) -> (r: bool)
    ensures
        r == (a@ == b@),
{
    let av = chars_of(a);
    let bv = chars_of(b);
    if av.len() != bv.len() {
        return false;
    }
    let mut i: usize = 0;
    while i < av.len()
        invariant
            av@ == a@,
            bv@ == b@,
            av.len() == bv.len(),
            i <= av.len(),
            forall|k: int| 0 <= k < i ==> av@[k] == bv@[k],
        decreases av.len() - i,
    {
        if av[i] != bv[i] {
            assert(av@[i as int] != bv@[i as int]);
            return false;
        }
        i = i + 1;
    }
    assert(av@ =~= bv@);
    true
}

/// The concatenation of `a` and `b`.
pub fn concat2(a: &str, b: &str) -> (r: String)
    ensures
        r@ == a@ + b@,
{
    let mut r = a.to_string();
    r.append(b);
    r
}

/// The concatenation of `a`, `b` and `c`.
pub fn concat3(a: &str, b: &str, c: &str) -> (r: String)
    ensures
        r@ == a@ + b@ + c@,
{
    let mut r = a.to_string();
    r.append(b);
    r.append(c);
    r
}

} // verus!
