use vstd::prelude::*;

verus! {

/// The characters of `text`, in order.
pub fn chars_of(text: &str) -> (out: Vec<char>)
    ensures
        out@ == text@,
{
    let mut out: Vec<char> = Vec::new();
    for c in it: text.chars()
        invariant
            out@ == it.seq().take(it.index() as int),
    {
        out.push(c);
    }
    out
}

} // verus!

verus! {

/// `pat` occurs in `s` starting at position `i`.
pub open spec fn occurs_at(s: Seq<char>, i: int, pat: Seq<char>) -> bool {
    &&& 0 <= i
    &&& i + pat.len() <= s.len()
    &&& s.subrange(i, i + pat.len()) == pat
}

/// Every occurrence of `from` in `s` replaced by `to`, scanning left to right and
/// never letting two replaced occurrences overlap. An empty `from` leaves `s` as it is.
pub open spec fn replace_all(s: Seq<char>, from: Seq<char>, to: Seq<char>) -> Seq<char>
    decreases s.len(),
{
    if s.len() == 0 || from.len() == 0 {
        s
    } else if occurs_at(s, 0, from) {
        to + replace_all(s.subrange(from.len() as int, s.len() as int), from, to)
    } else {
        seq![s[0]] + replace_all(s.subrange(1, s.len() as int), from, to)
    }
}

/// One step of `replace_all` on the suffix of `s` that starts at `i`.
proof fn lemma_replace_all_step(s: Seq<char>, i: int, from: Seq<char>, to: Seq<char>)
    requires
        0 <= i < s.len(),
        from.len() > 0,
    ensures
        occurs_at(s, i, from) ==> replace_all(s.subrange(i, s.len() as int), from, to) == to
            + replace_all(s.subrange(i + from.len(), s.len() as int), from, to),
        !occurs_at(s, i, from) ==> replace_all(s.subrange(i, s.len() as int), from, to) == seq![
            s[i],
        ] + replace_all(s.subrange(i + 1, s.len() as int), from, to),
{
    let suf = s.subrange(i, s.len() as int);
    if occurs_at(s, i, from) {
        assert(suf.subrange(0, from.len() as int) =~= s.subrange(i, i + from.len()));
        assert(suf.subrange(from.len() as int, suf.len() as int) =~= s.subrange(
            i + from.len(),
            s.len() as int,
        ));
    } else {
        assert(suf.subrange(1, suf.len() as int) =~= s.subrange(i + 1, s.len() as int));
        if suf.len() >= from.len() {
            assert(suf.subrange(0, from.len() as int) =~= s.subrange(i, i + from.len()));
        }
    }
}

/// Whether `pat` occurs in `chars` at position `i`.
fn matches_at(chars: &Vec<char>, i: usize, pat: &Vec<char>) -> (m: bool)
    requires
        i <= chars.len(),
    ensures
        m == occurs_at(chars@, i as int, pat@),
{
    if pat.len() > chars.len() - i {
        return false;
    }
    let mut j: usize = 0;
    while j < pat.len()
        invariant
            i + pat.len() <= chars.len(),
            j <= pat.len(),
            forall|k: int| 0 <= k < j ==> chars@[i + k] == pat@[k],
        decreases pat.len() - j,
    {
        if chars[i + j] != pat[j] {
            assert(chars@.subrange(i as int, i + pat.len())[j as int] != pat@[j as int]);
            return false;
        }
        j += 1;
    }
    assert(chars@.subrange(i as int, i + pat.len()) =~= pat@);
    true
}

/// `text` with every occurrence of `from` replaced by `to`, as `str::replace` does for a
/// non-empty pattern.
pub fn replace_text(text: &str, from: &str, to: &str) -> (out: String)
    requires
        from@.len() > 0,
    ensures
        out@ == replace_all(text@, from@, to@),
{
    let chars = chars_of(text);
    let pat = chars_of(from);
    let n = chars.len();
    let mut out = String::from_str("");
    proof {
        reveal_strlit("");
        assert(chars@.subrange(0, n as int) =~= chars@);
    }
    let mut start: usize = 0;
    let mut i: usize = 0;
    while i < n
        invariant
            n == chars.len(),
            chars@ == text@,
            pat@ == from@,
            pat@.len() > 0,
            start <= i <= n,
            out@ + chars@.subrange(start as int, i as int) + replace_all(
                chars@.subrange(i as int, n as int),
                pat@,
                to@,
            ) == replace_all(chars@, pat@, to@),
        decreases n - i,
    {
        proof {
            lemma_replace_all_step(chars@, i as int, pat@, to@);
        }
        if matches_at(&chars, i, &pat) {
            let seg = text.substring_char(start, i);
            out.append(seg);
            out.append(to);
            i = i + pat.len();
            start = i;
            assert(chars@.subrange(start as int, i as int) =~= Seq::<char>::empty());
        } else {
            assert(chars@.subrange(start as int, i + 1) =~= chars@.subrange(start as int, i as int)
                + seq![chars@[i as int]]);
            i = i + 1;
        }
    }
    let seg = text.substring_char(start, n);
    out.append(seg);
    proof {
        assert(chars@.subrange(n as int, n as int) =~= Seq::<char>::empty());
        assert(out@ =~= replace_all(chars@, pat@, to@));
    }
    out
}

} // verus!

verus! {

/// The text of an equation SVG recoloured for the current theme: in dark mode the
/// `currentColor` keyword and the empty `color: ;` declaration become a light grey,
/// in light mode `currentColor` becomes a dark grey.
pub open spec fn tinted_svg(svg: Seq<char>, dark: bool) -> Seq<char> {
    if dark {
        replace_all(
            replace_all(svg, "currentColor"@, "#c8c8d2"@),
            "color: ;"@,
            "color: #c8c8d2;"@,
        )
    } else {
        replace_all(svg, "currentColor"@, "#28282f"@)
    }
}

/// Recolours the SVG text of a rendered equation for the dark or the light theme.
pub fn tint_equation_svg(svg: &str, dark: bool) -> (out: String)
    ensures
        out@ == tinted_svg(svg@, dark),
{
    proof {
        reveal_strlit("currentColor");
        reveal_strlit("color: ;");
    }
    if dark {
        let grey = replace_text(svg, "currentColor", "#c8c8d2");
        replace_text(grey.as_str(), "color: ;", "color: #c8c8d2;")
    } else {
        replace_text(svg, "currentColor", "#28282f")
    }
}

/// `s` without the run of characters `c` at its end.
pub open spec fn trim_end_char(s: Seq<char>, c: char) -> Seq<char>
    decreases s.len(),
{
    if s.len() > 0 && s.last() == c {
        trim_end_char(s.drop_last(), c)
    } else {
        s
    }
}

/// A fixed-point number text without insignificant trailing zeros and without a
/// trailing decimal point: first every trailing `'0'` goes, then every trailing `'.'`.
pub open spec fn trimmed_number(s: Seq<char>) -> Seq<char> {
    trim_end_char(trim_end_char(s, '0'), '.')
}

/// The length of `trim_end_char(chars.take(end), c)`, found by scanning backwards.
fn trim_end_len(chars: &Vec<char>, end: usize, c: char) -> (len: usize)
    requires
        end <= chars.len(),
    ensures
        len <= end,
        chars@.take(len as int) == trim_end_char(chars@.take(end as int), c),
{
    let mut k = end;
    while k > 0 && chars[k - 1] == c
        invariant
            k <= end <= chars.len(),
            trim_end_char(chars@.take(k as int), c) == trim_end_char(chars@.take(end as int), c),
        decreases k,
    {
        assert(chars@.take(k as int).drop_last() =~= chars@.take(k - 1));
        k = k - 1;
    }
    k
}

/// Trims a number printed with a fixed count of decimals, as in `0.0100` → `0.01`
/// and `1.0000` → `1`.
pub fn trim_number_text(text: &str) -> (out: String)
    ensures
        out@ == trimmed_number(text@),
{
    let chars = chars_of(text);
    let n = chars.len();
    assert(chars@.take(n as int) =~= chars@);
    let k = trim_end_len(&chars, n, '0');
    let m = trim_end_len(&chars, k, '.');
    let kept = text.substring_char(0, m);
    assert(kept@ =~= chars@.take(m as int));
    String::from_str(kept)
}

} // verus!

verus! {

/// Trimming one character keeps a prefix, removes only that character, and leaves
/// an end without it.
proof fn lemma_trim_end_char(s: Seq<char>, c: char)
    ensures
        trim_end_char(s, c).len() <= s.len(),
        trim_end_char(s, c) == s.take(trim_end_char(s, c).len() as int),
        forall|i: int| trim_end_char(s, c).len() <= i < s.len() ==> s[i] == c,
        trim_end_char(s, c).len() == 0 || trim_end_char(s, c).last() != c,
    decreases s.len(),
{
    if s.len() > 0 && s.last() == c {
        lemma_trim_end_char(s.drop_last(), c);
        let t = trim_end_char(s.drop_last(), c);
        assert(s.drop_last().take(t.len() as int) =~= s.take(t.len() as int));
        assert forall|i: int| t.len() <= i < s.len() implies s[i] == c by {
            if i < s.len() - 1 {
                assert(s.drop_last()[i] == s[i]);
            }
        }
    } else {
        assert(s.take(s.len() as int) =~= s);
    }
}

/// Trimming a number keeps a prefix of the text and removes only zeros and decimal
/// points from its end; what is left does not end in a decimal point.
pub proof fn lemma_trimmed_number_is_prefix(s: Seq<char>)
    ensures
        trimmed_number(s).len() <= s.len(),
        trimmed_number(s) == s.take(trimmed_number(s).len() as int),
        forall|i: int|
            trimmed_number(s).len() <= i < s.len() ==> s[i] == '0' || s[i] == '.',
        trimmed_number(s).len() == 0 || trimmed_number(s).last() != '.',
{
    let z = trim_end_char(s, '0');
    lemma_trim_end_char(s, '0');
    lemma_trim_end_char(z, '.');
    let t = trim_end_char(z, '.');
    assert(z.take(t.len() as int) =~= s.take(t.len() as int));
    assert forall|i: int| t.len() <= i < s.len() implies s[i] == '0' || s[i] == '.' by {
        if i < z.len() {
            assert(z[i] == s[i]);
        }
    }
}

/// Text in which `from` never occurs comes out of a replacement unchanged.
pub proof fn lemma_replace_all_without_match(s: Seq<char>, from: Seq<char>, to: Seq<char>)
    requires
        forall|i: int| 0 <= i < s.len() ==> !occurs_at(s, i, from),
    ensures
        replace_all(s, from, to) == s,
    decreases s.len(),
{
    if s.len() > 0 && from.len() > 0 {
        let rest = s.subrange(1, s.len() as int);
        assert(!occurs_at(s, 0, from));
        assert forall|i: int| 0 <= i < rest.len() implies !occurs_at(rest, i, from) by {
            assert(!occurs_at(s, i + 1, from));
            if i + from.len() <= rest.len() {
                assert(rest.subrange(i, i + from.len()) =~= s.subrange(i + 1, i + 1 + from.len()));
            }
        }
        lemma_replace_all_without_match(rest, from, to);
        assert(seq![s[0]] + rest =~= s);
    }
}

} // verus!
