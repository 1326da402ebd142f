use vstd::prelude::*;

verus! {

/// Unicode `White_Space`: the characters that `str::trim` removes.
pub open spec fn is_white_space_spec(c: char) -> bool {
    let u = c as u32;
    ||| 0x9 <= u <= 0xD
    ||| u == 0x20
    ||| u == 0x85
    ||| u == 0xA0
    ||| u == 0x1680
    ||| 0x2000 <= u <= 0x200A
    ||| u == 0x2028
    ||| u == 0x2029
    ||| u == 0x202F
    ||| u == 0x205F
    ||| u == 0x3000
}

/// `s` without its leading white space.
pub open spec fn trim_start(s: Seq<char>) -> Seq<char>
    decreases s.len(),
{
    if s.len() > 0 && is_white_space_spec(s[0]) {
        trim_start(s.drop_first())
    } else {
        s
    }
}

/// `s` without its trailing white space.
pub open spec fn trim_end(s: Seq<char>) -> Seq<char>
    decreases s.len(),
{
    if s.len() > 0 && is_white_space_spec(s.last()) {
        trim_end(s.drop_last())
    } else {
        s
    }
}

/// `s` without leading and trailing white space.
pub open spec fn trim(s: Seq<char>) -> Seq<char> {
    trim_end(trim_start(s))
}

/// `c` with an ASCII upper-case letter turned into its lower-case letter.
pub open spec fn ascii_lower(c: char) -> char {
    if 65 <= (c as u32) <= 90 {
        ((c as u32) + 32) as char
    } else {
        c
    }
}

/// `s` with every ASCII upper-case letter turned into lower case.
pub open spec fn ascii_lowercase(s: Seq<char>) -> Seq<char> {
    s.map_values(|c: char| ascii_lower(c))
}

/// The watchdog override that a launch-time setting spells: after trimming
/// white space and ignoring ASCII case, `1`, `true` and `on` turn auto-exit
/// on, `0`, `false` and `off` turn it off, and anything else is no override.
pub open spec fn watchdog_override_spec(value: Seq<char>) -> Option<bool> {
    let t = ascii_lowercase(trim(value));
    if t == seq!['1'] || t == seq!['t', 'r', 'u', 'e'] || t == seq!['o', 'n'] {
        Some(true)
    } else if t == seq!['0'] || t == seq!['f', 'a', 'l', 's', 'e'] || t == seq!['o', 'f', 'f'] {
        Some(false)
    } else {
        None
    }
}

fn is_white_space(c: char) -> (r: bool)
    ensures
        r == is_white_space_spec(c),
{
    let u = c as u32;
    (0x9 <= u && u <= 0xD) || u == 0x20 || u == 0x85 || u == 0xA0 || u == 0x1680 || (0x2000 <= u
        && u <= 0x200A) || u == 0x2028 || u == 0x2029 || u == 0x202F || u == 0x205F || u == 0x3000
}

fn ascii_lower_eq(c: char, lower: char) -> (r: bool)
    ensures
        r == (ascii_lower(c) == lower),
{
    let u = c as u32;
    if 65 <= u && u <= 90 {
        let l = lower as u32;
        proof {
            assert(((u + 32) as char) as u32 == u + 32);
        }
        u + 32 == l
    } else {
        c == lower
    }
}

/// Whether the characters `start..end` of `value`, ignoring ASCII case, spell
/// the lower-case `word`.
fn word_matches(value: &str, start: usize, end: usize, word: &str) -> (r: bool)
    requires
        start <= end <= value@.len(),
    ensures
        r == (ascii_lowercase(value@.subrange(start as int, end as int)) == word@),
{
    let ghost sub = value@.subrange(start as int, end as int);
    let n = word.unicode_len();
    if end - start != n {
        proof {
            assert(ascii_lowercase(sub).len() != word@.len());
        }
        return false;
    }
    let mut k: usize = 0;
    while k < n
        invariant
            n == word@.len(),
            end - start == n,
            start <= end <= value@.len(),
            sub == value@.subrange(start as int, end as int),
            k <= n,
            forall|i: int| 0 <= i < k ==> ascii_lower(#[trigger] sub[i]) == word@[i],
        decreases n - k,
    {
        let c = value.get_char(start + k);
        let w = word.get_char(k);
        if !ascii_lower_eq(c, w) {
            proof {
                assert(ascii_lowercase(sub)[k as int] != word@[k as int]);
            }
            return false;
        }
        k += 1;
    }
    proof {
        assert(ascii_lowercase(sub) =~= word@);
    }
    true
}

/// Parse the watchdog's launch-time override (see `watchdog_override_spec`).
pub fn parse_watchdog_override(value: &str) -> (r: Option<bool>)
    ensures
        r == watchdog_override_spec(value@),
{
    let n = value.unicode_len();
    let ghost s = value@;
    let mut start: usize = 0;
    proof {
        assert(s.subrange(0, n as int) =~= s);
    }
    while start < n && is_white_space(value.get_char(start))
        invariant
            n == s.len(),
            s == value@,
            start <= n,
            trim_start(s) == trim_start(s.subrange(start as int, n as int)),
        decreases n - start,
    {
        proof {
            let t = s.subrange(start as int, n as int);
            assert(t[0] == s[start as int]);
            assert(t.drop_first() =~= s.subrange(start + 1, n as int));
        }
        start += 1;
    }
    proof {
        let t = s.subrange(start as int, n as int);
        if start < n {
            assert(t[0] == s[start as int]);
        }
        assert(trim_start(t) == t);
        assert(s.subrange(start as int, n as int).subrange(0, (n - start) as int) =~= t);
    }
    let mut end: usize = n;
    while end > start && is_white_space(value.get_char(end - 1))
        invariant
            n == s.len(),
            s == value@,
            start <= end <= n,
            trim(s) == trim_end(s.subrange(start as int, end as int)),
        decreases end - start,
    {
        proof {
            let t = s.subrange(start as int, end as int);
            assert(t.last() == s[end - 1]);
            assert(t.drop_last() =~= s.subrange(start as int, end - 1));
        }
        end -= 1;
    }
    proof {
        let t = s.subrange(start as int, end as int);
        if end > start {
            assert(t.last() == s[end - 1]);
        }
        assert(trim_end(t) == t);
        assert(trim(s) == t);
        reveal_strlit("1");
        reveal_strlit("true");
        reveal_strlit("on");
        reveal_strlit("0");
        reveal_strlit("false");
        reveal_strlit("off");
        assert("1"@ =~= seq!['1']);
        assert("true"@ =~= seq!['t', 'r', 'u', 'e']);
        assert("on"@ =~= seq!['o', 'n']);
        assert("0"@ =~= seq!['0']);
        assert("false"@ =~= seq!['f', 'a', 'l', 's', 'e']);
        assert("off"@ =~= seq!['o', 'f', 'f']);
    }
    if word_matches(value, start, end, "1") || word_matches(value, start, end, "true")
        || word_matches(value, start, end, "on") {
        Some(true)
    } else if word_matches(value, start, end, "0") || word_matches(value, start, end, "false")
        || word_matches(value, start, end, "off") {
        Some(false)
    } else {
        None
    }
}

/// After trimming and lower-casing, exactly `1`, `true` and `on` turn
/// auto-exit on, exactly `0`, `false` and `off` turn it off, and every other
/// text is no override.
pub proof fn lemma_override_words(value: Seq<char>)
    ensures
        ({
            let t = ascii_lowercase(trim(value));
            &&& watchdog_override_spec(value) == Some(true) <==> (t =~= seq!['1'] || t =~= seq![
                't',
                'r',
                'u',
                'e',
            ] || t =~= seq!['o', 'n'])
            &&& watchdog_override_spec(value) == Some(false) <==> (t =~= seq!['0'] || t =~= seq![
                'f',
                'a',
                'l',
                's',
                'e',
            ] || t =~= seq!['o', 'f', 'f'])
            &&& watchdog_override_spec(value) is None <==> !(t =~= seq!['1'] || t =~= seq![
                't',
                'r',
                'u',
                'e',
            ] || t =~= seq!['o', 'n'] || t =~= seq!['0'] || t =~= seq!['f', 'a', 'l', 's', 'e']
                || t =~= seq!['o', 'f', 'f'])
        }),
{
    assert(seq!['1'][0] != seq!['0'][0]);
    assert(seq!['t', 'r', 'u', 'e'].len() != seq!['o', 'f', 'f'].len());
    assert(seq!['o', 'n'][1] != seq!['o', 'f', 'f'][1]);
    assert(seq!['t', 'r', 'u', 'e'][0] != seq!['f', 'a', 'l', 's', 'e'][0]);
}

/// White space is exactly Unicode's `White_Space` set: U+0009 to U+000D,
/// U+0020, U+0085, U+00A0, U+1680, U+2000 to U+200A, U+2028, U+2029, U+202F,
/// U+205F and U+3000.
pub proof fn lemma_white_space_set(c: char)
    ensures
        ({
            let u = c as u32;
            is_white_space_spec(c) <==> (u == 0x9 || u == 0xA || u == 0xB || u == 0xC || u == 0xD
                || u == 0x20 || u == 0x85 || u == 0xA0 || u == 0x1680 || u == 0x2000 || u == 0x2001
                || u == 0x2002 || u == 0x2003 || u == 0x2004 || u == 0x2005 || u == 0x2006 || u
                == 0x2007 || u == 0x2008 || u == 0x2009 || u == 0x200A || u == 0x2028 || u == 0x2029
                || u == 0x202F || u == 0x205F || u == 0x3000)
        }),
{
}

/// ASCII lower-casing moves exactly `A` to `Z` onto `a` to `z`, character by
/// character, and keeps every other character.
pub proof fn lemma_ascii_lowercase(s: Seq<char>, c: char)
    ensures
        65 <= (c as u32) <= 90 ==> ascii_lower(c) as u32 == (c as u32) + 32,
        !(65 <= (c as u32) <= 90) ==> ascii_lower(c) == c,
        ascii_lowercase(s).len() == s.len(),
        forall|i: int| 0 <= i < s.len() ==> #[trigger] ascii_lowercase(s)[i] == ascii_lower(s[i]),
{
    if 65 <= (c as u32) <= 90 {
        assert(((c as u32) + 32) as char as u32 == (c as u32) + 32);
    }
}

/// Removing leading white space from `s` followed by `t`: when `s` holds some
/// other character only `s` is trimmed, otherwise `s` vanishes entirely.
proof fn lemma_trim_start_append(s: Seq<char>, t: Seq<char>)
    ensures
        (exists|i: int| 0 <= i < s.len() && !is_white_space_spec(#[trigger] s[i])) ==> trim_start(
            s + t,
        ) == trim_start(s) + t,
        !(exists|i: int| 0 <= i < s.len() && !is_white_space_spec(#[trigger] s[i])) ==> trim_start(
            s + t,
        ) == trim_start(t) && trim_start(s) == Seq::<char>::empty(),
    decreases s.len(),
{
    if s.len() == 0 {
        assert(s + t =~= t);
    } else if is_white_space_spec(s[0]) {
        let r = s.drop_first();
        assert((s + t).drop_first() =~= r + t);
        assert((s + t)[0] == s[0]);
        lemma_trim_start_append(r, t);
        if exists|i: int| 0 <= i < s.len() && !is_white_space_spec(#[trigger] s[i]) {
            let i = choose|i: int| 0 <= i < s.len() && !is_white_space_spec(#[trigger] s[i]);
            assert(i > 0);
            assert(r[i - 1] == s[i]);
        }
        if exists|i: int| 0 <= i < r.len() && !is_white_space_spec(#[trigger] r[i]) {
            let i = choose|i: int| 0 <= i < r.len() && !is_white_space_spec(#[trigger] r[i]);
            assert(s[i + 1] == r[i]);
        }
    } else {
        assert((s + t)[0] == s[0]);
        assert(!is_white_space_spec(s[0]));
    }
}

/// Trimming ignores white space added at either end, and keeps a string that
/// starts and ends with other characters as it is.
pub proof fn lemma_trim_outer_white_space(s: Seq<char>, c: char)
    ensures
        is_white_space_spec(c) ==> trim(seq![c] + s) == trim(s),
        is_white_space_spec(c) ==> trim(s + seq![c]) == trim(s),
        s.len() > 0 && !is_white_space_spec(s[0]) && !is_white_space_spec(s.last()) ==> trim(s)
            == s,
{
    if is_white_space_spec(c) {
        let a = seq![c] + s;
        assert(a[0] == c);
        assert(a.drop_first() =~= s);
        lemma_trim_start_append(s, seq![c]);
        let b = s + seq![c];
        if exists|i: int| 0 <= i < s.len() && !is_white_space_spec(#[trigger] s[i]) {
            let u = trim_start(s) + seq![c];
            assert(u.last() == c);
            assert(u.drop_last() =~= trim_start(s));
        } else {
            let one = seq![c];
            assert(one[0] == c);
            assert(one.drop_first() =~= Seq::<char>::empty());
            assert(trim_start(Seq::<char>::empty()) =~= Seq::<char>::empty());
            assert(trim_start(one) == trim_start(one.drop_first()));
            assert(trim_start(one) =~= Seq::<char>::empty());
        }
    }
}

} // verus!
