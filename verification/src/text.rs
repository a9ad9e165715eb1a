//! Text as sequences of characters: decimal numbers, trimming, searching.
use vstd::prelude::*;
use vstd::string::*;

verus! {

// ---------------------------------------------------------------------------
// Decimal numbers
// ---------------------------------------------------------------------------

/// The decimal digit of value `d`.
pub open spec fn digit(d: int) -> char {
    seq!['0', '1', '2', '3', '4', '5', '6', '7', '8', '9'][d]
}

/// Decimal form of `n`, without leading zeros.
pub open spec fn decimal(n: nat) -> Seq<char>
    decreases n,
{
    if n < 10 {
        seq![digit(n as int)]
    } else {
        decimal(n / 10).push(digit((n % 10) as int))
    }
}

/// The decimal digit of value `d`.
fn digit_str(d: u64) -> (r: &'static str)
    requires
        d < 10,
    ensures
        r@ == seq![digit(d as int)],
{
    proof {
        reveal_strlit("0");
        reveal_strlit("1");
        reveal_strlit("2");
        reveal_strlit("3");
        reveal_strlit("4");
        reveal_strlit("5");
        reveal_strlit("6");
        reveal_strlit("7");
        reveal_strlit("8");
        reveal_strlit("9");
    }
    let r: &'static str = match d {
        0 => "0",
        1 => "1",
        2 => "2",
        3 => "3",
        4 => "4",
        5 => "5",
        6 => "6",
        7 => "7",
        8 => "8",
        _ => "9",
    };
    assert(r@ =~= seq![digit(d as int)]);
    r
}

/// Appends the decimal form of a number.
pub fn push_u64(out: &mut String, n: u64)
    ensures
        final(out)@ == old(out)@ + decimal(n as nat),
    decreases n,
{
    let ghost before = out@;
    if n >= 10 {
        push_u64(out, n / 10);
        out.append(digit_str(n % 10));
        assert(out@ =~= before + decimal(n as nat));
    } else {
        out.append(digit_str(n));
    }
}

/// Appends the decimal form of a number.
pub fn push_usize(out: &mut String, n: usize)
    ensures
        final(out)@ == old(out)@ + decimal(n as nat),
{
    push_u64(out, n as u64);
}

/// A text with one number at its end.
pub open spec fn text1(a: Seq<char>, n: int) -> Seq<char> {
    a + decimal(n as nat)
}

/// A text with two numbers.
pub open spec fn text2(a: Seq<char>, n: int, b: Seq<char>, m: int) -> Seq<char> {
    text1(a, n) + b + decimal(m as nat)
}

/// A text with three numbers.
pub open spec fn text3(
    a: Seq<char>,
    n: int,
    b: Seq<char>,
    m: int,
    c: Seq<char>,
    k: int,
) -> Seq<char> {
    text2(a, n, b, m) + c + decimal(k as nat)
}

/// A text with four numbers.
pub open spec fn text4(
    a: Seq<char>,
    n: int,
    b: Seq<char>,
    m: int,
    c: Seq<char>,
    k: int,
    d: Seq<char>,
    l: int,
) -> Seq<char> {
    text3(a, n, b, m, c, k) + d + decimal(l as nat)
}

/// A text with one number at its end.
pub fn message1(a: &str, n: usize) -> (r: String)
    ensures
        r@ == text1(a@, n as int),
{
    let mut out: String = a.to_owned();
    push_usize(&mut out, n);
    out
}

/// A text with two numbers.
pub fn message2(a: &str, n: usize, b: &str, m: usize) -> (r: String)
    ensures
        r@ == text2(a@, n as int, b@, m as int),
{
    let mut out: String = message1(a, n);
    out.append(b);
    push_usize(&mut out, m);
    out
}

/// A text with three numbers.
pub fn message3(a: &str, n: usize, b: &str, m: usize, c: &str, k: usize) -> (r: String)
    ensures
        r@ == text3(a@, n as int, b@, m as int, c@, k as int),
{
    let mut out: String = message2(a, n, b, m);
    out.append(c);
    push_usize(&mut out, k);
    out
}

/// A text with four numbers.
pub fn message4(
    a: &str,
    n: usize,
    b: &str,
    m: usize,
    c: &str,
    k: usize,
    d: &str,
    l: usize,
) -> (r: String)
    ensures
        r@ == text4(a@, n as int, b@, m as int, c@, k as int, d@, l as int),
{
    let mut out: String = message3(a, n, b, m, c, k);
    out.append(d);
    push_usize(&mut out, l);
    out
}

/// `context` followed by a colon, a space and `rest`.
pub open spec fn in_context(context: Seq<char>, rest: Seq<char>) -> Seq<char> {
    context + ": "@ + rest
}

/// `context` followed by a colon, a space and `rest`.
pub fn with_context(context: &str, rest: &str) -> (r: String)
    ensures
        r@ == in_context(context@, rest@),
{
    let mut out: String = context.to_owned();
    out.append(": ");
    out.append(rest);
    out
}

/// Value of a decimal form.
pub open spec fn decimal_value(s: Seq<char>) -> nat
    decreases s.len(),
{
    if s.len() == 0 {
        0
    } else {
        decimal_value(s.drop_last()) * 10 + (s.last() as u32 - '0' as u32) as nat
    }
}

/// Different numbers have different decimal forms: reading one back gives the number.
pub proof fn decimal_reads_back(n: nat)
    ensures
        decimal_value(decimal(n)) == n,
    decreases n,
{
    reveal_with_fuel(decimal_value, 2);
    if n < 10 {
        assert(decimal(n).drop_last() =~= Seq::<char>::empty());
    } else {
        decimal_reads_back(n / 10);
        assert(decimal(n).drop_last() =~= decimal(n / 10));
    }
}

// ---------------------------------------------------------------------------
// Characters
// ---------------------------------------------------------------------------

/// Characters with the Unicode property `White_Space`.
pub open spec fn is_white_space(c: char) -> bool {
    ||| '\u{9}' <= c <= '\u{d}'
    ||| c == ' '
    ||| c == '\u{85}'
    ||| c == '\u{a0}'
    ||| c == '\u{1680}'
    ||| '\u{2000}' <= c <= '\u{200a}'
    ||| c == '\u{2028}'
    ||| c == '\u{2029}'
    ||| c == '\u{202f}'
    ||| c == '\u{205f}'
    ||| c == '\u{3000}'
}

/// Whether a character has the Unicode property `White_Space`.
pub fn char_is_white_space(c: char) -> (r: bool)
    ensures
        r == is_white_space(c),
{
    ('\u{9}' <= c && c <= '\u{d}') || c == ' ' || c == '\u{85}' || c == '\u{a0}' || c == '\u{1680}'
        || ('\u{2000}' <= c && c <= '\u{200a}') || c == '\u{2028}' || c == '\u{2029}' || c
        == '\u{202f}' || c == '\u{205f}' || c == '\u{3000}'
}

/// `c` with an ASCII capital turned into its small letter.
pub open spec fn ascii_lower(c: char) -> char {
    if 'A' <= c <= 'Z' {
        (c as u32 + 32) as u8 as char
    } else {
        c
    }
}

/// `c` with an ASCII capital turned into its small letter.
pub fn char_ascii_lower(c: char) -> (r: char)
    ensures
        r == ascii_lower(c),
{
    if 'A' <= c && c <= 'Z' {
        (c as u32 + 32) as u8 as char
    } else {
        c
    }
}

/// The characters of a text.
pub fn chars_of(s: &str) -> (r: Vec<char>)
    ensures
        r@ == s@,
{
    let mut out: Vec<char> = Vec::new();
    for c in it: s.chars()
        invariant
            out@ == it.seq().take(it.index() as int),
            it.seq() == s@,
    {
        out.push(c);
        assert(out@ =~= it.seq().take(it.index() as int + 1));
    }
    assert(s@.take(s@.len() as int) =~= s@);
    out
}

/// Whether a list of characters spells a text.
pub fn chars_eq(v: &Vec<char>, s: &str) -> (r: bool)
    ensures
        r == (v@ == s@),
{
    let w: Vec<char> = chars_of(s);
    if v.len() != w.len() {
        return false;
    }
    let mut i: usize = 0;
    while i < v.len()
        invariant
            i <= v.len(),
            v.len() == w.len(),
            w@ == s@,
            forall|j: int| 0 <= j < i ==> v@[j] == w@[j],
        decreases v.len() - i,
    {
        if v[i] != w[i] {
            assert(v@[i as int] != w@[i as int]);
            return false;
        }
        i = i + 1;
    }
    assert(v@ =~= w@);
    true
}

/// Whether two texts are equal.
pub fn str_eq(a: &str, b: &str) -> (r: bool)
    ensures
        r == (a@ == b@),
{
    chars_eq(&chars_of(a), b)
}

// ---------------------------------------------------------------------------
// Trimming
// ---------------------------------------------------------------------------

/// `s` without leading white space.
pub open spec fn trimmed_start(s: Seq<char>) -> Seq<char>
    decreases s.len(),
{
    if s.len() > 0 && is_white_space(s[0]) {
        trimmed_start(s.drop_first())
    } else {
        s
    }
}

/// `s` without trailing white space.
pub open spec fn trimmed_end(s: Seq<char>) -> Seq<char>
    decreases s.len(),
{
    if s.len() > 0 && is_white_space(s.last()) {
        trimmed_end(s.drop_last())
    } else {
        s
    }
}

/// `s` without white space at either end.
pub open spec fn trimmed(s: Seq<char>) -> Seq<char> {
    trimmed_end(trimmed_start(s))
}

/// The text without white space at either end.
pub fn trim<'a>(s: &'a str) -> (r: &'a str)
    ensures
        r@ == trimmed(s@),
{
    let v: Vec<char> = chars_of(s);
    let mut from: usize = 0;
    proof {
        assert(s@.skip(0) =~= s@);
    }
    while from < v.len() && char_is_white_space(v[from])
        invariant
            v@ == s@,
            from <= v.len(),
            trimmed_start(s@) == trimmed_start(s@.skip(from as int)),
        decreases v.len() - from,
    {
        proof {
            assert(s@.skip(from as int).drop_first() =~= s@.skip(from as int + 1));
        }
        from = from + 1;
    }
    let ghost rest = s@.skip(from as int);
    assert(trimmed_start(s@) == rest);
    let mut to: usize = v.len();
    proof {
        assert(s@.subrange(from as int, to as int) =~= rest);
    }
    while to > from && char_is_white_space(v[to - 1])
        invariant
            v@ == s@,
            from <= to <= v.len(),
            trimmed_end(rest) == trimmed_end(s@.subrange(from as int, to as int)),
        decreases to,
    {
        proof {
            assert(s@.subrange(from as int, to as int).drop_last() =~= s@.subrange(
                from as int,
                to as int - 1,
            ));
        }
        to = to - 1;
    }
    s.substring_char(from, to)
}

/// `s` in ASCII small letters.
pub open spec fn lowered(s: Seq<char>) -> Seq<char> {
    s.map_values(|c: char| ascii_lower(c))
}

/// The characters of a text in ASCII small letters.
pub fn lower_chars(s: &str) -> (r: Vec<char>)
    ensures
        r@ == lowered(s@),
{
    let v: Vec<char> = chars_of(s);
    let mut out: Vec<char> = Vec::new();
    let mut i: usize = 0;
    while i < v.len()
        invariant
            v@ == s@,
            i <= v.len(),
            out@ == lowered(s@).take(i as int),
        decreases v.len() - i,
    {
        out.push(char_ascii_lower(v[i]));
        proof {
            assert(out@ =~= lowered(s@).take(i as int + 1));
        }
        i = i + 1;
    }
    assert(out@ =~= lowered(s@));
    out
}

// ---------------------------------------------------------------------------
// Searching
// ---------------------------------------------------------------------------

/// `p` stands in `s` at position `i`.
pub open spec fn occurs_at(s: Seq<char>, p: Seq<char>, i: int) -> bool {
    0 <= i && i + p.len() <= s.len() && s.subrange(i, i + p.len()) == p
}

/// Position of the first occurrence of `p` in `s`.
pub open spec fn is_first_occurrence(s: Seq<char>, p: Seq<char>, i: int) -> bool {
    occurs_at(s, p, i) && forall|j: int| 0 <= j < i ==> !#[trigger] occurs_at(s, p, j)
}

/// `p` stands somewhere in `s`.
pub open spec fn occurs(s: Seq<char>, p: Seq<char>) -> bool {
    exists|i: int| #[trigger] occurs_at(s, p, i)
}

/// Whether `p` stands in `s` at position `i`.
pub fn stands_at(s: &Vec<char>, p: &Vec<char>, i: usize) -> (r: bool)
    ensures
        r == occurs_at(s@, p@, i as int),
{
    if i > s.len() || p.len() > s.len() - i {
        return false;
    }
    let mut j: usize = 0;
    while j < p.len()
        invariant
            j <= p.len(),
            i + p.len() <= s.len(),
            forall|k: int| 0 <= k < j ==> s@[i + k] == p@[k],
        decreases p.len() - j,
    {
        if s[i + j] != p[j] {
            proof {
                assert(s@.subrange(i as int, i + p.len())[j as int] != p@[j as int]);
            }
            return false;
        }
        j = j + 1;
    }
    assert(s@.subrange(i as int, i + p.len()) =~= p@);
    true
}

/// Position of the first occurrence of a text.
pub fn find(s: &Vec<char>, p: &str) -> (r: Option<usize>)
    ensures
        match r {
            Some(i) => is_first_occurrence(s@, p@, i as int),
            None => !occurs(s@, p@),
        },
{
    let q: Vec<char> = chars_of(p);
    if q.len() > s.len() {
        return None;
    }
    let last: usize = s.len() - q.len();
    let mut i: usize = 0;
    while i <= last
        invariant
            q@ == p@,
            last == s.len() - q.len(),
            i <= last + 1,
            forall|j: int| 0 <= j < i ==> !#[trigger] occurs_at(s@, p@, j),
        decreases last + 1 - i,
    {
        if stands_at(s, &q, i) {
            return Some(i);
        }
        if i == last {
            return None;
        }
        i = i + 1;
    }
    None
}

/// Whether a text occurs in another.
pub fn str_contains(s: &str, p: &str) -> (r: bool)
    ensures
        r == occurs(s@, p@),
{
    match find(&chars_of(s), p) {
        Some(_) => true,
        None => false,
    }
}

/// Whether a text begins with another.
pub fn str_starts_with(s: &str, p: &str) -> (r: bool)
    ensures
        r == occurs_at(s@, p@, 0),
{
    stands_at(&chars_of(s), &chars_of(p), 0)
}

/// Whether a text ends with another.
pub fn str_ends_with(s: &str, p: &str) -> (r: bool)
    ensures
        r == occurs_at(s@, p@, s@.len() - p@.len()),
{
    let v: Vec<char> = chars_of(s);
    let q: Vec<char> = chars_of(p);
    if q.len() > v.len() {
        return false;
    }
    stands_at(&v, &q, v.len() - q.len())
}

/// Position of the last occurrence of a character.
pub fn rfind_char(s: &Vec<char>, c: char) -> (r: Option<usize>)
    ensures
        match r {
            Some(i) => i < s.len() && s@[i as int] == c && forall|j: int|
                i < j < s.len() ==> #[trigger] s@[j] != c,
            None => forall|j: int| 0 <= j < s.len() ==> #[trigger] s@[j] != c,
        },
{
    let mut i: usize = s.len();
    while i > 0
        invariant
            i <= s.len(),
            forall|j: int| i <= j < s.len() ==> #[trigger] s@[j] != c,
        decreases i,
    {
        if s[i - 1] == c {
            return Some(i - 1);
        }
        i = i - 1;
    }
    None
}

// ---------------------------------------------------------------------------
// Switches
// ---------------------------------------------------------------------------

/// Value of a switch given as text, where the text is one of the known words.
pub open spec fn flag_value(s: Seq<char>) -> Option<bool> {
    let word = lowered(trimmed(s));
    if word == "1"@ || word == "true"@ || word == "on"@ || word == "yes"@ {
        Some(true)
    } else if word == "0"@ || word == "false"@ || word == "off"@ || word == "no"@ {
        Some(false)
    } else {
        None
    }
}

/// Value of a switch given as text, where the text is one of the known words.
pub fn parse_flag(s: &str) -> (r: Option<bool>)
    ensures
        r == flag_value(s@),
{
    let word: Vec<char> = lower_chars(trim(s));
    if chars_eq(&word, "1") || chars_eq(&word, "true") || chars_eq(&word, "on") || chars_eq(
        &word,
        "yes",
    ) {
        Some(true)
    } else if chars_eq(&word, "0") || chars_eq(&word, "false") || chars_eq(&word, "off")
        || chars_eq(&word, "no") {
        Some(false)
    } else {
        None
    }
}

/// Setting of a switch: its value where a known word was given, `default` otherwise.
pub open spec fn flag_setting(value: Option<&str>, default: bool) -> bool {
    match value {
        Some(s) => match flag_value(s@) {
            Some(v) => v,
            None => default,
        },
        None => default,
    }
}

/// Setting of a switch: its value where a known word was given, `default` otherwise.
pub fn flag_or(value: Option<&str>, default: bool) -> (r: bool)
    ensures
        r == flag_setting(value, default),
{
    match value {
        Some(s) => match parse_flag(s) {
            Some(v) => v,
            None => default,
        },
        None => default,
    }
}

/// White space in front is dropped first.
proof fn lemma_white_front(w: Seq<char>, t: Seq<char>)
    requires
        forall|i: int| 0 <= i < w.len() ==> is_white_space(#[trigger] w[i]),
    ensures
        trimmed_start(w + t) == trimmed_start(t),
    decreases w.len(),
{
    if w.len() == 0 {
        assert(w + t =~= t);
    } else {
        assert((w + t)[0] == w[0]);
        assert((w + t).drop_first() =~= w.drop_first() + t);
        assert forall|i: int| 0 <= i < w.drop_first().len() implies is_white_space(
            #[trigger] w.drop_first()[i],
        ) by {
            assert(w.drop_first()[i] == w[i + 1]);
        }
        lemma_white_front(w.drop_first(), t);
    }
}

/// White space behind is dropped last.
proof fn lemma_white_back(t: Seq<char>, w: Seq<char>)
    requires
        forall|i: int| 0 <= i < w.len() ==> is_white_space(#[trigger] w[i]),
    ensures
        trimmed_end(t + w) == trimmed_end(t),
    decreases w.len(),
{
    if w.len() == 0 {
        assert(t + w =~= t);
    } else {
        assert((t + w).last() == w.last());
        assert((t + w).drop_last() =~= t + w.drop_last());
        lemma_white_back(t, w.drop_last());
    }
}

/// White space around a text is dropped and nothing else is: a space, a tab or a
/// line end counts, a letter, a digit or an underscore does not.
pub proof fn trimming_leaves_what_stands_between(
    before: Seq<char>,
    core: Seq<char>,
    after: Seq<char>,
)
    requires
        forall|i: int| 0 <= i < before.len() ==> is_white_space(#[trigger] before[i]),
        forall|i: int| 0 <= i < after.len() ==> is_white_space(#[trigger] after[i]),
        core.len() > 0 ==> !is_white_space(core[0]) && !is_white_space(core.last()),
    ensures
        trimmed(before + core + after) == core,
        is_white_space(' ') && is_white_space('\t') && is_white_space('\n') && is_white_space('\r'),
        forall|c: char|
            '!' <= c <= '~' ==> !#[trigger] is_white_space(c),
{
    assert(before + core + after =~= before + (core + after));
    lemma_white_front(before, core + after);
    if core.len() > 0 {
        assert((core + after)[0] == core[0]);
        lemma_white_back(core, after);
    } else {
        assert(core + after =~= after + core);
        lemma_white_front(after, core);
        assert(core =~= Seq::empty());
    }
}

/// Four words switch on and four switch off, in small or capital letters and
/// whatever white space stands around them; no other text does either.
pub proof fn switches_are_known_words(before: Seq<char>, core: Seq<char>, after: Seq<char>)
    requires
        forall|i: int| 0 <= i < before.len() ==> is_white_space(#[trigger] before[i]),
        forall|i: int| 0 <= i < after.len() ==> is_white_space(#[trigger] after[i]),
        core.len() > 0 ==> !is_white_space(core[0]) && !is_white_space(core.last()),
    ensures
        flag_value(before + core + after) == Some(true) <==> lowered(core) == "1"@ || lowered(core)
            == "true"@ || lowered(core) == "on"@ || lowered(core) == "yes"@,
        flag_value(before + core + after) == Some(false) <==> lowered(core) == "0"@ || lowered(core)
            == "false"@ || lowered(core) == "off"@ || lowered(core) == "no"@,
        lowered(core).len() == core.len(),
        forall|i: int|
            0 <= i < core.len() && !('A' <= core[i] <= 'Z') ==> #[trigger] lowered(core)[i]
                == core[i],
        forall|i: int|
            0 <= i < core.len() && 'A' <= core[i] <= 'Z' ==> #[trigger] lowered(core)[i] as u32
                == core[i] as u32 + 32,
{
    trimming_leaves_what_stands_between(before, core, after);
    reveal_strlit("1");
    reveal_strlit("true");
    reveal_strlit("on");
    reveal_strlit("yes");
    reveal_strlit("0");
    reveal_strlit("false");
    reveal_strlit("off");
    reveal_strlit("no");
    assert("1"@.len() == 1 && "on"@.len() == 2 && "yes"@.len() == 3 && "true"@.len() == 4);
    assert("0"@.len() == 1 && "no"@.len() == 2 && "off"@.len() == 3 && "false"@.len() == 5);
    assert("1"@[0] != "0"@[0] && "on"@[0] != "no"@[0] && "yes"@[0] != "off"@[0]);
}

} // verus!
