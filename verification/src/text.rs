//! Text helpers: whitespace, decimal numbers, byte lengths, ordering and joining.
use vstd::prelude::*;
use vstd::utf8::encode_utf8;
use vstd::utf8::encode_scalar;
use vstd::utf8::{decode_utf8, valid_utf8};

verus! {

/// `String::push` appends the character at the end of the string.
pub assume_specification[ String::push ](string: &mut String, ch: char)
    ensures
        final(string)@ == old(string)@.push(ch),
;

/// The text that `String::from_utf8_lossy` makes of some bytes.
pub uninterp spec fn lossy_text(bytes: Seq<u8>) -> Seq<char>;

/// Calls `String::from_utf8_lossy`. Its result is named by `lossy_text`; where
/// the bytes are valid UTF-8 it is the text they encode, as its documentation
/// says. How it replaces invalid sequences is left unsaid.
#[verifier::external_body]
pub(crate) fn lossy(bytes: &[u8]) -> (res: String)
    ensures
        res@ == lossy_text(bytes@),
        valid_utf8(bytes@) ==> res@ == decode_utf8(bytes@),
{
    String::from_utf8_lossy(bytes).into_owned()
}

/// The characters of `s`, one by one.
pub fn chars_of(s: &str) -> (res: Vec<char>)
    ensures
        res@ == s@,
{
    let mut res: Vec<char> = Vec::new();
    for c in it: s.chars()
        invariant
            res@ == it.seq().take(it.index() as int),
            it.seq() == s@,
    {
        res.push(c);
    }
    res
}

/// Whether two strings hold the same characters.
pub fn same_text(a: &str, b: &str) -> (res: bool)
    ensures
        res == (a@ == b@),
{
    a.to_owned() == b.to_owned()
}

/// `a` followed by `b`.
pub fn concat(a: &str, b: &str) -> (res: String)
    ensures
        res@ == a@ + b@,
{
    let mut res = a.to_owned();
    res.append(b);
    res
}

/// What `str::strip_prefix` returns: the rest of `s` after `prefix`, where
/// `s` starts with `prefix`.
pub open spec fn without_prefix(s: Seq<char>, prefix: Seq<char>) -> Option<Seq<char>> {
    if prefix.len() <= s.len() && s.take(prefix.len() as int) == prefix {
        Some(s.skip(prefix.len() as int))
    } else {
        None
    }
}

pub fn strip_prefix(s: &str, prefix: &str) -> (res: Option<String>)
    ensures
        match res {
            Some(r) => without_prefix(s@, prefix@) == Some(r@),
            None => without_prefix(s@, prefix@) is None,
        },
{
    let sc = chars_of(s);
    let pc = chars_of(prefix);
    if pc.len() > sc.len() {
        return None;
    }
    let mut i: usize = 0;
    while i < pc.len()
        invariant
            pc@ == prefix@,
            sc@ == s@,
            pc.len() <= sc.len(),
            i <= pc.len(),
            sc@.take(i as int) == pc@.take(i as int),
        decreases pc.len() - i,
    {
        if sc[i] != pc[i] {
            assert(s@.take(prefix@.len() as int)[i as int] != prefix@[i as int]);
            return None;
        }
        i = i + 1;
        assert(sc@.take(i as int) =~= pc@.take(i as int));
    }
    assert(pc@.take(i as int) =~= pc@);
    let mut rest = String::new();
    let mut j: usize = i;
    while j < sc.len()
        invariant
            sc@ == s@,
            i <= j <= sc.len(),
            rest@ == sc@.subrange(i as int, j as int),
        decreases sc.len() - j,
    {
        rest.push(sc[j]);
        j = j + 1;
        assert(rest@ =~= sc@.subrange(i as int, j as int));
    }
    assert(rest@ =~= s@.skip(prefix@.len() as int));
    Some(rest)
}

// ----- whitespace -----

/// The Unicode White_Space property, which `char::is_whitespace` tests.
pub open spec fn is_white_space(c: char) -> bool {
    let u = c as u32;
    ||| 0x9 <= u <= 0xd
    ||| u == 0x20
    ||| u == 0x85
    ||| u == 0xa0
    ||| u == 0x1680
    ||| 0x2000 <= u <= 0x200a
    ||| u == 0x2028
    ||| u == 0x2029
    ||| u == 0x202f
    ||| u == 0x205f
    ||| u == 0x3000
}

/// Whether every character of `s` is whitespace, that is, whether `s.trim()` is empty.
pub open spec fn is_blank(s: Seq<char>) -> bool {
    forall|i: int| 0 <= i < s.len() ==> is_white_space(#[trigger] s[i])
}

pub fn white_space(c: char) -> (res: bool)
    ensures
        res == is_white_space(c),
{
    let u = c as u32;
    (0x9 <= u && u <= 0xd) || u == 0x20 || u == 0x85 || u == 0xa0 || u == 0x1680 || (0x2000 <= u
        && u <= 0x200a) || u == 0x2028 || u == 0x2029 || u == 0x202f || u == 0x205f || u == 0x3000
}

/// `s` without its leading whitespace.
pub open spec fn trim_start(s: Seq<char>) -> Seq<char>
    decreases s.len(),
{
    if s.len() > 0 && is_white_space(s[0]) {
        trim_start(s.drop_first())
    } else {
        s
    }
}

/// `s` without its trailing whitespace.
pub open spec fn trim_end(s: Seq<char>) -> Seq<char>
    decreases s.len(),
{
    if s.len() > 0 && is_white_space(s.last()) {
        trim_end(s.drop_last())
    } else {
        s
    }
}

/// `s` without leading and trailing whitespace, as `str::trim` gives it.
pub open spec fn trimmed(s: Seq<char>) -> Seq<char> {
    trim_end(trim_start(s))
}

/// `str::trim`.
pub fn trim(s: &str) -> (res: Vec<char>)
    ensures
        res@ == trimmed(s@),
{
    let chars = chars_of(s);
    let mut a: usize = 0;
    assert(s@.skip(0) =~= s@);
    while a < chars.len() && white_space(chars[a])
        invariant
            chars@ == s@,
            a <= chars.len(),
            trim_start(s@) == trim_start(s@.skip(a as int)),
        decreases chars.len() - a,
    {
        assert(s@.skip(a as int).drop_first() =~= s@.skip(a + 1));
        a = a + 1;
    }
    assert(s@.skip(a as int) =~= s@.subrange(a as int, chars.len() as int));
    let mut b: usize = chars.len();
    while b > a && white_space(chars[b - 1])
        invariant
            chars@ == s@,
            a <= b <= chars.len(),
            trimmed(s@) == trim_end(s@.subrange(a as int, b as int)),
        decreases b,
    {
        assert(s@.subrange(a as int, b as int).drop_last() =~= s@.subrange(a as int, b - 1));
        b = b - 1;
    }
    let mut res: Vec<char> = Vec::new();
    let mut i: usize = a;
    while i < b
        invariant
            chars@ == s@,
            a <= i <= b <= chars.len(),
            res@ == s@.subrange(a as int, i as int),
        decreases b - i,
    {
        res.push(chars[i]);
        i = i + 1;
        assert(res@ =~= s@.subrange(a as int, i as int));
    }
    res
}

/// Whether `s` trims to the empty string.
pub fn blank(s: &str) -> (res: bool)
    ensures
        res == is_blank(s@),
{
    let chars = chars_of(s);
    let mut i: usize = 0;
    while i < chars.len()
        invariant
            i <= chars.len(),
            chars@ == s@,
            forall|j: int| 0 <= j < i ==> is_white_space(#[trigger] chars@[j]),
        decreases chars.len() - i,
    {
        if !white_space(chars[i]) {
            return false;
        }
        i = i + 1;
    }
    true
}

// ----- decimal numbers -----

pub open spec fn digit_char(d: nat) -> char {
    (48 + d) as char
}

/// The decimal digits of `n`, without leading zeros.
pub open spec fn decimal(n: nat) -> Seq<char>
    decreases n,
{
    if n < 10 {
        seq![digit_char(n)]
    } else {
        decimal(n / 10).push(digit_char(n % 10))
    }
}

/// `n` written in decimal, with a leading `-` when negative.
pub open spec fn signed_decimal(n: int) -> Seq<char> {
    if n < 0 {
        seq!['-'] + decimal((-n) as nat)
    } else {
        decimal(n as nat)
    }
}

fn push_digit(out: &mut String, d: u64)
    requires
        d < 10,
    ensures
        final(out)@ == old(out)@.push(digit_char(d as nat)),
{
    let c: char = match d {
        0 => '0',
        1 => '1',
        2 => '2',
        3 => '3',
        4 => '4',
        5 => '5',
        6 => '6',
        7 => '7',
        8 => '8',
        _ => '9',
    };
    out.push(c);
}

/// Appends the decimal digits of `n` to `out`.
pub fn push_decimal(out: &mut String, n: u64)
    ensures
        final(out)@ == old(out)@ + decimal(n as nat),
    decreases n,
{
    if n < 10 {
        push_digit(out, n);
        assert(final(out)@ =~= old(out)@ + decimal(n as nat));
    } else {
        push_decimal(out, n / 10);
        push_digit(out, n % 10);
        assert(final(out)@ =~= old(out)@ + decimal(n as nat));
    }
}

/// Appends `n` written in decimal to `out`.
pub fn push_signed_decimal(out: &mut String, n: i64)
    ensures
        final(out)@ == old(out)@ + signed_decimal(n as int),
{
    if n < 0 {
        out.push('-');
        let m: u64 = if n == i64::MIN {
            9223372036854775808u64
        } else {
            (-n) as u64
        };
        push_decimal(out, m);
        assert(final(out)@ =~= old(out)@ + signed_decimal(n as int));
    } else {
        push_decimal(out, n as u64);
    }
}

// ----- byte lengths -----

/// The number of bytes of the UTF-8 encoding of `s`, what `str::len` returns.
pub open spec fn byte_len(s: Seq<char>) -> nat {
    encode_utf8(s).len()
}

/// The number of bytes that `c` takes in UTF-8.
pub open spec fn char_width(c: char) -> nat {
    encode_scalar(c as u32).len()
}

pub proof fn lemma_encode_concat(a: Seq<char>, b: Seq<char>)
    ensures
        encode_utf8(a + b) == encode_utf8(a) + encode_utf8(b),
    decreases a.len(),
{
    if a.len() == 0 {
        assert(a + b =~= b);
        assert(encode_utf8(a) =~= Seq::<u8>::empty());
        assert(encode_utf8(a) + encode_utf8(b) =~= encode_utf8(b));
    } else {
        lemma_encode_concat(a.drop_first(), b);
        assert((a + b).drop_first() =~= a.drop_first() + b);
        assert((a + b)[0] == a[0]);
        assert(encode_utf8(a + b) =~= encode_scalar(a[0] as u32) + encode_utf8(a.drop_first() + b));
        assert(encode_utf8(a + b) =~= encode_utf8(a) + encode_utf8(b));
    }
}

pub proof fn lemma_byte_len_push(s: Seq<char>, c: char)
    ensures
        byte_len(s.push(c)) == byte_len(s) + char_width(c),
{
    lemma_encode_concat(s, seq![c]);
    assert(s.push(c) =~= s + seq![c]);
    assert(seq![c].drop_first() =~= Seq::<char>::empty());
    assert(encode_utf8(seq![c]) =~= encode_scalar(c as u32) + encode_utf8(Seq::<char>::empty()));
}

pub proof fn lemma_byte_len_take_step(s: Seq<char>, i: int)
    requires
        0 <= i < s.len(),
    ensures
        byte_len(s.take(i + 1)) == byte_len(s.take(i)) + char_width(s[i]),
{
    assert(s.take(i + 1) =~= s.take(i).push(s[i]));
    lemma_byte_len_push(s.take(i), s[i]);
}

pub proof fn lemma_byte_len_take_mono(s: Seq<char>, i: int, j: int)
    requires
        0 <= i <= j <= s.len(),
    ensures
        byte_len(s.take(i)) + (j - i) <= byte_len(s.take(j)),
    decreases j - i,
{
    if i < j {
        lemma_byte_len_take_mono(s, i, j - 1);
        lemma_byte_len_take_step(s, j - 1);
        lemma_char_width_bounds(s[j - 1]);
    }
}

pub proof fn lemma_char_width_bounds(c: char)
    ensures
        1 <= char_width(c) <= 4,
{
}

/// The byte width of `c` in UTF-8, what `char::len_utf8` returns.
pub fn width_of(c: char) -> (res: usize)
    ensures
        res == char_width(c),
{
    let u = c as u32;
    if u < 0x80 {
        1
    } else if u < 0x800 {
        2
    } else if u < 0x10000 {
        3
    } else {
        4
    }
}

/// Whether the first `k` characters of `s` take exactly `n` bytes: cutting `s`
/// at byte `n` then falls between two characters.
pub open spec fn cuts_at(s: Seq<char>, k: int, n: int) -> bool {
    0 <= k <= s.len() && byte_len(s.take(k)) == n
}

/// Whether byte index `n` of `s` lies on a character boundary.
pub open spec fn is_boundary(s: Seq<char>, n: int) -> bool {
    exists|k: int| cuts_at(s, k, n)
}

/// The first `n` bytes of `text`, where byte `n` is a character boundary.
pub fn prefix_bytes(text: &str, n: usize) -> (res: String)
    requires
        is_boundary(text@, n as int),
    ensures
        exists|k: int| cuts_at(text@, k, n as int) && res@ == text@.take(k),
{
    let chars = chars_of(text);
    let mut res = String::new();
    let mut used: usize = 0;
    let mut i: usize = 0;
    let ghost k = choose|k: int| cuts_at(text@, k, n as int);
    proof {
        assert(text@.take(0) =~= Seq::<char>::empty());
        assert(encode_utf8(Seq::<char>::empty()) =~= Seq::<u8>::empty());
    }
    while i < chars.len() && used < n
        invariant
            chars@ == text@,
            i <= chars.len(),
            cuts_at(text@, k, n as int),
            used == byte_len(text@.take(i as int)),
            used <= n,
            i <= k,
            res@ == text@.take(i as int),
        decreases chars.len() - i,
    {
        proof {
            lemma_byte_len_take_step(text@, i as int);
            if (k == i) {
                assert(false);
            }
            lemma_byte_len_take_mono(text@, i + 1, k);
        }
        let w = width_of(chars[i]);
        res.push(chars[i]);
        used = used + w;
        i = i + 1;
        assert(res@ =~= text@.take(i as int));
    }
    proof {
        if i < k {
            lemma_byte_len_take_mono(text@, i as int, k);
            lemma_byte_len_take_step(text@, i as int);
            lemma_char_width_bounds(text@[i as int]);
            if used < n {
                assert(i == chars.len());
                assert(false);
            }
            assert(false);
        }
    }
    res
}

/// Whether byte index `n` of `s` lies on a character boundary, as
/// `str::is_char_boundary` tells.
pub fn byte_boundary(s: &str, n: usize) -> (res: bool)
    ensures
        res == is_boundary(s@, n as int),
{
    let chars = chars_of(s);
    let mut left: usize = n;
    let mut i: usize = 0;
    proof {
        assert(s@.take(0) =~= Seq::<char>::empty());
        assert(encode_utf8(Seq::<char>::empty()) =~= Seq::<u8>::empty());
    }
    while i < chars.len() && left > 0
        invariant
            chars@ == s@,
            i <= chars.len(),
            left <= n,
            n - left == byte_len(s@.take(i as int)),
            forall|k: int| 0 <= k < i ==> byte_len(#[trigger] s@.take(k)) < n,
        decreases chars.len() - i,
    {
        proof {
            lemma_byte_len_take_step(s@, i as int);
        }
        let w = width_of(chars[i]);
        if w > left {
            assert forall|k: int| !cuts_at(s@, k, n as int) by {
                if 0 <= k <= s@.len() && k > i {
                    lemma_byte_len_take_mono(s@, i + 1, k);
                }
            }
            return false;
        }
        left = left - w;
        i = i + 1;
    }
    if left == 0 {
        assert(cuts_at(s@, i as int, n as int));
        true
    } else {
        assert forall|k: int| !cuts_at(s@, k, n as int) by {
            if 0 <= k <= s@.len() && k >= i {
                lemma_byte_len_take_mono(s@, i as int, k);
            }
        }
        false
    }
}

/// `s` cut at byte `limit` and followed by `suffix` where `s` is longer than
/// `limit` bytes; `s` itself otherwise.
pub open spec fn is_cut(s: Seq<char>, limit: int, suffix: Seq<char>, res: Seq<char>) -> bool {
    if byte_len(s) > limit {
        exists|k: int| cuts_at(s, k, limit) && res == s.take(k) + suffix
    } else {
        res == s
    }
}

/// Cuts `s` at byte `limit` and adds `suffix`, where `s` is longer than that.
pub fn cut_text(s: &str, limit: usize, suffix: &str) -> (res: String)
    requires
        byte_len(s@) <= usize::MAX,
        byte_len(s@) > limit ==> is_boundary(s@, limit as int),
    ensures
        is_cut(s@, limit as int, suffix@, res@),
{
    if byte_count(s) > limit {
        let mut res = prefix_bytes(s, limit);
        res.append(suffix);
        res
    } else {
        s.to_owned()
    }
}

/// The number of bytes of `s`, as `str::len` computes it.
pub fn byte_count(s: &str) -> (res: usize)
    requires
        byte_len(s@) <= usize::MAX,
    ensures
        res == byte_len(s@),
{
    proof {
        broadcast use vstd::string::group_string_axioms;
    }
    s.len()
}

// ----- ordering -----

/// The order of `str`: lexicographic, character by character by code point
/// (for UTF-8 this is also the order of the bytes).
pub open spec fn text_le(a: Seq<char>, b: Seq<char>) -> bool
    decreases a.len(),
{
    if a.len() == 0 {
        true
    } else if b.len() == 0 {
        false
    } else if a[0] != b[0] {
        (a[0] as u32) < (b[0] as u32)
    } else {
        text_le(a.drop_first(), b.drop_first())
    }
}

/// Distinct characters have distinct code points.
pub proof fn lemma_code_point_injective(a: char, b: char)
    ensures
        (a as u32 == b as u32) == (a == b),
{
    vstd::utf8::char_u32_cast(a, a as u32);
    vstd::utf8::char_u32_cast(b, b as u32);
}

pub proof fn lemma_text_le_total(a: Seq<char>, b: Seq<char>)
    ensures
        text_le(a, b) || text_le(b, a),
    decreases a.len(),
{
    if a.len() > 0 && b.len() > 0 && a[0] == b[0] {
        lemma_text_le_total(a.drop_first(), b.drop_first());
    } else if a.len() > 0 && b.len() > 0 {
        lemma_code_point_injective(a[0], b[0]);
    }
}

pub proof fn lemma_text_le_reflexive(a: Seq<char>)
    ensures
        text_le(a, a),
    decreases a.len(),
{
    if a.len() > 0 {
        lemma_text_le_reflexive(a.drop_first());
    }
}

pub proof fn lemma_text_le_antisymmetric(a: Seq<char>, b: Seq<char>)
    requires
        text_le(a, b),
        text_le(b, a),
    ensures
        a == b,
    decreases a.len(),
{
    if a.len() == 0 {
        assert(b =~= Seq::<char>::empty());
    } else {
        if a[0] != b[0] {
            assert(false);
        }
        lemma_text_le_antisymmetric(a.drop_first(), b.drop_first());
        assert(a =~= seq![a[0]] + a.drop_first());
        assert(b =~= seq![b[0]] + b.drop_first());
    }
}

pub proof fn lemma_text_le_transitive(a: Seq<char>, b: Seq<char>, c: Seq<char>)
    requires
        text_le(a, b),
        text_le(b, c),
    ensures
        text_le(a, c),
    decreases a.len(),
{
    if a.len() > 0 && b.len() > 0 && c.len() > 0 {
        if a[0] == b[0] && b[0] == c[0] {
            lemma_text_le_transitive(a.drop_first(), b.drop_first(), c.drop_first());
        } else {
            lemma_code_point_injective(a[0], b[0]);
            lemma_code_point_injective(b[0], c[0]);
            lemma_code_point_injective(a[0], c[0]);
        }
    }
}

/// Compares two character sequences in the order of `str`.
pub fn chars_le(a: &Vec<char>, b: &Vec<char>) -> (res: bool)
    ensures
        res == text_le(a@, b@),
{
    let mut i: usize = 0;
    assert(a@.skip(0) =~= a@ && b@.skip(0) =~= b@);
    while i < a.len() && i < b.len() && a[i] == b[i]
        invariant
            i <= a.len(),
            i <= b.len(),
            text_le(a@, b@) == text_le(a@.skip(i as int), b@.skip(i as int)),
        decreases a.len() - i,
    {
        proof {
            assert(a@.skip(i as int).drop_first() =~= a@.skip(i + 1));
            assert(b@.skip(i as int).drop_first() =~= b@.skip(i + 1));
        }
        i = i + 1;
    }
    if i == a.len() {
        true
    } else if i == b.len() {
        false
    } else {
        (a[i] as u32) < (b[i] as u32)
    }
}

/// Whether `s` is ordered as `str` orders text.
pub open spec fn sorted_texts(s: Seq<Seq<char>>) -> bool {
    forall|i: int, j: int| 0 <= i < j < s.len() ==> text_le(#[trigger] s[i], #[trigger] s[j])
}

pub open spec fn views_of(v: Seq<Vec<char>>) -> Seq<Seq<char>> {
    v.map_values(|l: Vec<char>| l@)
}

/// Sorts lines of text in the order of `str`.
pub fn sort_lines(lines: Vec<Vec<char>>) -> (res: Vec<Vec<char>>)
    ensures
        sorted_texts(views_of(res@)),
        views_of(res@).to_multiset() == views_of(lines@).to_multiset(),
{
    broadcast use vstd::seq_lib::to_multiset_insert;

    let mut res: Vec<Vec<char>> = Vec::new();
    let mut i: usize = 0;
    assert(views_of(res@) =~= views_of(lines@.take(0)));
    while i < lines.len()
        invariant
            i <= lines.len(),
            sorted_texts(views_of(res@)),
            views_of(res@).to_multiset() == views_of(lines@.take(i as int)).to_multiset(),
        decreases lines.len() - i,
    {
        let x = lines[i].clone();
        assert(x@ == lines@[i as int]@);
        let mut p: usize = 0;
        while p < res.len() && chars_le(&res[p], &x)
            invariant
                p <= res.len(),
                forall|q: int| 0 <= q < p ==> text_le(#[trigger] res@[q]@, x@),
            decreases res.len() - p,
        {
            p = p + 1;
        }
        let ghost old_views = views_of(res@);
        proof {
            if p < res.len() {
                lemma_text_le_total(res@[p as int]@, x@);
            }
            assert forall|q: int| p <= q < res.len() implies text_le(
                x@,
                #[trigger] res@[q]@,
            ) by {
                if q > p {
                    assert(text_le(old_views[p as int], old_views[q]));
                    lemma_text_le_transitive(x@, res@[p as int]@, res@[q]@);
                }
            }
        }
        res.insert(p, x);
        proof {
            let nv = views_of(res@);
            assert(nv =~= old_views.insert(p as int, x@));
            assert forall|a: int, b: int| 0 <= a < b < nv.len() implies text_le(
                #[trigger] nv[a],
                #[trigger] nv[b],
            ) by {
                if b < p {
                    assert(nv[a] == old_views[a] && nv[b] == old_views[b]);
                } else if b == p {
                    assert(nv[a] == old_views[a]);
                } else if a < p {
                    assert(nv[a] == old_views[a] && nv[b] == old_views[b - 1]);
                    lemma_text_le_transitive(nv[a], x@, nv[b]);
                } else if a == p {
                    assert(nv[b] == old_views[b - 1]);
                } else {
                    assert(nv[a] == old_views[a - 1] && nv[b] == old_views[b - 1]);
                }
            }
            assert(views_of(lines@.take(i + 1)) =~= views_of(lines@.take(i as int)).push(x@));
            let pv = views_of(lines@.take(i as int));
            assert(pv.push(x@) =~= pv.insert(pv.len() as int, x@));
            vstd::seq_lib::to_multiset_insert(pv, pv.len() as int, x@);
            vstd::seq_lib::to_multiset_insert(old_views, p as int, x@);
        }
        i = i + 1;
    }
    assert(lines@.take(i as int) =~= lines@);
    res
}

/// Lines sorted in the order of `str` are fixed by which lines there are:
/// two sorted arrangements of the same lines are the same.
pub proof fn sorted_arrangement_unique(a: Seq<Seq<char>>, b: Seq<Seq<char>>)
    requires
        sorted_texts(a),
        sorted_texts(b),
        a.to_multiset() == b.to_multiset(),
    ensures
        a == b,
    decreases a.len(),
{
    broadcast use vstd::seq_lib::group_to_multiset_ensures;

    if a.len() == 0 {
        assert(b.len() == 0);
        assert(a =~= b);
    } else {
        assert(a.to_multiset().len() == a.len());
        assert(b.to_multiset().len() == b.len());
        assert(b.len() == a.len());
        assert(a.contains(a[0]));
        assert(b.to_multiset().count(a[0]) > 0);
        assert(b.contains(a[0]));
        let j = choose|j: int| 0 <= j < b.len() && b[j] == a[0];
        assert(b.contains(b[0]));
        assert(a.to_multiset().count(b[0]) > 0);
        assert(a.contains(b[0]));
        let k = choose|k: int| 0 <= k < a.len() && a[k] == b[0];
        lemma_text_le_reflexive(a[0]);
        if j > 0 {
            assert(text_le(b[0], b[j]));
        }
        if k > 0 {
            assert(text_le(a[0], a[k]));
        }
        lemma_text_le_antisymmetric(a[0], b[0]);
        assert(a.remove(0) =~= a.drop_first());
        assert(b.remove(0) =~= b.drop_first());
        assert(a.drop_first().to_multiset() == b.drop_first().to_multiset());
        sorted_arrangement_unique(a.drop_first(), b.drop_first());
        assert forall|i: int| 0 <= i < a.len() implies a[i] == b[i] by {
            if i > 0 {
                assert(a[i] == a.drop_first()[i - 1]);
                assert(b[i] == b.drop_first()[i - 1]);
            }
        }
        assert(a =~= b);
    }
}

/// What `is_listing` allows is a single text.
pub proof fn joined_sorted_unique(a: Seq<Seq<char>>, b: Seq<Seq<char>>, sep: Seq<char>)
    requires
        sorted_texts(a),
        sorted_texts(b),
        a.to_multiset() == b.to_multiset(),
    ensures
        joined(a, sep) == joined(b, sep),
{
    sorted_arrangement_unique(a, b);
}

/// A text cut at a byte and followed by a suffix is fixed by the text, the
/// byte and the suffix.
pub proof fn cut_is_unique(s: Seq<char>, limit: int, suffix: Seq<char>, r1: Seq<char>, r2: Seq<char>)
    requires
        is_cut(s, limit, suffix, r1),
        is_cut(s, limit, suffix, r2),
    ensures
        r1 == r2,
{
    if byte_len(s) > limit {
        let k1 = choose|k: int| cuts_at(s, k, limit) && r1 == s.take(k) + suffix;
        let k2 = choose|k: int| cuts_at(s, k, limit) && r2 == s.take(k) + suffix;
        if k1 < k2 {
            lemma_byte_len_take_mono(s, k1, k2);
        } else if k2 < k1 {
            lemma_byte_len_take_mono(s, k2, k1);
        }
    }
}

// ----- joining -----

pub open spec fn text_views(v: Seq<String>) -> Seq<Seq<char>> {
    v.map_values(|s: String| s@)
}

/// Joins strings with `sep` between each two.
pub fn join_texts(list: &Vec<String>, sep: &str) -> (res: String)
    ensures
        res@ == joined(text_views(list@), sep@),
{
    let mut res = String::new();
    let mut i: usize = 0;
    while i < list.len()
        invariant
            i <= list.len(),
            res@ == joined(text_views(list@.take(i as int)), sep@),
        decreases list.len() - i,
    {
        if i != 0 {
            res.append(sep);
        }
        res.append(list[i].as_str());
        proof {
            let pre = text_views(list@.take(i as int));
            let post = text_views(list@.take(i + 1));
            assert(post.drop_last() =~= pre);
            assert(post.last() == list@[i as int]@);
            if i == 0 {
                assert(res@ =~= post[0]);
            }
        }
        i = i + 1;
    }
    assert(list@.take(i as int) =~= list@);
    res
}

/// The items of `list` with `sep` between each two, as `[String]::join` builds it.
pub open spec fn joined(list: Seq<Seq<char>>, sep: Seq<char>) -> Seq<char>
    decreases list.len(),
{
    if list.len() == 0 {
        Seq::empty()
    } else if list.len() == 1 {
        list[0]
    } else {
        joined(list.drop_last(), sep) + sep + list.last()
    }
}

/// Joins lines of characters with `sep` between each two.
pub fn join_lines(list: &Vec<Vec<char>>, sep: &str) -> (res: String)
    ensures
        res@ == joined(views_of(list@), sep@),
{
    let mut res = String::new();
    let mut i: usize = 0;
    while i < list.len()
        invariant
            i <= list.len(),
            res@ == joined(views_of(list@.take(i as int)), sep@),
        decreases list.len() - i,
    {
        let ghost before = res@;
        if i != 0 {
            res.append(sep);
        }
        let mut j: usize = 0;
        let ghost mid = res@;
        while j < list[i].len()
            invariant
                i < list.len(),
                j <= list@[i as int].len(),
                res@ == mid + list@[i as int]@.take(j as int),
            decreases list@[i as int].len() - j,
        {
            res.push(list[i][j]);
            j = j + 1;
            assert(res@ =~= mid + list@[i as int]@.take(j as int));
        }
        proof {
            assert(list@[i as int]@.take(j as int) =~= list@[i as int]@);
            let pre = views_of(list@.take(i as int));
            let post = views_of(list@.take(i + 1));
            assert(post.drop_last() =~= pre);
            assert(post.last() == list@[i as int]@);
            if i == 0 {
                assert(res@ =~= post[0]);
            } else {
                assert(res@ =~= joined(pre, sep@) + sep@ + list@[i as int]@);
            }
        }
        i = i + 1;
    }
    assert(list@.take(i as int) =~= list@);
    res
}

} // verus!
