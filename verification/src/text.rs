use vstd::prelude::*;
use vstd::string::StrSliceExecFns;
use vstd::string::StringExecFns;

verus! {

/// The character for a single decimal digit.
pub open spec fn dec_digit(d: int) -> char {
    if d == 0 {
        '0'
    } else if d == 1 {
        '1'
    } else if d == 2 {
        '2'
    } else if d == 3 {
        '3'
    } else if d == 4 {
        '4'
    } else if d == 5 {
        '5'
    } else if d == 6 {
        '6'
    } else if d == 7 {
        '7'
    } else if d == 8 {
        '8'
    } else {
        '9'
    }
}

/// Decimal rendering of a non-negative integer, most significant digit first.
pub open spec fn dec_of(n: int) -> Seq<char>
    decreases n,
{
    if n < 10 {
        seq![dec_digit(n)]
    } else {
        dec_of(n / 10) + seq![dec_digit(n % 10)]
    }
}

fn append_digit(s: &mut String, d: u64)
    requires
        d < 10,
    ensures
        final(s)@ == old(s)@ + seq![dec_digit(d as int)],
{
    if d == 0 {
        s.append("0");
    } else if d == 1 {
        s.append("1");
    } else if d == 2 {
        s.append("2");
    } else if d == 3 {
        s.append("3");
    } else if d == 4 {
        s.append("4");
    } else if d == 5 {
        s.append("5");
    } else if d == 6 {
        s.append("6");
    } else if d == 7 {
        s.append("7");
    } else if d == 8 {
        s.append("8");
    } else {
        s.append("9");
    }
    proof {
        reveal_strlit("0");
        reveal_strlit("1");
        reveal_strlit("2");
        reveal_strlit("3");
        reveal_strlit("4");
        reveal_strlit("5");
        reveal_strlit("6");
        reveal_strlit("7");
        reveal_strlit("8");
        reveal_strlit("9");
        assert(final(s)@ =~= old(s)@ + seq![dec_digit(d as int)]);
    }
}

/// Appends the decimal rendering of `n` to `s`.
pub fn append_u64(s: &mut String, n: u64)
    ensures
        final(s)@ == old(s)@ + dec_of(n as int),
    decreases n,
{
    if n < 10 {
        append_digit(s, n);
    } else {
        append_u64(s, n / 10);
        append_digit(s, n % 10);
        proof {
            assert(final(s)@ =~= old(s)@ + dec_of(n as int));
        }
    }
}

/// The decimal rendering of `n` as a fresh string.
pub fn u64_string(n: u64) -> (r: String)
    ensures
        r@ == dec_of(n as int),
{
    let mut s = String::new();
    append_u64(&mut s, n);
    proof {
        assert(s@ =~= dec_of(n as int));
    }
    s
}

/// Character-for-character string equality.
pub fn str_eq_str(a: &str, b: &str) -> (r: bool)
    ensures
        r == (a@ == b@),
{
    let alen = a.unicode_len();
    let blen = b.unicode_len();
    if alen != blen {
        return false;
    }
    let mut i: usize = 0;
    while i < alen
        invariant
            i <= alen,
            alen == a@.len(),
            alen == b@.len(),
            forall|j: int| 0 <= j < i ==> a@[j] == b@[j],
        decreases alen - i,
    {
        if a.get_char(i) != b.get_char(i) {
            return false;
        }
        i += 1;
    }
    proof {
        assert(a@ =~= b@);
    }
    true
}

/// Whether `s` begins with `prefix`, character for character.
pub open spec fn has_prefix(s: Seq<char>, prefix: Seq<char>) -> bool {
    s.len() >= prefix.len() && s.take(prefix.len() as int) == prefix
}

pub fn starts_with(s: &str, prefix: &str) -> (r: bool)
    ensures
        r == has_prefix(s@, prefix@),
{
    let slen = s.unicode_len();
    let plen = prefix.unicode_len();
    if slen < plen {
        assert(!has_prefix(s@, prefix@));
        return false;
    }
    let mut i: usize = 0;
    while i < plen
        invariant
            i <= plen,
            plen == prefix@.len(),
            slen == s@.len(),
            plen <= slen,
            forall|j: int| 0 <= j < i ==> s@[j] == prefix@[j],
        decreases plen - i,
    {
        if s.get_char(i) != prefix.get_char(i) {
            assert(s@.take(plen as int)[i as int] != prefix@[i as int]);
            return false;
        }
        i += 1;
    }
    proof {
        assert(s@.take(plen as int) =~= prefix@);
    }
    true
}

/// What remains of a separator-joined rendering once the first `i` items
/// are already in place.
pub open spec fn joined_from(items: Seq<Seq<char>>, sep: Seq<char>, i: int) -> Seq<char>
    decreases items.len() - i,
{
    if i < 0 || i >= items.len() {
        Seq::empty()
    } else if i == 0 {
        items[0] + joined_from(items, sep, 1)
    } else {
        sep + items[i] + joined_from(items, sep, i + 1)
    }
}

/// The views of `items` joined with `sep` between consecutive entries.
pub open spec fn join_with(items: Seq<Seq<char>>, sep: Seq<char>) -> Seq<char> {
    joined_from(items, sep, 0)
}

/// `items` joined by `sep`, as `join` produces.
pub fn join_strings(items: &Vec<String>, sep: &str) -> (r: String)
    ensures
        r@ == join_with(items.deep_view(), sep@),
{
    let ghost model: Seq<Seq<char>> = items.deep_view();
    let mut s = String::new();
    let mut i: usize = 0;
    proof {
        assert(s@ + joined_from(model, sep@, 0) =~= join_with(model, sep@));
    }
    while i < items.len()
        invariant
            i <= items@.len(),
            model == items.deep_view(),
            model.len() == items@.len(),
            s@ + joined_from(model, sep@, i as int) == join_with(model, sep@),
        decreases items@.len() - i,
    {
        if i > 0 {
            s.append(sep);
        }
        s.append(items[i].as_str());
        proof {
            assert(model[i as int] == items@[i as int].deep_view());
            assert(s@ + joined_from(model, sep@, i + 1) =~= join_with(model, sep@));
        }
        i += 1;
    }
    proof {
        assert(s@ =~= join_with(model, sep@));
    }
    s
}


/// ASCII whitespace, the only whitespace this crate's command parsing
/// treats as blank.
pub open spec fn is_blank(c: char) -> bool {
    c == ' ' || c == '\t' || c == '\n' || c == '\r'
}

fn char_is_blank(c: char) -> (r: bool)
    ensures
        r == is_blank(c),
{
    c == ' ' || c == '\t' || c == '\n' || c == '\r'
}

/// Count of leading blank characters.
pub open spec fn trim_front(s: Seq<char>) -> int
    decreases s.len(),
{
    if s.len() == 0 {
        0
    } else if is_blank(s[0]) {
        1 + trim_front(s.drop_first())
    } else {
        0
    }
}

/// Length of `s` with trailing blanks removed.
pub open spec fn trim_back(s: Seq<char>) -> int
    decreases s.len(),
{
    if s.len() == 0 {
        0
    } else if is_blank(s[s.len() - 1]) {
        trim_back(s.take(s.len() - 1))
    } else {
        s.len() as int
    }
}

/// `s` without leading and trailing blanks.
pub open spec fn spec_trimmed(s: Seq<char>) -> Seq<char> {
    if trim_front(s) >= trim_back(s) {
        Seq::empty()
    } else {
        s.subrange(trim_front(s), trim_back(s))
    }
}

proof fn lemma_trim_front_range(s: Seq<char>)
    ensures
        0 <= trim_front(s) <= s.len(),
        forall|j: int| 0 <= j < trim_front(s) ==> is_blank(s[j]),
        trim_front(s) < s.len() ==> !is_blank(s[trim_front(s)]),
    decreases s.len(),
{
    if s.len() > 0 && is_blank(s[0]) {
        lemma_trim_front_range(s.drop_first());
        assert forall|j: int| 0 <= j < trim_front(s) implies is_blank(s[j]) by {
            if j > 0 {
                assert(s.drop_first()[j - 1] == s[j]);
            }
        }
        if trim_front(s) < s.len() {
            assert(s.drop_first()[trim_front(s) - 1] == s[trim_front(s)]);
        }
    }
}

proof fn lemma_trim_back_range(s: Seq<char>)
    ensures
        0 <= trim_back(s) <= s.len(),
        forall|j: int| trim_back(s) <= j < s.len() ==> is_blank(s[j]),
        trim_back(s) > 0 ==> !is_blank(s[trim_back(s) - 1]),
    decreases s.len(),
{
    if s.len() > 0 && is_blank(s[s.len() - 1]) {
        lemma_trim_back_range(s.take(s.len() - 1));
        assert forall|j: int| trim_back(s) <= j < s.len() implies is_blank(s[j]) by {
            if j < s.len() - 1 {
                assert(s.take(s.len() - 1)[j] == s[j]);
            }
        }
        if trim_back(s) > 0 {
            assert(s.take(s.len() - 1)[trim_back(s) - 1] == s[trim_back(s) - 1]);
        }
    }
}

/// `s` with leading and trailing ASCII whitespace removed, as an owned
/// string.
pub fn trimmed(s: &str) -> (r: String)
    ensures
        r@ == spec_trimmed(s@),
{
    let n = s.unicode_len();
    let mut start: usize = 0;
    proof {
        lemma_trim_front_range(s@);
        lemma_trim_back_range(s@);
    }
    while start < n && char_is_blank(s.get_char(start))
        invariant
            start <= n,
            n == s@.len(),
            forall|j: int| 0 <= j < start ==> is_blank(s@[j]),
            start <= trim_front(s@),
        decreases n - start,
    {
        proof {
            lemma_trim_front_range(s@);
        }
        start += 1;
    }
    proof {
        lemma_trim_front_range(s@);
        assert(start == trim_front(s@));
    }
    let mut end: usize = n;
    while end > start && char_is_blank(s.get_char(end - 1))
        invariant
            start <= end <= n,
            n == s@.len(),
            start == trim_front(s@),
            forall|j: int| end <= j < n ==> is_blank(s@[j]),
            trim_back(s@) <= end,
        decreases end,
    {
        proof {
            lemma_trim_back_range(s@);
            if trim_back(s@) == end {
                assert(!is_blank(s@[end - 1]));
            }
        }
        end -= 1;
    }
    proof {
        lemma_trim_back_range(s@);
        if end > start {
            assert(!is_blank(s@[end - 1]));
            assert(trim_back(s@) == end) by {
                if trim_back(s@) < end {
                    assert(is_blank(s@[end - 1]));
                }
            }
            assert(start < trim_back(s@));
        } else {
            assert(spec_trimmed(s@) =~= Seq::<char>::empty()) by {
                if trim_front(s@) < trim_back(s@) {
                    assert(!is_blank(s@[trim_front(s@)]));
                    assert(is_blank(s@[trim_front(s@)]));
                }
            }
        }
    }
    if end > start {
        let piece = s.substring_char(start, end);
        piece.to_owned()
    } else {
        String::new()
    }
}

/// Whether `s` is nothing but blanks.
pub open spec fn all_blank(s: Seq<char>) -> bool {
    forall|j: int| 0 <= j < s.len() ==> is_blank(s[j])
}

pub fn is_all_blank(s: &str) -> (r: bool)
    ensures
        r == all_blank(s@),
{
    let n = s.unicode_len();
    let mut i: usize = 0;
    while i < n
        invariant
            i <= n,
            n == s@.len(),
            forall|j: int| 0 <= j < i ==> is_blank(s@[j]),
        decreases n - i,
    {
        if !char_is_blank(s.get_char(i)) {
            return false;
        }
        i += 1;
    }
    true
}

/// ASCII lowercase of one character.
pub open spec fn lower_char(c: char) -> char {
    if 'A' <= c && c <= 'Z' {
        ((c as u8) + 32) as char
    } else {
        c
    }
}

/// The ASCII-lowercased form of a text.
pub open spec fn lowered(s: Seq<char>) -> Seq<char> {
    Seq::new(s.len(), |i: int| lower_char(s[i]))
}

/// Whether two strings agree after ASCII lowercasing.
pub fn eq_ignore_ascii_case_str(a: &str, b: &str) -> (r: bool)
    ensures
        r == (lowered(a@) == lowered(b@)),
{
    let alen = a.unicode_len();
    let blen = b.unicode_len();
    if alen != blen {
        assert(lowered(a@).len() != lowered(b@).len());
        return false;
    }
    let mut i: usize = 0;
    while i < alen
        invariant
            i <= alen,
            alen == a@.len(),
            alen == b@.len(),
            forall|j: int| 0 <= j < i ==> lowered(a@)[j] == lowered(b@)[j],
        decreases alen - i,
    {
        let ca = a.get_char(i);
        let cb = b.get_char(i);
        let la = if 'A' <= ca && ca <= 'Z' {
            ((ca as u8) + 32) as char
        } else {
            ca
        };
        let lb = if 'A' <= cb && cb <= 'Z' {
            ((cb as u8) + 32) as char
        } else {
            cb
        };
        if la != lb {
            assert(lowered(a@)[i as int] != lowered(b@)[i as int]);
            return false;
        }
        i += 1;
    }
    proof {
        assert(lowered(a@) =~= lowered(b@));
    }
    true
}

/// The pieces of `s` between occurrences of `sep`, in order; every
/// separator splits, so pieces may be empty.
pub open spec fn split_on(s: Seq<char>, sep: char) -> Seq<Seq<char>>
    decreases s.len(),
    via split_on_decreases
{
    match s.index_of_first(sep) {
        None => seq![s],
        Some(i) => seq![s.take(i)] + split_on(s.skip(i + 1), sep),
    }
}

#[via_fn]
proof fn split_on_decreases(s: Seq<char>, sep: char) {
    s.index_of_first_ensures(sep);
}

/// Splits on a separator character, as the comma-separated command
/// inputs are taken apart. Every separator splits; pieces may be empty.
pub fn split_on_char(s: &str, sep: char) -> (r: Vec<String>)
    ensures
        r.deep_view() == split_on(s@, sep),
{
    let n = s.unicode_len();
    let mut out: Vec<String> = Vec::new();
    let mut piece_start: usize = 0;
    let mut i: usize = 0;
    let ghost whole = s@;
    proof {
        assert(whole.skip(0) =~= whole);
    }
    while i < n
        invariant
            piece_start <= i <= n,
            n == whole.len(),
            whole == s@,
            forall|j: int| piece_start <= j < i ==> whole[j] != sep,
            out.deep_view() + split_on(whole.skip(piece_start as int), sep) == split_on(
                whole,
                sep,
            ),
        decreases n - i,
    {
        if s.get_char(i) == sep {
            let piece = s.substring_char(piece_start, i);
            let ghost prev = out.deep_view();
            out.push(piece.to_owned());
            proof {
                let rest = whole.skip(piece_start as int);
                assert(rest.contains(sep)) by {
                    assert(rest[i - piece_start] == sep);
                }
                rest.index_of_first_ensures(sep);
                let x = rest.index_of_first(sep).unwrap();
                assert(x == i - piece_start) by {
                    if x < i - piece_start {
                        assert(whole[piece_start + x] == rest[x]);
                    }
                    if x > i - piece_start {
                        assert(rest[i - piece_start] == sep);
                    }
                }
                assert(rest.take(x) =~= whole.subrange(piece_start as int, i as int));
                assert(rest.skip(x + 1) =~= whole.skip(i + 1));
                assert(out.deep_view() =~= prev + seq![whole.subrange(
                    piece_start as int,
                    i as int,
                )]);
                assert(out.deep_view() + split_on(whole.skip(i + 1), sep) =~= split_on(
                    whole,
                    sep,
                ));
            }
            piece_start = i + 1;
        }
        i += 1;
    }
    let last = s.substring_char(piece_start, n);
    let ghost prev = out.deep_view();
    out.push(last.to_owned());
    proof {
        let rest = whole.skip(piece_start as int);
        assert(!rest.contains(sep)) by {
            if rest.contains(sep) {
                let x = choose|x: int| 0 <= x < rest.len() && rest[x] == sep;
                assert(whole[piece_start + x] == rest[x]);
            }
        }
        rest.index_of_first_ensures(sep);
        assert(rest =~= whole.subrange(piece_start as int, n as int));
        assert(out.deep_view() =~= prev + seq![rest]);
        assert(out.deep_view() =~= split_on(whole, sep));
    }
    out
}

/// Decimal rendering of a signed integer.
pub open spec fn dec_signed(v: int) -> Seq<char> {
    if v < 0 {
        seq!['-'] + dec_of(-v)
    } else {
        dec_of(v)
    }
}

/// Appends the decimal rendering of a signed 64-bit integer.
pub fn append_i64(s: &mut String, v: i64)
    ensures
        final(s)@ == old(s)@ + dec_signed(v as int),
{
    if v < 0 {
        s.append("-");
        let mag: u64 = if v == i64::MIN {
            9223372036854775808u64
        } else {
            (-v) as u64
        };
        append_u64(s, mag);
        proof {
            reveal_strlit("-");
            assert(final(s)@ =~= old(s)@ + dec_signed(v as int));
        }
    } else {
        append_u64(s, v as u64);
    }
}


/// Length of the leading run of non-blank characters.
pub open spec fn token_len(s: Seq<char>) -> int
    decreases s.len(),
{
    if s.len() == 0 || is_blank(s[0]) {
        0
    } else {
        1 + token_len(s.drop_first())
    }
}

proof fn lemma_token_len_is(s: Seq<char>, m: int)
    requires
        0 <= m <= s.len(),
        forall|l: int| 0 <= l < m ==> !is_blank(s[l]),
        m == s.len() || is_blank(s[m]),
    ensures
        token_len(s) == m,
    decreases m,
{
    if m == 0 {
    } else {
        assert(!is_blank(s[0]));
        assert forall|l: int| 0 <= l < m - 1 implies !is_blank(s.drop_first()[l]) by {
            assert(s.drop_first()[l] == s[l + 1]);
        }
        if m < s.len() {
            assert(s.drop_first()[m - 1] == s[m]);
        }
        lemma_token_len_is(s.drop_first(), m - 1);
    }
}

proof fn lemma_token_len_range(s: Seq<char>)
    ensures
        0 <= token_len(s) <= s.len(),
        s.len() > 0 && !is_blank(s[0]) ==> token_len(s) >= 1,
    decreases s.len(),
{
    if s.len() > 0 && !is_blank(s[0]) {
        lemma_token_len_range(s.drop_first());
    }
}

/// The whitespace-separated tokens of `s`, in order, blanks dropped.
pub open spec fn split_tokens(s: Seq<char>) -> Seq<Seq<char>>
    decreases s.len(),
    via split_tokens_decreases
{
    if s.len() == 0 {
        Seq::empty()
    } else if is_blank(s[0]) {
        split_tokens(s.drop_first())
    } else {
        seq![s.take(token_len(s))] + split_tokens(s.skip(token_len(s)))
    }
}

#[via_fn]
proof fn split_tokens_decreases(s: Seq<char>) {
    lemma_token_len_range(s);
}

/// Splits on runs of ASCII whitespace, as a command string is taken
/// apart into its words.
pub fn split_whitespace_tokens(s: &str) -> (r: Vec<String>)
    ensures
        r.deep_view() == split_tokens(s@),
{
    let n = s.unicode_len();
    let ghost whole = s@;
    let mut out: Vec<String> = Vec::new();
    let mut i: usize = 0;
    proof {
        assert(whole.skip(0) =~= whole);
    }
    while i < n
        invariant
            i <= n,
            n == whole.len(),
            whole == s@,
            out.deep_view() + split_tokens(whole.skip(i as int)) == split_tokens(whole),
        decreases n - i,
    {
        if char_is_blank(s.get_char(i)) {
            proof {
                assert(whole.skip(i as int)[0] == whole[i as int]);
                assert(whole.skip(i as int).drop_first() =~= whole.skip(i + 1));
            }
            i += 1;
        } else {
            let start = i;
            let mut j: usize = i + 1;
            while j < n && !char_is_blank(s.get_char(j))
                invariant
                    start < j <= n,
                    n == whole.len(),
                    whole == s@,
                    !is_blank(whole[start as int]),
                    forall|l: int| start <= l < j ==> !is_blank(whole[l]),
                decreases n - j,
            {
                j += 1;
            }
            let piece = s.substring_char(start, j);
            let ghost prev = out.deep_view();
            out.push(piece.to_owned());
            proof {
                let rest = whole.skip(start as int);
                assert forall|l: int| 0 <= l < j - start implies !is_blank(rest[l]) by {
                    assert(rest[l] == whole[start + l]);
                }
                if j < n {
                    assert(rest[j - start] == whole[j as int]);
                }
                lemma_token_len_is(rest, j - start);
                assert(rest.take(j - start) =~= whole.subrange(start as int, j as int));
                assert(rest.skip(j - start) =~= whole.skip(j as int));
                assert(out.deep_view() =~~= prev + seq![whole.subrange(
                    start as int,
                    j as int,
                )]);
                assert(out.deep_view() + split_tokens(whole.skip(j as int)) =~~= split_tokens(
                    whole,
                ));
            }
            i = j;
        }
    }
    proof {
        assert(whole.skip(n as int).len() == 0);
        assert(out.deep_view() =~~= split_tokens(whole));
    }
    out
}

} // verus!
