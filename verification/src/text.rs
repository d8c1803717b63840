//! Text, character by character.
//!
//! The view of a string is the sequence of its characters; the functions here
//! are stated over such sequences.

use vstd::prelude::*;
use vstd::string::StringExecFns;
use vstd::utf8::*;

verus! {

/// `String::push` puts the character behind the last one and changes nothing else.
pub assume_specification[ std::string::String::push ](s: &mut std::string::String, c: char)
    ensures
        final(s)@ == old(s)@.push(c),
;

// ---------------------------------------------------------------------------
// Definitions
// ---------------------------------------------------------------------------

/// Whether `c` has the Unicode property White_Space.
pub open spec fn is_space(c: char) -> bool {
    let n = c as u32;
    ||| 0x9 <= n <= 0xd
    ||| n == 0x20
    ||| n == 0x85
    ||| n == 0xa0
    ||| n == 0x1680
    ||| 0x2000 <= n <= 0x200a
    ||| 0x2028 <= n <= 0x2029
    ||| n == 0x202f
    ||| n == 0x205f
    ||| n == 0x3000
}

/// `s` without the white space it begins with.
pub open spec fn trim_front(s: Seq<char>) -> Seq<char>
    decreases s.len(),
{
    if s.len() > 0 && is_space(s[0]) {
        trim_front(s.drop_first())
    } else {
        s
    }
}

/// `s` without the white space it ends with.
pub open spec fn trim_back(s: Seq<char>) -> Seq<char>
    decreases s.len(),
{
    if s.len() > 0 && is_space(s.last()) {
        trim_back(s.drop_last())
    } else {
        s
    }
}

/// `s` without the white space at its two ends.
pub open spec fn trim(s: Seq<char>) -> Seq<char> {
    trim_back(trim_front(s))
}

/// Whether `part` stands in `s` from index `i` on.
pub open spec fn occurs_at(s: Seq<char>, part: Seq<char>, i: int) -> bool {
    0 <= i && i + part.len() <= s.len() && s.subrange(i, i + part.len()) == part
}

/// Whether `part` stands anywhere in `s`.
pub open spec fn contains(s: Seq<char>, part: Seq<char>) -> bool {
    exists|i: int| occurs_at(s, part, i)
}

/// Whether `i` is the first place at which `part` stands in `s`.
pub open spec fn first_at(s: Seq<char>, part: Seq<char>, i: int) -> bool {
    occurs_at(s, part, i) && forall|j: int| 0 <= j < i ==> !occurs_at(s, part, j)
}

/// The first place at which `part` stands in `s`.
pub open spec fn position(s: Seq<char>, part: Seq<char>) -> int {
    choose|i: int| first_at(s, part, i)
}

/// What remains of `s` once `suffix` has been cut off its end as often as it stands there.
pub open spec fn without_suffixes(s: Seq<char>, suffix: Seq<char>) -> Seq<char>
    decreases s.len(),
{
    if 0 < suffix.len() && suffix.is_suffix_of(s) {
        without_suffixes(s.take(s.len() - suffix.len()), suffix)
    } else {
        s
    }
}

/// The pieces of `s` between the separators: always one more than there are separators.
pub open spec fn split(s: Seq<char>, sep: char) -> Seq<Seq<char>>
    decreases s.len(),
{
    if s.len() == 0 {
        seq![Seq::<char>::empty()]
    } else {
        let pieces = split(s.drop_last(), sep);
        if s.last() == sep {
            pieces.push(Seq::<char>::empty())
        } else {
            pieces.drop_last().push(pieces.last().push(s.last()))
        }
    }
}

/// The longest runs of characters of `s` that are no white space.
pub open spec fn words(s: Seq<char>) -> Seq<Seq<char>>
    decreases s.len(),
{
    if s.len() == 0 {
        Seq::<Seq<char>>::empty()
    } else {
        let found = words(s.drop_last());
        if is_space(s.last()) {
            found
        } else if s.len() >= 2 && !is_space(s[s.len() - 2]) {
            found.drop_last().push(found.last().push(s.last()))
        } else {
            found.push(seq![s.last()])
        }
    }
}

/// The parts one after the other, with `sep` between neighbours.
pub open spec fn join(parts: Seq<Seq<char>>, sep: Seq<char>) -> Seq<char>
    decreases parts.len(),
{
    if parts.len() == 0 {
        Seq::<char>::empty()
    } else if parts.len() == 1 {
        parts[0]
    } else {
        join(parts.drop_last(), sep) + sep + parts.last()
    }
}

/// The first `n` characters of `s`, or all of them where there are fewer.
pub open spec fn head(s: Seq<char>, n: int) -> Seq<char> {
    if s.len() <= n {
        s
    } else {
        s.take(n)
    }
}

/// The texts that a sequence of strings holds.
pub open spec fn texts(strings: Seq<String>) -> Seq<Seq<char>> {
    strings.map_values(|s: String| s@)
}

/// The text that an optional string slice holds.
pub open spec fn text_of(s: Option<&str>) -> Option<Seq<char>> {
    match s {
        Some(t) => Some(t@),
        None => None,
    }
}

/// The text that an optional string holds.
pub open spec fn owned_text(s: Option<String>) -> Option<Seq<char>> {
    match s {
        Some(t) => Some(t@),
        None => None,
    }
}

// ---------------------------------------------------------------------------
// Strings and characters
// ---------------------------------------------------------------------------

/// The characters of `s`.
pub fn chars_of(s: &str) -> (chars: Vec<char>)
    ensures
        chars@ == s@,
{
    let mut out: Vec<char> = Vec::new();
    for c in it: s.chars()
        invariant
            out@ == it.seq().take(it.index()),
            it.seq() == s@,
    {
        out.push(c);
    }
    out
}

/// The string of the characters from index `from` up to, not including, `to`.
pub fn string_of(chars: &[char], from: usize, to: usize) -> (s: String)
    requires
        from <= to <= chars@.len(),
    ensures
        s@ == chars@.subrange(from as int, to as int),
{
    let mut out = String::new();
    let mut i: usize = from;
    while i < to
        invariant
            from <= i <= to <= chars@.len(),
            out@ == chars@.subrange(from as int, i as int),
        decreases to - i,
    {
        out.push(chars[i]);
        i += 1;
        assert(chars@.subrange(from as int, i as int) == chars@.subrange(
            from as int,
            i - 1,
        ).push(chars@[i - 1]));
    }
    out
}

/// Encoding in UTF-8 tells different texts apart.
pub proof fn encoding_is_injective(a: Seq<char>, b: Seq<char>)
    requires
        encode_utf8(a) == encode_utf8(b),
    ensures
        a == b,
{
    encode_utf8_decode_utf8(a);
    encode_utf8_decode_utf8(b);
}

/// Whether the two strings hold the same text.
pub fn same(a: &str, b: &str) -> (r: bool)
    ensures
        r == (a@ == b@),
{
    let x = a.as_bytes();
    let y = b.as_bytes();
    if x.len() != y.len() {
        return false;
    }
    let mut i: usize = 0;
    while i < x.len()
        invariant
            x@ == encode_utf8(a@),
            y@ == encode_utf8(b@),
            x@.len() == y@.len(),
            i <= x@.len(),
            forall|j: int| 0 <= j < i ==> x@[j] == y@[j],
        decreases x@.len() - i,
    {
        if x[i] != y[i] {
            return false;
        }
        i += 1;
    }
    proof {
        assert(x@ =~= y@);
        encoding_is_injective(a@, b@);
    }
    true
}

/// Whether the optional string holds the text `b`.
pub fn is_some_text(a: Option<&str>, b: &str) -> (r: bool)
    ensures
        r == (text_of(a) == Some(b@)),
{
    match a {
        Some(t) => same(t, b),
        None => false,
    }
}

/// Whether `c` is white space.
pub fn is_space_char(c: char) -> (r: bool)
    ensures
        r == is_space(c),
{
    let n: u32 = c as u32;
    (0x9 <= n && n <= 0xd) || n == 0x20 || n == 0x85 || n == 0xa0 || n == 0x1680 || (0x2000 <= n
        && n <= 0x200a) || (0x2028 <= n && n <= 0x2029) || n == 0x202f || n == 0x205f || n == 0x3000
}

// ---------------------------------------------------------------------------
// Trimming and searching
// ---------------------------------------------------------------------------

proof fn trim_front_drops(s: Seq<char>, n: int)
    requires
        0 <= n <= s.len(),
        forall|i: int| 0 <= i < n ==> is_space(#[trigger] s[i]),
        n < s.len() ==> !is_space(s[n]),
    ensures
        trim_front(s) == s.skip(n),
    decreases n,
{
    if n == 0 {
        assert(s.skip(0) == s);
    } else {
        assert forall|i: int| 0 <= i < n - 1 implies is_space(#[trigger] s.drop_first()[i]) by {
            assert(is_space(s[i + 1]));
        }
        trim_front_drops(s.drop_first(), n - 1);
        assert(s.drop_first().skip(n - 1) == s.skip(n));
    }
}

proof fn trim_back_drops(s: Seq<char>, n: int)
    requires
        0 <= n <= s.len(),
        forall|i: int| n <= i < s.len() ==> is_space(#[trigger] s[i]),
        n > 0 ==> !is_space(s[n - 1]),
    ensures
        trim_back(s) == s.take(n),
    decreases s.len() - n,
{
    if n == s.len() {
        assert(s.take(n) == s);
    } else {
        assert(is_space(s[s.len() - 1]));
        trim_back_drops(s.drop_last(), n);
        assert(s.drop_last().take(n) == s.take(n));
    }
}

/// `s` without the white space at its two ends.
pub fn trimmed(s: &str) -> (r: String)
    ensures
        r@ == trim(s@),
{
    let chars = chars_of(s);
    let mut from: usize = 0;
    while from < chars.len() && is_space_char(chars[from])
        invariant
            from <= chars@.len(),
            forall|i: int| 0 <= i < from ==> is_space(#[trigger] chars@[i]),
        decreases chars@.len() - from,
    {
        from += 1;
    }
    proof {
        trim_front_drops(s@, from as int);
    }
    let mut to: usize = chars.len();
    while from < to && is_space_char(chars[to - 1])
        invariant
            from <= to <= chars@.len(),
            forall|i: int| to <= i < chars@.len() ==> is_space(#[trigger] chars@[i]),
        decreases to - from,
    {
        to -= 1;
    }
    proof {
        let rest = s@.skip(from as int);
        trim_back_drops(rest, to - from);
        assert(rest.take(to - from) == chars@.subrange(from as int, to as int));
    }
    string_of(&chars, from, to)
}

/// Whether `part` stands in `s` from index `i` on.
fn stands_at(s: &[char], part: &[char], i: usize) -> (r: bool)
    requires
        i <= s@.len(),
    ensures
        r == occurs_at(s@, part@, i as int),
{
    let available: usize = s.len();
    if available - i < part.len() {
        return false;
    }
    let mut j: usize = 0;
    while j < part.len()
        invariant
            i + part@.len() <= s@.len(),
            s@.len() == available,
            j <= part@.len(),
            forall|k: int| 0 <= k < j ==> s@[i + k] == #[trigger] part@[k],
        decreases part@.len() - j,
    {
        if s[i + j] != part[j] {
            proof {
                assert(s@.subrange(i as int, i + part@.len())[j as int] != part@[j as int]);
            }
            return false;
        }
        j += 1;
    }
    proof {
        assert(s@.subrange(i as int, i + part@.len()) =~= part@);
    }
    true
}

/// The first place at which `part` stands in `s`.
pub fn find(s: &[char], part: &[char]) -> (r: Option<usize>)
    ensures
        match r {
            Some(i) => first_at(s@, part@, i as int) && i == position(s@, part@),
            None => !contains(s@, part@),
        },
{
    let mut i: usize = 0;
    while i <= s.len()
        invariant
            i <= s@.len() + 1,
            forall|j: int| 0 <= j < i ==> !occurs_at(s@, part@, j),
        decreases s@.len() + 1 - i,
    {
        if stands_at(s, part, i) {
            proof {
                assert(first_at(s@, part@, i as int));
                let p = position(s@, part@);
                assert(first_at(s@, part@, p));
            }
            return Some(i);
        }
        if i == s.len() {
            return None;
        }
        i += 1;
    }
    None
}

/// Whether `part` stands anywhere in `s`.
pub fn includes(s: &str, part: &str) -> (r: bool)
    ensures
        r == contains(s@, part@),
{
    let chars = chars_of(s);
    let wanted = chars_of(part);
    match find(&chars, &wanted) {
        Some(_) => true,
        None => false,
    }
}

/// Whether `s` begins with `prefix`.
pub fn begins_with(s: &str, prefix: &str) -> (r: bool)
    ensures
        r == prefix@.is_prefix_of(s@),
{
    let chars = chars_of(s);
    let wanted = chars_of(prefix);
    stands_at(&chars, &wanted, 0)
}

/// Whether `s` ends with `suffix`.
pub fn finishes_with(s: &str, suffix: &str) -> (r: bool)
    ensures
        r == suffix@.is_suffix_of(s@),
{
    let chars = chars_of(s);
    let wanted = chars_of(suffix);
    if chars.len() < wanted.len() {
        return false;
    }
    stands_at(&chars, &wanted, chars.len() - wanted.len())
}

/// What follows `prefix` in `s`, where `s` begins with it.
pub fn after_prefix(s: &str, prefix: &str) -> (r: Option<String>)
    ensures
        match r {
            Some(rest) => prefix@.is_prefix_of(s@) && rest@ == s@.skip(prefix@.len() as int),
            None => !prefix@.is_prefix_of(s@),
        },
{
    let chars = chars_of(s);
    let wanted = chars_of(prefix);
    if stands_at(&chars, &wanted, 0) {
        Some(string_of(&chars, wanted.len(), chars.len()))
    } else {
        None
    }
}

/// `s` with `suffix` cut off its end as often as it stands there.
pub fn cut_suffixes(s: &str, suffix: &str) -> (r: String)
    ensures
        r@ == without_suffixes(s@, suffix@),
{
    let chars = chars_of(s);
    let wanted = chars_of(suffix);
    let mut to: usize = chars.len();
    proof {
        assert(chars@.take(to as int) == s@);
    }
    while 0 < wanted.len() && wanted.len() <= to && stands_at(&chars, &wanted, to - wanted.len())
        invariant
            to <= chars@.len(),
            wanted@ == suffix@,
            without_suffixes(chars@.take(to as int), suffix@) == without_suffixes(s@, suffix@),
        decreases to,
    {
        let ghost before = chars@.take(to as int);
        to = to - wanted.len();
        proof {
            assert(before.subrange(to as int, before.len() as int) == suffix@);
            assert(before.take(before.len() - suffix@.len()) == chars@.take(to as int));
        }
    }
    proof {
        let rest = chars@.take(to as int);
        if 0 < suffix@.len() && suffix@.is_suffix_of(rest) {
            let at = to - suffix@.len();
            assert(chars@.subrange(at, to as int) == rest.subrange(at, to as int));
        }
    }
    string_of(&chars, 0, to)
}

// ---------------------------------------------------------------------------
// Splitting and joining
// ---------------------------------------------------------------------------

/// The texts that a sequence of character vectors holds.
pub open spec fn pieces_of(parts: Seq<Vec<char>>) -> Seq<Seq<char>> {
    parts.map_values(|p: Vec<char>| p@)
}

/// The pieces of a text, put together again, are the text.
pub proof fn pieces_make_up_the_text(s: Seq<char>, sep: char)
    ensures
        split(s, sep).len() >= 1,
        join(split(s, sep), seq![sep]) == s,
    decreases s.len(),
{
    reveal_with_fuel(join, 2);
    let pieces = split(s, sep);
    if s.len() == 0 {
        assert(pieces[0] =~= s);
    } else {
        let earlier = split(s.drop_last(), sep);
        pieces_make_up_the_text(s.drop_last(), sep);
        assert(s.drop_last().push(s.last()) =~= s);
        if s.last() == sep {
            assert(pieces.drop_last() =~= earlier);
            assert(join(pieces, seq![sep]) =~= s);
        } else {
            assert(pieces.drop_last() =~= earlier.drop_last());
            assert(pieces.last() == earlier.last().push(s.last()));
            assert(join(pieces, seq![sep]) =~= s);
        }
    }
}

/// The pieces of `s` between the separators.
pub fn split_chars(s: &[char], sep: char) -> (r: Vec<Vec<char>>)
    ensures
        pieces_of(r@) == split(s@, sep),
{
    let mut done: Vec<Vec<char>> = Vec::new();
    let mut current: Vec<char> = Vec::new();
    let mut i: usize = 0;
    proof {
        assert(pieces_of(done@).push(current@) =~= split(s@.take(0), sep));
    }
    while i < s.len()
        invariant
            i <= s@.len(),
            pieces_of(done@).push(current@) == split(s@.take(i as int), sep),
        decreases s@.len() - i,
    {
        let c = s[i];
        let ghost earlier = pieces_of(done@);
        let ghost open = current@;
        proof {
            let upto = s@.take(i + 1);
            assert(upto.drop_last() == s@.take(i as int));
            assert(upto.last() == c);
            assert(earlier.push(open).drop_last() == earlier);
        }
        if c == sep {
            done.push(current);
            current = Vec::new();
            proof {
                assert(pieces_of(done@) =~= earlier.push(open));
            }
        } else {
            current.push(c);
        }
        i += 1;
    }
    proof {
        assert(s@.take(i as int) == s@);
    }
    let ghost earlier = pieces_of(done@);
    let ghost open = current@;
    done.push(current);
    proof {
        assert(pieces_of(done@) =~= earlier.push(open));
    }
    done
}

/// The pieces of `s` between the separators, as strings.
pub fn split_text(s: &str, sep: char) -> (r: Vec<String>)
    ensures
        texts(r@) == split(s@, sep),
{
    let chars = chars_of(s);
    let pieces = split_chars(&chars, sep);
    let mut out: Vec<String> = Vec::new();
    let mut i: usize = 0;
    while i < pieces.len()
        invariant
            i <= pieces@.len(),
            pieces_of(pieces@) == split(s@, sep),
            texts(out@) == pieces_of(pieces@).take(i as int),
        decreases pieces@.len() - i,
    {
        let ghost before = texts(out@);
        let piece = string_of(&pieces[i], 0, pieces[i].len());
        proof {
            assert(piece@ == pieces_of(pieces@)[i as int]);
        }
        out.push(piece);
        i += 1;
        proof {
            assert(texts(out@) =~= before.push(pieces_of(pieces@)[i - 1]));
            assert(pieces_of(pieces@).take(i as int) =~= before.push(pieces_of(pieces@)[i - 1]));
        }
    }
    proof {
        assert(pieces_of(pieces@).take(i as int) =~= pieces_of(pieces@));
    }
    out
}

/// The words of `s`.
pub fn words_of(s: &str) -> (r: Vec<Vec<char>>)
    ensures
        pieces_of(r@) == words(s@),
{
    let chars = chars_of(s);
    let mut done: Vec<Vec<char>> = Vec::new();
    let mut current: Vec<char> = Vec::new();
    let mut i: usize = 0;
    proof {
        assert(pieces_of(done@) =~= words(s@.take(0)));
    }
    while i < chars.len()
        invariant
            i <= chars@.len(),
            chars@ == s@,
            (current@.len() > 0) == (i > 0 && !is_space(s@[i - 1])),
            words(s@.take(i as int)) == if current@.len() > 0 {
                pieces_of(done@).push(current@)
            } else {
                pieces_of(done@)
            },
        decreases chars@.len() - i,
    {
        let c = chars[i];
        let ghost earlier = pieces_of(done@);
        let ghost open = current@;
        proof {
            let upto = s@.take(i + 1);
            assert(upto.drop_last() == s@.take(i as int));
            assert(upto.last() == c);
            if i > 0 {
                assert(upto[upto.len() - 2] == s@[i - 1]);
            }
            assert(earlier.push(open).drop_last() == earlier);
        }
        if is_space_char(c) {
            if current.len() > 0 {
                done.push(current);
                current = Vec::new();
                proof {
                    assert(pieces_of(done@) =~= earlier.push(open));
                }
            }
        } else {
            current.push(c);
            proof {
                if open.len() == 0 {
                    assert(current@ =~= seq![c]);
                }
            }
        }
        i += 1;
    }
    proof {
        assert(s@.take(i as int) == s@);
    }
    if current.len() > 0 {
        let ghost earlier = pieces_of(done@);
        let ghost open = current@;
        done.push(current);
        proof {
            assert(pieces_of(done@) =~= earlier.push(open));
        }
    }
    done
}

/// The first `count` parts one after the other, with `sep` between neighbours.
pub fn join_chars(parts: &Vec<Vec<char>>, count: usize, sep: &str) -> (r: String)
    requires
        count <= parts@.len(),
    ensures
        r@ == join(pieces_of(parts@).take(count as int), sep@),
{
    let ghost pieces = pieces_of(parts@);
    let mut out = String::new();
    let mut i: usize = 0;
    while i < count
        invariant
            i <= count <= parts@.len(),
            pieces == pieces_of(parts@),
            out@ == join(pieces.take(i as int), sep@),
        decreases count - i,
    {
        if i > 0 {
            out.append(sep);
        }
        let piece = string_of(&parts[i], 0, parts[i].len());
        out.append(piece.as_str());
        i += 1;
        proof {
            assert(piece@ =~= pieces[i - 1]);
            assert(pieces.take(i as int).drop_last() =~= pieces.take(i - 1));
            assert(pieces.take(i as int).last() == pieces[i - 1]);
        }
    }
    out
}

/// The strings one after the other, with `sep` between neighbours.
pub fn join_texts(parts: &Vec<String>, sep: &str) -> (r: String)
    ensures
        r@ == join(texts(parts@), sep@),
{
    let ghost pieces = texts(parts@);
    let mut out = String::new();
    let mut i: usize = 0;
    while i < parts.len()
        invariant
            i <= parts@.len(),
            pieces == texts(parts@),
            out@ == join(pieces.take(i as int), sep@),
        decreases parts@.len() - i,
    {
        if i > 0 {
            out.append(sep);
        }
        out.append(parts[i].as_str());
        i += 1;
        proof {
            assert(parts@[i - 1]@ == pieces[i - 1]);
            assert(pieces.take(i as int).drop_last() =~= pieces.take(i - 1));
            assert(pieces.take(i as int).last() == pieces[i - 1]);
        }
    }
    proof {
        assert(pieces.take(i as int) =~= pieces);
    }
    out
}

/// The two texts one after the other.
pub fn glue(a: &str, b: &str) -> (r: String)
    ensures
        r@ == a@ + b@,
{
    let mut out = a.to_owned();
    out.append(b);
    out
}

/// The three texts one after the other.
pub fn glue3(a: &str, b: &str, c: &str) -> (r: String)
    ensures
        r@ == a@ + b@ + c@,
{
    let mut out = a.to_owned();
    out.append(b);
    out.append(c);
    out
}

/// The optional string that an optional slice holds.
pub fn owned(s: Option<&str>) -> (r: Option<String>)
    ensures
        owned_text(r) == text_of(s),
{
    match s {
        Some(t) => Some(t.to_owned()),
        None => None,
    }
}

/// The optional slice of an optional string.
pub fn slice(s: &Option<String>) -> (r: Option<&str>)
    ensures
        text_of(r) == owned_text(*s),
{
    match s {
        Some(t) => Some(t.as_str()),
        None => None,
    }
}

/// The first `n` characters of `s`, or all of them where there are fewer.
pub fn head_of(s: &str, n: usize) -> (r: String)
    ensures
        r@ == head(s@, n as int),
{
    let chars = chars_of(s);
    if chars.len() <= n {
        s.to_owned()
    } else {
        string_of(&chars, 0, n)
    }
}

/// The words of `s` with one blank between neighbours.
pub fn single_spaced(s: &str) -> (r: String)
    ensures
        r@ == join(words(s@), " "@),
{
    let found = words_of(s);
    proof {
        assert(pieces_of(found@).take(found@.len() as int) =~= pieces_of(found@));
    }
    join_chars(&found, found.len(), " ")
}

// ---------------------------------------------------------------------------
// Bytes
// ---------------------------------------------------------------------------

/// How many bytes a text takes in UTF-8.
pub open spec fn byte_size(s: Seq<char>) -> nat {
    encode_utf8(s).len()
}

/// Whether a character of `s` begins at the given byte, or `s` ends there.
pub open spec fn splits_at(s: Seq<char>, byte: int) -> bool {
    is_char_boundary(encode_utf8(s), byte)
}

/// The text of the bytes of `s` from `from` up to, not including, `to`.
pub open spec fn byte_range(s: Seq<char>, from: int, to: int) -> Seq<char> {
    decode_utf8(encode_utf8(s).subrange(from, to))
}

/// The longest beginning of `s` that takes at most `max` bytes.
pub open spec fn fitting(s: Seq<char>, max: nat) -> Seq<char>
    decreases s.len(),
{
    if s.len() == 0 || byte_size(s) <= max {
        s
    } else {
        fitting(s.drop_last(), max)
    }
}

/// How many bytes a character takes.
pub open spec fn char_size(c: char) -> nat {
    encode_scalar(c as u32).len()
}

proof fn size_of_push(s: Seq<char>, c: char)
    ensures
        byte_size(s.push(c)) == byte_size(s) + char_size(c),
    decreases s.len(),
{
    reveal_with_fuel(encode_utf8, 2);
    if s.len() == 0 {
        assert(s.push(c).drop_first() =~= Seq::empty());
    } else {
        assert(s.push(c).drop_first() =~= s.drop_first().push(c));
        size_of_push(s.drop_first(), c);
    }
}

proof fn size_grows(s: Seq<char>, n: int)
    requires
        0 <= n <= s.len(),
    ensures
        byte_size(s.take(n)) <= byte_size(s),
    decreases s.len() - n,
{
    if n == s.len() {
        assert(s.take(n) =~= s);
    } else {
        size_of_push(s.take(n), s[n]);
        assert(s.take(n).push(s[n]) =~= s.take(n + 1));
        size_grows(s, n + 1);
    }
}

proof fn fitting_is(s: Seq<char>, n: int, max: nat)
    requires
        0 <= n <= s.len(),
        byte_size(s.take(n)) <= max,
        n < s.len() ==> byte_size(s.take(n + 1)) > max,
    ensures
        fitting(s, max) == s.take(n),
    decreases s.len(),
{
    if n == s.len() {
        assert(s.take(n) =~= s);
    } else {
        size_grows(s, n + 1);
        let shorter = s.drop_last();
        assert(shorter.take(n) =~= s.take(n));
        if n < shorter.len() {
            assert(shorter.take(n + 1) =~= s.take(n + 1));
        }
        fitting_is(shorter, n, max);
    }
}

/// The longest beginning of a text that takes at most `max` bytes is a beginning of it that
/// takes at most `max` bytes, and one character more would take more.
pub proof fn fitting_fits(s: Seq<char>, max: nat)
    ensures
        fitting(s, max).is_prefix_of(s),
        byte_size(fitting(s, max)) <= max,
        fitting(s, max).len() < s.len() ==> byte_size(s.take((fitting(s, max).len() + 1) as int)) > max,
    decreases s.len(),
{
    if s.len() > 0 && byte_size(s) > max {
        fitting_fits(s.drop_last(), max);
        let kept = fitting(s.drop_last(), max);
        if kept.len() < s.len() - 1 {
            assert(s.drop_last().take((kept.len() + 1) as int) =~= s.take((kept.len() + 1) as int));
        } else {
            assert(s.take((kept.len() + 1) as int) =~= s);
        }
        assert(kept =~= s.subrange(0, kept.len() as int));
    } else {
        assert(s =~= s.subrange(0, s.len() as int));
    }
}

fn size_of_char(c: char) -> (r: usize)
    ensures
        r == char_size(c),
        1 <= r <= 4,
{
    let n: u32 = c as u32;
    if n <= 0x7f {
        1
    } else if n <= 0x7ff {
        2
    } else if n <= 0xffff {
        3
    } else {
        4
    }
}

/// How many bytes the string takes.
pub fn size_of(s: &str) -> (r: usize)
    ensures
        r == byte_size(s@),
{
    s.as_bytes().len()
}

/// The longest beginning of `s` that takes at most `max` bytes.
pub fn fit(s: &str, max: usize) -> (r: String)
    ensures
        r@ == fitting(s@, max as nat),
{
    let chars = chars_of(s);
    let mut n: usize = 0;
    let mut used: usize = 0;
    proof {
        assert(chars@.take(0) =~= Seq::empty());
    }
    while n < chars.len() && size_of_char(chars[n]) <= max - used
        invariant
            chars@ == s@,
            n <= chars@.len(),
            used <= max,
            used == byte_size(chars@.take(n as int)),
        decreases chars@.len() - n,
    {
        proof {
            size_of_push(chars@.take(n as int), chars@[n as int]);
            assert(chars@.take(n as int).push(chars@[n as int]) =~= chars@.take(n + 1));
        }
        used += size_of_char(chars[n]);
        n += 1;
    }
    proof {
        if n < chars@.len() {
            size_of_push(chars@.take(n as int), chars@[n as int]);
            assert(chars@.take(n as int).push(chars@[n as int]) =~= chars@.take(n + 1));
        }
        fitting_is(chars@, n as int, max as nat);
    }
    string_of(&chars, 0, n)
}

/// Whether a character of `s` begins at the given byte, or `s` ends there.
pub fn can_split(s: &str, byte: usize) -> (r: bool)
    ensures
        r == splits_at(s@, byte as int),
{
    s.is_char_boundary(byte)
}

/// The text of the bytes of `s` from `from` up to, not including, `to`.
pub fn slice_bytes(s: &str, from: usize, to: usize) -> (r: String)
    requires
        from <= to <= byte_size(s@),
        splits_at(s@, from as int),
        splits_at(s@, to as int),
    ensures
        r@ == byte_range(s@, from as int, to as int),
{
    let ghost all = encode_utf8(s@);
    proof {
        encode_utf8_valid_utf8(s@);
    }
    let (_, tail) = s.split_at(from);
    proof {
        let rest = all.subrange(from as int, all.len() as int);
        encode_utf8_valid_utf8(tail@);
        assert(encode_utf8(tail@) == rest);
        if to < all.len() {
            is_char_boundary_iff_not_is_continuation_byte(all, to as int);
            is_char_boundary_iff_not_is_continuation_byte(rest, to - from);
        } else {
            is_char_boundary_start_end_of_seq(rest);
        }
    }
    let (middle, _) = tail.split_at(to - from);
    proof {
        assert(encode_utf8(middle@) =~= all.subrange(from as int, to as int));
        encode_utf8_decode_utf8(middle@);
    }
    middle.to_owned()
}

// ---------------------------------------------------------------------------
// Laws
// ---------------------------------------------------------------------------

/// White space is the blank, what breaks lines or moves on, and the further blanks of Unicode.
/// No letter, digit or mark of ASCII is.
pub proof fn white_space_is(c: char)
    ensures
        (c as u32) < 0x80 ==> (is_space(c) <==> c == ' ' || c == '\t' || c == '\n' || c == '\r'
            || c as u32 == 0xb || c as u32 == 0xc),
        0x80 <= c as u32 ==> (is_space(c) <==> c as u32 == 0x85 || c as u32 == 0xa0 || c as u32
            == 0x1680 || 0x2000 <= c as u32 <= 0x200a || c as u32 == 0x2028 || c as u32 == 0x2029
            || c as u32 == 0x202f || c as u32 == 0x205f || c as u32 == 0x3000),
{
}

proof fn front_is_cut(s: Seq<char>) -> (n: int)
    ensures
        0 <= n <= s.len(),
        trim_front(s) == s.skip(n),
        forall|i: int| 0 <= i < n ==> is_space(#[trigger] s[i]),
        n < s.len() ==> !is_space(s[n]),
    decreases s.len(),
{
    if s.len() > 0 && is_space(s[0]) {
        let m = front_is_cut(s.drop_first());
        assert(s.drop_first().skip(m) =~= s.skip(m + 1));
        assert forall|i: int| 0 <= i < m + 1 implies is_space(#[trigger] s[i]) by {
            if i > 0 {
                assert(is_space(s.drop_first()[i - 1]));
            }
        }
        m + 1
    } else {
        assert(s.skip(0) =~= s);
        0
    }
}

proof fn back_is_cut(s: Seq<char>) -> (n: int)
    ensures
        0 <= n <= s.len(),
        trim_back(s) == s.take(n),
        forall|i: int| n <= i < s.len() ==> is_space(#[trigger] s[i]),
        n > 0 ==> !is_space(s[n - 1]),
    decreases s.len(),
{
    if s.len() > 0 && is_space(s.last()) {
        let m = back_is_cut(s.drop_last());
        assert(s.drop_last().take(m) =~= s.take(m));
        assert forall|i: int| m <= i < s.len() implies is_space(#[trigger] s[i]) by {
            if i < s.len() - 1 {
                assert(is_space(s.drop_last()[i]));
            }
        }
        m
    } else {
        assert(s.take(s.len() as int) =~= s);
        s.len() as int
    }
}

/// Trimming takes white space away at the two ends, all of it, and nothing else.
pub proof fn only_white_space_is_trimmed(s: Seq<char>)
    ensures
        exists|i: int, j: int|
            0 <= i <= j <= s.len() && trim(s) == #[trigger] s.subrange(i, j) && (forall|k: int|
                0 <= k < s.len() && !(i <= k < j) ==> is_space(#[trigger] s[k])),
        trim(s).len() > 0 ==> !is_space(trim(s)[0]) && !is_space(trim(s).last()),
        s.len() > 0 && !is_space(s[0]) && !is_space(s.last()) ==> trim(s) == s,
{
    let i = front_is_cut(s);
    let rest = s.skip(i);
    let n = back_is_cut(rest);
    assert(rest.take(n) =~= s.subrange(i, i + n));
    assert forall|k: int| 0 <= k < s.len() && !(i <= k < i + n) implies is_space(
        #[trigger] s[k],
    ) by {
        if k >= i + n {
            assert(is_space(rest[k - i]));
        }
    }
    assert(trim(s) == s.subrange(i, i + n));
    if s.len() > 0 && !is_space(s[0]) && !is_space(s.last()) {
        assert(trim(s) =~= s);
    }
}

/// A text stands in another just where that is made of something, the text, and something more.
pub proof fn a_part_stands_between_two_others(s: Seq<char>, part: Seq<char>)
    ensures
        contains(s, part) <==> exists|a: Seq<char>, b: Seq<char>| s == #[trigger] (a + part + b),
        contains(s, part) ==> {
            let i = position(s, part);
            &&& 0 <= i && i + part.len() <= s.len()
            &&& s == s.take(i) + part + s.skip(i + part.len())
            &&& forall|a: Seq<char>, b: Seq<char>| s == #[trigger] (a + part + b) ==> i <= a.len()
        },
{
    if contains(s, part) {
        let at = choose|i: int| occurs_at(s, part, i);
        first_occurrence(s, part, at);
        let i = position(s, part);
        assert(first_at(s, part, i));
        assert(s =~= s.take(i) + s.subrange(i, i + part.len()) + s.skip(i + part.len()));
        assert(s == s.take(i) + part + s.skip(i + part.len()));
        assert forall|a: Seq<char>, b: Seq<char>| s == #[trigger] (a + part + b) implies i
            <= a.len() by {
            occurs_behind(a, part, b);
        }
    }
    if exists|a: Seq<char>, b: Seq<char>| s == #[trigger] (a + part + b) {
        let (a, b) = choose|a: Seq<char>, b: Seq<char>| s == #[trigger] (a + part + b);
        occurs_behind(a, part, b);
    }
}

proof fn occurs_behind(a: Seq<char>, part: Seq<char>, b: Seq<char>)
    ensures
        occurs_at(a + part + b, part, a.len() as int),
{
    assert((a + part + b).subrange(a.len() as int, (a.len() + part.len()) as int) =~= part);
}

proof fn first_occurrence(s: Seq<char>, part: Seq<char>, at: int)
    requires
        occurs_at(s, part, at),
    ensures
        exists|i: int| first_at(s, part, i),
    decreases at,
{
    if forall|j: int| 0 <= j < at ==> !occurs_at(s, part, j) {
        assert(first_at(s, part, at));
    } else {
        let j = choose|j: int| 0 <= j < at && occurs_at(s, part, j);
        first_occurrence(s, part, j);
    }
}

/// A suffix is cut off as often as it stands at the end, and nothing else is.
pub proof fn suffixes_are_cut_off(s: Seq<char>, suffix: Seq<char>)
    requires
        suffix.len() > 0,
    ensures
        without_suffixes(s + suffix, suffix) == without_suffixes(s, suffix),
        !suffix.is_suffix_of(s) ==> without_suffixes(s, suffix) == s,
{
    let long = s + suffix;
    assert(suffix =~= long.subrange(long.len() - suffix.len(), long.len() as int));
    assert(long.take(long.len() - suffix.len()) =~= s);
}

/// A text without the separator is one piece, and at each separator two texts are split, so that
/// the pieces of both follow one another.
pub proof fn texts_are_split_at_separators(a: Seq<char>, b: Seq<char>, sep: char)
    ensures
        !a.contains(sep) ==> split(a, sep) == seq![a],
        split(a + seq![sep] + b, sep) == split(a, sep) + split(b, sep),
    decreases a.len() + b.len(),
{
    if !a.contains(sep) {
        if a.len() == 0 {
            assert(a =~= Seq::empty());
        } else {
            let shorter = a.drop_last();
            assert forall|c: char| shorter.contains(c) implies a.contains(c) by {
                let i = choose|i: int| 0 <= i < shorter.len() && shorter[i] == c;
                assert(a[i] == c);
            }
            assert(a.contains(a.last()));
            texts_are_split_at_separators(shorter, Seq::empty(), sep);
            assert(shorter.push(a.last()) =~= a);
            assert(split(a, sep) =~= seq![a]);
        }
    }
    let whole = a + seq![sep] + b;
    if b.len() == 0 {
        assert(whole.drop_last() =~= a);
        assert(b =~= Seq::empty());
        assert(split(whole, sep) =~= split(a, sep) + split(b, sep));
    } else {
        let rest = b.drop_last();
        assert(whole.drop_last() =~= a + seq![sep] + rest);
        assert(whole.last() == b.last());
        texts_are_split_at_separators(a, rest, sep);
        pieces_make_up_the_text(rest, sep);
        assert(split(whole, sep) =~= split(a, sep) + split(b, sep));
    }
}

proof fn a_last_word_is_open(s: Seq<char>)
    requires
        s.len() > 0,
        !is_space(s.last()),
    ensures
        words(s).len() > 0,
{
}

/// A text without white space is one word, unless it is empty, and at white space two texts come
/// apart, so that the words of both follow one another.
pub proof fn words_come_apart_at_white_space(a: Seq<char>, c: char, b: Seq<char>)
    requires
        is_space(c),
    ensures
        words(Seq::empty()).len() == 0,
        a.len() > 0 && (forall|i: int| 0 <= i < a.len() ==> !is_space(#[trigger] a[i])) ==> words(a)
            == seq![a],
        words(a + seq![c] + b) == words(a) + words(b),
    decreases a.len() + b.len(),
{
    if a.len() > 0 && (forall|i: int| 0 <= i < a.len() ==> !is_space(#[trigger] a[i])) {
        assert(!is_space(a[a.len() - 1]));
        let shorter = a.drop_last();
        if shorter.len() == 0 {
            reveal_with_fuel(words, 2);
            assert(a =~= seq![a.last()]);
            assert(words(a) =~= seq![a]);
        } else {
            assert forall|i: int| 0 <= i < shorter.len() implies !is_space(#[trigger] shorter[i]) by {
                assert(!is_space(a[i]));
            }
            assert(!is_space(a[a.len() - 2]));
            words_come_apart_at_white_space(shorter, c, Seq::empty());
            assert(shorter.push(a.last()) =~= a);
            assert(words(a) =~= seq![a]);
        }
    }
    let whole = a + seq![c] + b;
    if b.len() == 0 {
        assert(whole.drop_last() =~= a);
        assert(words(whole) =~= words(a) + words(b));
    } else {
        let rest = b.drop_last();
        assert(whole.drop_last() =~= a + seq![c] + rest);
        assert(whole.last() == b.last());
        words_come_apart_at_white_space(a, c, rest);
        if !is_space(b.last()) && b.len() >= 2 && !is_space(b[b.len() - 2]) {
            assert(whole[whole.len() - 2] == b[b.len() - 2]);
            assert(rest.last() == b[b.len() - 2]);
            a_last_word_is_open(rest);
        } else if b.len() == 1 {
            assert(whole[whole.len() - 2] == c);
        } else {
            assert(whole[whole.len() - 2] == b[b.len() - 2]);
        }
        assert(words(whole) =~= words(a) + words(b));
    }
}

/// One part alone is joined to itself, and what two rows of parts are joined to stands one behind
/// the other with the separator between.
pub proof fn parts_are_joined_in_their_order(
    part: Seq<char>,
    a: Seq<Seq<char>>,
    b: Seq<Seq<char>>,
    sep: Seq<char>,
)
    ensures
        join(Seq::empty(), sep).len() == 0,
        join(seq![part], sep) == part,
        a.len() > 0 && b.len() > 0 ==> join(a + b, sep) == join(a, sep) + sep + join(b, sep),
    decreases b.len(),
{
    if a.len() > 0 && b.len() > 0 {
        let whole = a + b;
        assert(whole.drop_last() =~= a + b.drop_last());
        assert(whole.last() == b.last());
        if b.len() == 1 {
            assert(whole.drop_last() =~= a);
        } else {
            parts_are_joined_in_their_order(part, a, b.drop_last(), sep);
            assert(join(whole, sep) =~= join(a, sep) + sep + join(b, sep));
        }
    }
}

/// The head of a text is a beginning of it: all of the text, or as many characters as were asked
/// for.
pub proof fn a_head_is_a_beginning(s: Seq<char>, n: int)
    requires
        0 <= n,
    ensures
        head(s, n).len() == if s.len() < n {
            s.len() as int
        } else {
            n
        },
        forall|i: int| 0 <= i < head(s, n).len() ==> head(s, n)[i] == s[i],
{
}

/// A text in ASCII takes a byte for each character, and is taken apart at any of them.
pub proof fn ascii_takes_a_byte_each(s: Seq<char>, from: int, to: int)
    requires
        is_ascii_chars(s),
        0 <= from <= to <= s.len(),
    ensures
        byte_size(s) == s.len(),
        splits_at(s, from),
        byte_range(s, from, to) == s.subrange(from, to),
{
    let bytes = encode_utf8(s);
    is_ascii_chars_encode_utf8(s);
    encode_utf8_valid_utf8(s);
    assert(bytes =~= Seq::new(s.len(), |i: int| s[i] as u8));
    if from < s.len() {
        is_ascii_chars_nat_bound(s);
        assert(bytes[from] == s[from] as u8);
        is_char_boundary_iff_not_is_continuation_byte(bytes, from);
    } else {
        is_char_boundary_start_end_of_seq(bytes);
    }
    let part = s.subrange(from, to);
    assert(is_ascii_chars(part));
    is_ascii_chars_encode_utf8(part);
    assert(bytes.subrange(from, to) =~= encode_utf8(part));
    encode_utf8_decode_utf8(part);
}

/// An optional string holds its text where there is one, and strings one after the other hold
/// theirs in the same order.
pub proof fn strings_hold_their_texts(s: String, t: &str, strings: Seq<String>, i: int)
    ensures
        owned_text(Some(s)) == Some(s@) && owned_text(None) is None,
        text_of(Some(t)) == Some(t@) && text_of(None) is None,
        texts(strings).len() == strings.len(),
        0 <= i < strings.len() ==> texts(strings)[i] == strings[i]@,
{
}

} // verus!
