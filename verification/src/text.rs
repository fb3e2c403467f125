//! Text as sequences of characters: searching, joining, splitting and
//! decimal notation.

use vstd::prelude::*;
use vstd::string::*;

verus! {

/// `needle` stands in `hay` at position `at`.
pub open spec fn occurs_at(hay: Seq<char>, needle: Seq<char>, at: int) -> bool {
    &&& 0 <= at
    &&& at + needle.len() <= hay.len()
    &&& hay.subrange(at, at + needle.len()) == needle
}

/// `needle` stands somewhere in `hay`.
pub open spec fn contains_text(hay: Seq<char>, needle: Seq<char>) -> bool {
    exists|at: int| occurs_at(hay, needle, at)
}

/// The characters of a string, in order.
pub fn chars_of(s: &str) -> (v: Vec<char>)
    ensures
        v@ == s@,
{
    let mut v: Vec<char> = Vec::new();
    for c in it: s.chars()
        invariant
            v@ == s@.take(it.index() as int),
            it.seq() == s@,
    {
        v.push(c);
    }
    v
}

/// Whether two strings hold the same characters.
pub fn same_text(a: &str, b: &str) -> (same: bool)
    ensures
        same == (a@ == b@),
{
    let x = a.to_owned();
    let y = b.to_owned();
    x == y
}

/// A copy of an optional string.
pub fn copy_text(text: &Option<String>) -> (copy: Option<String>)
    ensures
        copy.deep_view() == text.deep_view(),
{
    match text {
        Some(t) => Some(t.clone()),
        None => None,
    }
}

/// `left`, then `middle`, then `right`.
pub fn concat3(left: &str, middle: &str, right: &str) -> (whole: String)
    ensures
        whole@ == left@ + middle@ + right@,
{
    let mut whole = String::from_str(left);
    whole.append(middle);
    whole.append(right);
    whole
}

/// Whether `needle` stands in `hay` at position `at`.
pub fn matches_at(hay: &Vec<char>, needle: &Vec<char>, at: usize) -> (found: bool)
    ensures
        found == occurs_at(hay@, needle@, at as int),
{
    if needle.len() > hay.len() || at > hay.len() - needle.len() {
        return false;
    }
    let mut k: usize = 0;
    while k < needle.len()
        invariant
            k <= needle.len(),
            at + needle.len() <= hay.len(),
            forall|j: int| 0 <= j < k ==> hay@[at + j] == needle@[j],
        decreases needle.len() - k,
    {
        if hay[at + k] != needle[k] {
            assert(hay@.subrange(at as int, at + needle.len())[k as int] == hay@[at + k]);
            return false;
        }
        k = k + 1;
    }
    assert(hay@.subrange(at as int, at + needle.len()) =~= needle@);
    true
}

/// Whether `needle` stands somewhere in `hay`.
pub fn contains(hay: &str, needle: &str) -> (found: bool)
    ensures
        found == contains_text(hay@, needle@),
{
    let h = chars_of(hay);
    let n = chars_of(needle);
    if n.len() > h.len() {
        return false;
    }
    let last: usize = h.len() - n.len();
    let mut at: usize = 0;
    while at < last
        invariant
            at <= last,
            last == h.len() - n.len(),
            n.len() <= h.len(),
            h@ == hay@,
            n@ == needle@,
            forall|j: int| 0 <= j < at ==> !occurs_at(h@, n@, j),
        decreases last - at,
    {
        if matches_at(&h, &n, at) {
            return true;
        }
        at = at + 1;
    }
    matches_at(&h, &n, last)
}

/// The parts in order, with `sep` between each two neighbours.
pub open spec fn join_text(parts: Seq<Seq<char>>, sep: Seq<char>) -> Seq<char>
    decreases parts.len(),
{
    if parts.len() == 0 {
        Seq::empty()
    } else if parts.len() == 1 {
        parts[0]
    } else {
        join_text(parts.drop_last(), sep) + sep + parts.last()
    }
}

/// The views of the strings of a sequence.
pub open spec fn texts_of(parts: Seq<String>) -> Seq<Seq<char>> {
    Seq::new(parts.len(), |i: int| parts[i]@)
}

/// Joins the parts in order, with `sep` between each two neighbours.
pub fn join(parts: &Vec<String>, sep: &str) -> (joined: String)
    ensures
        joined@ == join_text(texts_of(parts@), sep@),
{
    let mut joined = String::new();
    let mut i: usize = 0;
    while i < parts.len()
        invariant
            i <= parts.len(),
            joined@ == join_text(texts_of(parts@).take(i as int), sep@),
        decreases parts.len() - i,
    {
        let ghost before = texts_of(parts@).take(i as int);
        let ghost after = texts_of(parts@).take(i + 1);
        assert(after.drop_last() =~= before);
        assert(after.last() == parts@[i as int]@);
        if i > 0 {
            joined.append(sep);
        }
        joined.append(parts[i].as_str());
        assert(joined@ =~= join_text(after, sep@));
        i = i + 1;
    }
    assert(texts_of(parts@).take(parts.len() as int) =~= texts_of(parts@));
    joined
}

/// The pieces of `text` between the occurrences of `sep`, found from left
/// to right from position `at` on without overlap; `start` is where the
/// piece that is being read began. A text without the separator is one
/// piece, and so is any text where the separator is empty.
pub open spec fn split_from(text: Seq<char>, sep: Seq<char>, start: int, at: int) -> Seq<Seq<char>>
    decreases text.len() - at,
{
    if sep.len() == 0 || start < 0 || at < start || at + sep.len() > text.len() {
        seq![text.subrange(start, text.len() as int)]
    } else if occurs_at(text, sep, at) {
        seq![text.subrange(start, at)] + split_from(text, sep, at + sep.len(), at + sep.len())
    } else {
        split_from(text, sep, start, at + 1)
    }
}

/// The pieces of `text` between the occurrences of `sep`, found from left
/// to right without overlap.
pub open spec fn split_text(text: Seq<char>, sep: Seq<char>) -> Seq<Seq<char>> {
    split_from(text, sep, 0, 0)
}

/// Splits `text` at the occurrences of `sep`, found from left to right
/// without overlap.
pub fn split(text: &str, sep: &str) -> (pieces: Vec<String>)
    ensures
        texts_of(pieces@) == split_text(text@, sep@),
{
    let t = chars_of(text);
    let s = chars_of(sep);
    let mut pieces: Vec<String> = Vec::new();
    if s.len() == 0 || s.len() > t.len() {
        pieces.push(text.to_owned());
        assert(text@.subrange(0, text@.len() as int) =~= text@);
        assert(texts_of(pieces@) =~= split_text(text@, sep@));
        return pieces;
    }
    let mut start: usize = 0;
    let mut at: usize = 0;
    while at <= t.len() - s.len()
        invariant
            t@ == text@,
            s@ == sep@,
            0 < s.len() <= t.len(),
            start <= at <= t.len(),
            texts_of(pieces@) + split_from(t@, s@, start as int, at as int) == split_text(t@, s@),
        decreases t.len() - at,
    {
        if matches_at(&t, &s, at) {
            let ghost before = texts_of(pieces@);
            let piece = text.substring_char(start, at);
            pieces.push(piece.to_owned());
            assert(texts_of(pieces@) =~= before + seq![t@.subrange(start as int, at as int)]);
            at = at + s.len();
            start = at;
        } else {
            at = at + 1;
        }
    }
    let ghost before = texts_of(pieces@);
    let piece = text.substring_char(start, t.len());
    pieces.push(piece.to_owned());
    assert(texts_of(pieces@) =~= before + seq![t@.subrange(start as int, t@.len() as int)]);
    pieces
}

/// The separator does not begin inside `part` when it follows it: a text
/// that is joined with others can be cut off again where it ends.
pub open spec fn free_of(part: Seq<char>, sep: Seq<char>) -> bool {
    forall|k: int| 0 <= k < part.len() ==> !occurs_at(part + sep, sep, k)
}

/// Every part is free of the separator.
pub open spec fn all_free_of(parts: Seq<Seq<char>>, sep: Seq<char>) -> bool {
    forall|i: int| 0 <= i < parts.len() ==> free_of(#[trigger] parts[i], sep)
}

/// A joined text is its first part, the separator, and the rest joined.
pub proof fn lemma_join_first(parts: Seq<Seq<char>>, sep: Seq<char>)
    requires
        parts.len() >= 2,
    ensures
        join_text(parts, sep) == parts[0] + sep + join_text(parts.subrange(1, parts.len() as int), sep),
    decreases parts.len(),
{
    let rest = parts.subrange(1, parts.len() as int);
    if parts.len() == 2 {
        assert(parts.drop_last().len() == 1);
        assert(join_text(parts.drop_last(), sep) == parts[0]);
        assert(join_text(rest, sep) == parts[1]);
    } else {
        lemma_join_first(parts.drop_last(), sep);
        assert(parts.drop_last().subrange(1, parts.len() - 1) =~= rest.drop_last());
        assert(rest.last() == parts.last());
        assert(join_text(rest, sep) == join_text(rest.drop_last(), sep) + sep + rest.last());
        assert(join_text(parts, sep) =~= parts[0] + sep + join_text(rest, sep));
    }
}

/// Where the separator first stands at `end`, the piece that is being read
/// ends there and the reading goes on behind the separator.
pub proof fn lemma_split_piece(text: Seq<char>, sep: Seq<char>, start: int, at: int, end: int)
    requires
        sep.len() > 0,
        0 <= start <= at <= end,
        occurs_at(text, sep, end),
        forall|k: int| at <= k < end ==> !occurs_at(text, sep, k),
    ensures
        split_from(text, sep, start, at) == seq![text.subrange(start, end)] + split_from(
            text,
            sep,
            end + sep.len(),
            end + sep.len(),
        ),
    decreases end - at,
{
    if at < end {
        lemma_split_piece(text, sep, start, at + 1, end);
    }
}

/// Where the separator stands nowhere from `at` on, the rest of the text is
/// the last piece.
pub proof fn lemma_split_last(text: Seq<char>, sep: Seq<char>, start: int, at: int)
    requires
        0 <= start <= at,
        forall|k: int| at <= k ==> !occurs_at(text, sep, k),
    ensures
        split_from(text, sep, start, at) == seq![text.subrange(start, text.len() as int)],
    decreases text.len() - at,
{
    if !(sep.len() == 0 || at + sep.len() > text.len()) {
        lemma_split_last(text, sep, start, at + 1);
    }
}

/// Reading a text from `start`, where what follows is parts joined by the
/// separator and every part is free of it, gives the parts back.
pub proof fn lemma_split_joined_from(
    parts: Seq<Seq<char>>,
    sep: Seq<char>,
    text: Seq<char>,
    start: int,
)
    requires
        sep.len() > 0,
        parts.len() >= 1,
        all_free_of(parts, sep),
        0 <= start <= text.len(),
        text.subrange(start, text.len() as int) == join_text(parts, sep),
    ensures
        split_from(text, sep, start, start) == parts,
    decreases parts.len(),
{
    let first = parts[0];
    let tail = text.subrange(start, text.len() as int);
    assert(free_of(first, sep));
    if parts.len() == 1 {
        assert(tail == first);
        assert forall|k: int| start <= k implies !occurs_at(text, sep, k) by {
            if occurs_at(text, sep, k) {
                assert((first + sep).subrange(k - start, k - start + sep.len()) =~= text.subrange(
                    k,
                    k + sep.len(),
                ));
                assert(occurs_at(first + sep, sep, k - start));
            }
        }
        lemma_split_last(text, sep, start, start);
        assert(seq![tail] =~= parts);
    } else {
        let rest = parts.subrange(1, parts.len() as int);
        lemma_join_first(parts, sep);
        let end = start + first.len();
        assert(tail == first + sep + join_text(rest, sep));
        assert(text.len() - start == first.len() + sep.len() + join_text(rest, sep).len());
        let joined_rest = join_text(rest, sep);
        assert forall|i: int| start <= i < end + sep.len() implies #[trigger] text[i] == (first
            + sep)[i - start] by {
            assert(tail[i - start] == text[i]);
            assert(tail[i - start] == (first + sep + joined_rest)[i - start]);
        }
        assert forall|j: int| 0 <= j < sep.len() implies #[trigger] text.subrange(
            end,
            end + sep.len(),
        )[j] == sep[j] by {
            assert(text[end + j] == (first + sep)[end + j - start]);
        }
        assert(text.subrange(end, end + sep.len()) =~= sep);
        assert forall|k: int| start <= k < end implies !occurs_at(text, sep, k) by {
            if occurs_at(text, sep, k) {
                assert forall|j: int| 0 <= j < sep.len() implies #[trigger] (first + sep).subrange(
                    k - start,
                    k - start + sep.len(),
                )[j] == text.subrange(k, k + sep.len())[j] by {
                    assert(text[k + j] == (first + sep)[k + j - start]);
                }
                assert((first + sep).subrange(k - start, k - start + sep.len()) =~= text.subrange(
                    k,
                    k + sep.len(),
                ));
                assert(occurs_at(first + sep, sep, k - start));
            }
        }
        lemma_split_piece(text, sep, start, start, end);
        assert(text.subrange(start, end) =~= first);
        let next = end + sep.len();
        assert forall|j: int| 0 <= j < joined_rest.len() implies #[trigger] text.subrange(
            next,
            text.len() as int,
        )[j] == joined_rest[j] by {
            assert(tail[first.len() + sep.len() + j] == text[start + (first.len() + sep.len() + j)]);
            assert(tail[first.len() + sep.len() + j] == (first + sep + joined_rest)[first.len()
                + sep.len() + j]);
        }
        assert(text.subrange(next, text.len() as int) =~= joined_rest);
        assert forall|i: int| 0 <= i < rest.len() implies free_of(#[trigger] rest[i], sep) by {
            assert(rest[i] == parts[i + 1]);
        }
        lemma_split_joined_from(rest, sep, text, next);
        assert(seq![first] + rest =~= parts);
    }
}

/// Splitting undoes joining: at least one part, each free of the separator,
/// joined by it and split at it again, are the parts.
pub proof fn lemma_split_undoes_join(parts: Seq<Seq<char>>, sep: Seq<char>)
    requires
        sep.len() > 0,
        parts.len() >= 1,
        all_free_of(parts, sep),
    ensures
        split_text(join_text(parts, sep), sep) == parts,
{
    let text = join_text(parts, sep);
    assert(text.subrange(0, text.len() as int) =~= text);
    lemma_split_joined_from(parts, sep, text, 0);
}

/// A text that does not hold ", " is free of it.
pub proof fn lemma_free_of_comma_space(part: Seq<char>)
    requires
        !contains_text(part, ", "@),
    ensures
        free_of(part, ", "@),
{
    reveal_strlit(", ");
    let sep = ", "@;
    assert(sep.len() == 2 && sep[0] == ',' && sep[1] == ' ');
    assert forall|k: int| 0 <= k < part.len() implies !occurs_at(part + sep, sep, k) by {
        if occurs_at(part + sep, sep, k) {
            let found = (part + sep).subrange(k, k + 2);
            assert(found[0] == ',' && found[1] == ' ');
            assert((part + sep)[k] == ',' && (part + sep)[k + 1] == ' ');
            if k + 1 < part.len() {
                assert(part.subrange(k, k + 2) =~= sep);
                assert(occurs_at(part, sep, k));
            } else {
                assert((part + sep)[k + 1] == sep[0]);
            }
        }
    }
}

/// The character that writes a digit.
pub open spec fn digit_char(d: int) -> char {
    if d == 0 {
        '0'
    } else if d == 1 {
        '1'
    } else if d == 2 {
        '2'
    } else if d == 3 {
        '3'
    } else if d == 4 {
        '4'
    } else if d == 5 {
        '5'
    } else if d == 6 {
        '6'
    } else if d == 7 {
        '7'
    } else if d == 8 {
        '8'
    } else {
        '9'
    }
}

/// The decimal digits of a natural number, most significant first, without
/// leading zeros.
pub open spec fn digits_text(n: nat) -> Seq<char>
    decreases n,
{
    if n < 10 {
        seq![digit_char(n as int)]
    } else {
        digits_text(n / 10).push(digit_char((n % 10) as int))
    }
}

/// The decimal notation of an integer: a minus sign for a negative one, then
/// its digits.
pub open spec fn decimal_text(v: int) -> Seq<char> {
    if v < 0 {
        seq!['-'] + digits_text((-v) as nat)
    } else {
        digits_text(v as nat)
    }
}

/// The one-character string that writes a digit.
fn digit_str(d: u64) -> (s: &'static str)
    requires
        d < 10,
    ensures
        s@ == seq![digit_char(d as int)],
{
    proof {
        reveal_strlit("0");
        reveal_strlit("1");
        reveal_strlit("2");
        reveal_strlit("3");
        reveal_strlit("4");
        reveal_strlit("5");
        reveal_strlit("6");
        reveal_strlit("7");
        reveal_strlit("8");
        reveal_strlit("9");
    }
    let s = if d == 0 {
        "0"
    } else if d == 1 {
        "1"
    } else if d == 2 {
        "2"
    } else if d == 3 {
        "3"
    } else if d == 4 {
        "4"
    } else if d == 5 {
        "5"
    } else if d == 6 {
        "6"
    } else if d == 7 {
        "7"
    } else if d == 8 {
        "8"
    } else {
        "9"
    };
    assert(s@ =~= seq![digit_char(d as int)]);
    s
}

/// The decimal digits of a natural number.
pub fn digits(n: u64) -> (s: String)
    ensures
        s@ == digits_text(n as nat),
    decreases n,
{
    if n < 10 {
        String::from_str(digit_str(n))
    } else {
        let mut s = digits(n / 10);
        s.append(digit_str(n % 10));
        assert(s@ =~= digits_text((n / 10) as nat).push(digit_char((n % 10) as int)));
        s
    }
}

/// The decimal notation of an integer.
pub fn decimal(v: i64) -> (s: String)
    ensures
        s@ == decimal_text(v as int),
{
    if v < 0 {
        let magnitude: u64 = ((-(v + 1)) as u64) + 1;
        let mut s = String::from_str("-");
        proof {
            reveal_strlit("-");
            assert("-"@ =~= seq!['-']);
        }
        let d = digits(magnitude);
        s.append(d.as_str());
        s
    } else {
        digits(v as u64)
    }
}

/// The text with each of its letters in lower case, as Unicode defines it.
pub uninterp spec fn lowercase_text(text: Seq<char>) -> Seq<char>;

/// Calls `str::to_lowercase` of the standard library. The contract names the
/// result, which depends on the characters of the argument alone; nothing is
/// claimed of what it holds.
#[verifier::external_body]
pub(crate) fn lowercase(text: &str) -> (lowered: String)
    ensures
        lowered@ == lowercase_text(text@),
{
    text.to_lowercase()
}

} // verus!
