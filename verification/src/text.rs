//! Text as sequences of characters: trimming, searching, splitting and
//! decimal numbers, each with an executable function proved against its model.

use vstd::prelude::*;
use vstd::string::*;
use vstd::utf8::*;

verus! {

/// `String::push` of std: the character goes to the end of the string.
pub assume_specification[ std::string::String::push ](buffer: &mut std::string::String, added: char)
    ensures
        final(buffer)@ == old(buffer)@.push(added),
;

// ---------------------------------------------------------------------------
// Equality, length, characters
// ---------------------------------------------------------------------------
/// The number of bytes that a text takes in UTF-8.
pub open spec fn utf8_len(text: Seq<char>) -> nat {
    encode_utf8(text).len()
}

/// Whether two strings hold the same characters.
pub fn same(left: &str, right: &str) -> (r: bool)
    ensures
        r == (left@ == right@),
{
    let a = left.as_bytes();
    let b = right.as_bytes();
    proof {
        encode_utf8_decode_utf8(left@);
        encode_utf8_decode_utf8(right@);
    }
    if a.len() != b.len() {
        return false;
    }
    let mut i: usize = 0;
    while i < a.len()
        invariant
            a.len() == b.len(),
            i <= a.len(),
            a@ == encode_utf8(left@),
            b@ == encode_utf8(right@),
            forall|j: int| 0 <= j < i ==> a@[j] == b@[j],
        decreases a.len() - i,
    {
        if a[i] != b[i] {
            return false;
        }
        i += 1;
    }
    assert(a@ =~= b@);
    true
}

/// The number of bytes of a string.
pub fn byte_len(text: &str) -> (r: usize)
    ensures
        r == utf8_len(text@),
{
    text.as_bytes().len()
}

/// The characters of a string.
pub fn chars_of(text: &str) -> (r: Vec<char>)
    ensures
        r@ == text@,
{
    let mut out: Vec<char> = Vec::new();
    for item in it: text.chars()
        invariant
            out@ == it.seq().take(it.index() as int),
    {
        out.push(item);
    }
    out
}

/// Two texts, one after the other.
pub fn join2(first: &str, second: &str) -> (r: String)
    ensures
        r@ == first@ + second@,
{
    let mut out = first.to_string();
    out.append(second);
    out
}

/// Three texts, one after the other.
pub fn join3(first: &str, second: &str, third: &str) -> (r: String)
    ensures
        r@ == first@ + second@ + third@,
{
    let mut out = join2(first, second);
    out.append(third);
    out
}

/// The string that holds the characters `from..to` of `items`.
pub fn text_of(items: &Vec<char>, from: usize, to: usize) -> (r: String)
    requires
        from <= to <= items@.len(),
    ensures
        r@ == items@.subrange(from as int, to as int),
{
    let mut out = String::new();
    let mut i: usize = from;
    while i < to
        invariant
            from <= i <= to <= items@.len(),
            out@ == items@.subrange(from as int, i as int),
        decreases to - i,
    {
        out.push(items[i]);
        assert(items@.subrange(from as int, i as int).push(items@[i as int]) =~= items@.subrange(
            from as int,
            i + 1,
        ));
        i += 1;
    }
    out
}

/// Whether `list` holds a string with the characters of `item`.
pub fn listed(list: &Vec<String>, item: &str) -> (r: bool)
    ensures
        r == texts(list@).contains(item@),
{
    let mut i: usize = 0;
    while i < list.len()
        invariant
            i <= list.len(),
            forall|j: int| 0 <= j < i ==> list@[j]@ != item@,
        decreases list.len() - i,
    {
        if same(list[i].as_str(), item) {
            assert(texts(list@)[i as int] == item@);
            return true;
        }
        i += 1;
    }
    assert forall|j: int| 0 <= j < texts(list@).len() implies texts(list@)[j] != item@ by {
        assert(list@[j]@ != item@);
    }
    false
}

/// The characters of each string of a list.
pub open spec fn texts(list: Seq<String>) -> Seq<Seq<char>> {
    list.map_values(|item: String| item@)
}

/// The characters of an optional string.
pub open spec fn text_opt(item: Option<String>) -> Option<Seq<char>> {
    match item {
        Some(text) => Some(text@),
        None => None,
    }
}

/// The characters of an optional text.
pub open spec fn str_opt(item: Option<&str>) -> Option<Seq<char>> {
    match item {
        Some(content) => Some(content@),
        None => None,
    }
}

/// What a result says.
pub open spec fn result_view(r: Result<String, String>) -> Result<Seq<char>, Seq<char>> {
    match r {
        Ok(content) => Ok(content@),
        Err(reason) => Err(reason@),
    }
}

/// A copy of a list of strings.
pub fn copy_list(list: &Vec<String>) -> (r: Vec<String>)
    ensures
        texts(r@) == texts(list@),
{
    let mut out: Vec<String> = Vec::new();
    let mut i: usize = 0;
    while i < list.len()
        invariant
            i <= list.len(),
            out@.len() == i,
            forall|j: int| 0 <= j < i ==> (#[trigger] out@[j])@ == list@[j]@,
        decreases list.len() - i,
    {
        out.push(list[i].clone());
        i += 1;
    }
    assert(texts(out@) =~= texts(list@));
    out
}

/// A copy of an optional string.
pub fn copy_opt(item: &Option<String>) -> (r: Option<String>)
    ensures
        text_opt(r) == text_opt(*item),
{
    match item {
        Some(text) => Some(text.clone()),
        None => None,
    }
}

// ---------------------------------------------------------------------------
// Classes of characters
// ---------------------------------------------------------------------------
/// The characters with the Unicode property `White_Space`.
pub open spec fn is_white(item: char) -> bool {
    ||| '\u{9}' <= item <= '\u{d}'
    ||| item == ' '
    ||| item == '\u{85}'
    ||| item == '\u{a0}'
    ||| item == '\u{1680}'
    ||| '\u{2000}' <= item <= '\u{200a}'
    ||| item == '\u{2028}'
    ||| item == '\u{2029}'
    ||| item == '\u{202f}'
    ||| item == '\u{205f}'
    ||| item == '\u{3000}'
}

pub open spec fn is_lower(item: char) -> bool {
    'a' <= item <= 'z'
}

pub open spec fn is_upper(item: char) -> bool {
    'A' <= item <= 'Z'
}

pub open spec fn is_digit(item: char) -> bool {
    '0' <= item <= '9'
}

/// ASCII letters and digits.
pub open spec fn is_alnum(item: char) -> bool {
    is_lower(item) || is_upper(item) || is_digit(item)
}

pub fn white(item: char) -> (r: bool)
    ensures
        r == is_white(item),
{
    ('\u{9}' <= item && item <= '\u{d}') || item == ' ' || item == '\u{85}' || item == '\u{a0}'
        || item == '\u{1680}' || ('\u{2000}' <= item && item <= '\u{200a}') || item == '\u{2028}'
        || item == '\u{2029}' || item == '\u{202f}' || item == '\u{205f}' || item == '\u{3000}'
}

pub fn lower(item: char) -> (r: bool)
    ensures
        r == is_lower(item),
{
    'a' <= item && item <= 'z'
}

pub fn digit(item: char) -> (r: bool)
    ensures
        r == is_digit(item),
{
    '0' <= item && item <= '9'
}

pub fn alnum(item: char) -> (r: bool)
    ensures
        r == is_alnum(item),
{
    lower(item) || ('A' <= item && item <= 'Z') || digit(item)
}

// ---------------------------------------------------------------------------
// Trimming
// ---------------------------------------------------------------------------
/// `text` without its leading white space.
pub open spec fn trimmed_start(text: Seq<char>) -> Seq<char>
    decreases text.len(),
{
    if text.len() > 0 && is_white(text.first()) {
        trimmed_start(text.drop_first())
    } else {
        text
    }
}

/// `text` without its trailing white space.
pub open spec fn trimmed_end(text: Seq<char>) -> Seq<char>
    decreases text.len(),
{
    if text.len() > 0 && is_white(text.last()) {
        trimmed_end(text.drop_last())
    } else {
        text
    }
}

/// `text` without the white space at both ends.
pub open spec fn trimmed(text: Seq<char>) -> Seq<char> {
    trimmed_end(trimmed_start(text))
}

/// A trimmed text neither starts nor ends with white space, and trimming it
/// again changes nothing.
pub proof fn trimmed_is_tight(text: Seq<char>)
    ensures
        trimmed(text).len() > 0 ==> !is_white(trimmed(text).first()) && !is_white(
            trimmed(text).last(),
        ),
        trimmed(trimmed(text)) == trimmed(text),
{
    trimmed_start_is_tight(text);
    trimmed_end_is_tight(trimmed_start(text));
}

proof fn trimmed_start_is_tight(text: Seq<char>)
    ensures
        trimmed_start(text).len() > 0 ==> !is_white(trimmed_start(text).first()),
    decreases text.len(),
{
    if text.len() > 0 && is_white(text.first()) {
        trimmed_start_is_tight(text.drop_first());
    }
}

proof fn trimmed_end_is_tight(text: Seq<char>)
    ensures
        trimmed_end(text).len() > 0 ==> !is_white(trimmed_end(text).last()),
        trimmed_end(text).len() > 0 ==> trimmed_end(text).first() == text.first(),
        trimmed_end(text).len() <= text.len(),
    decreases text.len(),
{
    if text.len() > 0 && is_white(text.last()) {
        trimmed_end_is_tight(text.drop_last());
    }
}

/// Trimming takes a contiguous part of the text.
pub proof fn trimmed_is_part(text: Seq<char>)
    ensures
        exists|from: int, to: int|
            0 <= from <= to <= text.len() && trimmed(text) == #[trigger] text.subrange(from, to),
{
    trimmed_start_is_part(text);
    let from = choose|from: int|
        0 <= from <= text.len() && trimmed_start(text) == #[trigger] text.skip(from);
    let rest = text.skip(from);
    trimmed_end_is_part(rest);
    let to = choose|to: int| 0 <= to <= rest.len() && trimmed_end(rest) == #[trigger] rest.take(to);
    assert(rest.take(to) =~= text.subrange(from, from + to));
}

proof fn trimmed_start_is_part(text: Seq<char>)
    ensures
        exists|from: int|
            0 <= from <= text.len() && trimmed_start(text) == #[trigger] text.skip(from),
    decreases text.len(),
{
    if text.len() > 0 && is_white(text.first()) {
        let rest = text.drop_first();
        trimmed_start_is_part(rest);
        let from = choose|from: int|
            0 <= from <= rest.len() && trimmed_start(rest) == #[trigger] rest.skip(from);
        assert(rest.skip(from) =~= text.skip(from + 1));
    } else {
        assert(text.skip(0) =~= text);
    }
}

proof fn trimmed_end_is_part(text: Seq<char>)
    ensures
        exists|to: int| 0 <= to <= text.len() && trimmed_end(text) == #[trigger] text.take(to),
    decreases text.len(),
{
    if text.len() > 0 && is_white(text.last()) {
        let rest = text.drop_last();
        trimmed_end_is_part(rest);
        let to = choose|to: int|
            0 <= to <= rest.len() && trimmed_end(rest) == #[trigger] rest.take(to);
        assert(rest.take(to) =~= text.take(to));
    } else {
        assert(text.take(text.len() as int) =~= text);
    }
}

/// `text` without the white space at both ends.
pub fn trim(text: &str) -> (r: &str)
    ensures
        r@ == trimmed(text@),
{
    let items = chars_of(text);
    let mut from: usize = 0;
    assert(items@.skip(0) =~= items@);
    while from < items.len() && white(items[from])
        invariant
            from <= items.len(),
            trimmed_start(items@) == trimmed_start(items@.skip(from as int)),
        decreases items.len() - from,
    {
        assert(items@.skip(from as int).drop_first() =~= items@.skip(from + 1));
        from += 1;
    }
    let ghost rest = items@.skip(from as int);
    assert(trimmed_start(items@) == rest);
    let mut to: usize = items.len();
    assert(items@.subrange(from as int, to as int) =~= rest);
    while to > from && white(items[to - 1])
        invariant
            from <= to <= items.len(),
            trimmed_end(rest) == trimmed_end(items@.subrange(from as int, to as int)),
        decreases to,
    {
        assert(items@.subrange(from as int, to as int).drop_last() =~= items@.subrange(
            from as int,
            to - 1,
        ));
        to -= 1;
    }
    text.substring_char(from, to)
}

// ---------------------------------------------------------------------------
// Searching and splitting
// ---------------------------------------------------------------------------
/// `part` stands in `text` at `at`.
pub open spec fn occurs_at(text: Seq<char>, part: Seq<char>, at: int) -> bool {
    0 <= at && at + part.len() <= text.len() && text.subrange(at, at + part.len()) == part
}

/// `part` stands somewhere in `text`.
pub open spec fn holds(text: Seq<char>, part: Seq<char>) -> bool {
    exists|at: int| occurs_at(text, part, at)
}

/// The first place at or after `from` where `part` stands in `text`.
pub open spec fn find_from(text: Seq<char>, part: Seq<char>, from: int) -> Option<int>
    decreases text.len() + 1 - from,
{
    if from + part.len() > text.len() {
        None
    } else if occurs_at(text, part, from) {
        Some(from)
    } else {
        find_from(text, part, from + 1)
    }
}

/// The first place where `part` stands in `text`.
pub open spec fn find(text: Seq<char>, part: Seq<char>) -> Option<int> {
    find_from(text, part, 0)
}

/// `find_from` gives the least place, and none only where there is none.
pub proof fn find_from_is_first(text: Seq<char>, part: Seq<char>, from: int)
    requires
        0 <= from,
    ensures
        match find_from(text, part, from) {
            Some(at) => from <= at && occurs_at(text, part, at) && forall|j: int|
                from <= j < at ==> !occurs_at(text, part, j),
            None => forall|j: int| from <= j ==> !occurs_at(text, part, j),
        },
    decreases text.len() + 1 - from,
{
    if from + part.len() <= text.len() && !occurs_at(text, part, from) {
        find_from_is_first(text, part, from + 1);
    }
}

/// Where `items` holds `part` first, from `from` on.
pub fn position(items: &Vec<char>, part: &Vec<char>, from: usize) -> (r: Option<usize>)
    requires
        from <= items@.len(),
    ensures
        match r {
            Some(at) => find_from(items@, part@, from as int) == Some(at as int),
            None => find_from(items@, part@, from as int) is None,
        },
{
    if part.len() > items.len() - from {
        return None;
    }
    let size = items.len();
    let last = size - part.len();
    let mut at: usize = from;
    loop
        invariant
            size == items@.len(),
            last == size - part@.len(),
            from <= at <= last,
            find_from(items@, part@, from as int) == find_from(items@, part@, at as int),
        decreases last - at,
    {
        let mut k: usize = 0;
        while k < part.len() && items[at + k] == part[k]
            invariant
                size == items@.len(),
                last == size - part@.len(),
                at <= last,
                k <= part@.len(),
                forall|j: int| 0 <= j < k ==> items@[at + j] == part@[j],
            decreases part@.len() - k,
        {
            k += 1;
        }
        if k == part.len() {
            assert(items@.subrange(at as int, at + part@.len()) =~= part@);
            return Some(at);
        }
        assert(!occurs_at(items@, part@, at as int)) by {
            assert(items@.subrange(at as int, at + part@.len())[k as int] == items@[at + k]);
        }
        if at == last {
            assert(find_from(items@, part@, at + 1) is None);
            return None;
        }
        at += 1;
    }
}

/// Whether `part` stands somewhere in `text`.
pub fn contains(text: &str, part: &str) -> (r: bool)
    ensures
        r == holds(text@, part@),
{
    proof {
        find_from_is_first(text@, part@, 0);
    }
    match position(&chars_of(text), &chars_of(part), 0) {
        Some(_) => true,
        None => {
            assert(forall|j: int| !occurs_at(text@, part@, j));
            false
        },
    }
}

/// Whether the character `item` stands in `text`.
pub fn contains_char(text: &str, item: char) -> (r: bool)
    ensures
        r == text@.contains(item),
{
    let items = chars_of(text);
    let mut i: usize = 0;
    while i < items.len()
        invariant
            i <= items.len(),
            items@ == text@,
            forall|j: int| 0 <= j < i ==> text@[j] != item,
        decreases items.len() - i,
    {
        if items[i] == item {
            assert(text@[i as int] == item);
            return true;
        }
        i += 1;
    }
    false
}

/// Whether `text` starts with `part`.
pub fn starts_with(text: &str, part: &str) -> (r: bool)
    ensures
        r == part@.is_prefix_of(text@),
{
    let items = chars_of(text);
    let lead = chars_of(part);
    if lead.len() > items.len() {
        return false;
    }
    let mut i: usize = 0;
    while i < lead.len()
        invariant
            i <= lead@.len() <= items@.len(),
            items@ == text@,
            lead@ == part@,
            forall|j: int| 0 <= j < i ==> items@[j] == lead@[j],
        decreases lead@.len() - i,
    {
        if items[i] != lead[i] {
            assert(part@[i as int] != text@[i as int]);
            return false;
        }
        i += 1;
    }
    assert(part@ =~= text@.subrange(0, part@.len() as int));
    true
}

/// What stands before the first `sep` in `text`, and what stands after it.
pub open spec fn cut(text: Seq<char>, sep: Seq<char>) -> Option<(Seq<char>, Seq<char>)> {
    match find(text, sep) {
        Some(at) => Some((text.take(at), text.skip(at + sep.len()))),
        None => None,
    }
}

/// The parts of `text` between one `sep` and the next.
pub open spec fn split(text: Seq<char>, sep: Seq<char>) -> Seq<Seq<char>>
    recommends
        sep.len() > 0,
    decreases text.len(),
    when sep.len() > 0
    via split_shortens
{
    match find(text, sep) {
        Some(at) => seq![text.take(at)] + split(text.skip(at + sep.len()), sep),
        None => seq![text],
    }
}

#[via_fn]
proof fn split_shortens(text: Seq<char>, sep: Seq<char>) {
    find_from_is_first(text, sep, 0);
}

/// A split has at least one part, and every part is a part of the text
/// that does not hold the separator.
pub proof fn split_has_clean_parts(text: Seq<char>, sep: Seq<char>)
    requires
        sep.len() > 0,
    ensures
        split(text, sep).len() >= 1,
        forall|k: int|
            0 <= k < split(text, sep).len() ==> !holds(#[trigger] split(text, sep)[k], sep),
    decreases text.len(),
{
    find_from_is_first(text, sep, 0);
    match find(text, sep) {
        Some(at) => {
            let rest = text.skip(at + sep.len());
            split_has_clean_parts(rest, sep);
            let head = text.take(at);
            assert(!holds(head, sep)) by {
                assert forall|j: int| !occurs_at(head, sep, j) by {
                    if occurs_at(head, sep, j) {
                        assert(head.subrange(j, j + sep.len()) =~= text.subrange(j, j + sep.len()));
                        assert(occurs_at(text, sep, j));
                    }
                }
            }
            assert forall|k: int| 0 <= k < split(text, sep).len() implies !holds(
                #[trigger] split(text, sep)[k],
                sep,
            ) by {
                if k > 0 {
                    assert(split(text, sep)[k] == split(rest, sep)[k - 1]);
                }
            }
        },
        None => {
            assert(!holds(text, sep)) by {
                assert forall|j: int| !occurs_at(text, sep, j) by {}
            }
        },
    }
}

/// The parts of `text` between one `sep` and the next.
pub fn split_text(text: &str, sep: &str) -> (r: Vec<String>)
    requires
        sep@.len() > 0,
    ensures
        texts(r@) == split(text@, sep@),
{
    let items = chars_of(text);
    let mark = chars_of(sep);
    let size = items.len();
    let mut out: Vec<String> = Vec::new();
    let mut from: usize = 0;
    assert(texts(out@) =~= Seq::<Seq<char>>::empty());
    assert(items@.skip(0) =~= items@);
    loop
        invariant
            items@ == text@,
            mark@ == sep@,
            mark@.len() > 0,
            size == items@.len(),
            from <= size,
            split(text@, sep@) =~= texts(out@) + split(items@.skip(from as int), sep@),
        decreases items@.len() - from,
    {
        let ghost rest = items@.skip(from as int);
        proof {
            find_in_skip(items@, mark@, from as int);
            find_from_is_first(items@, mark@, from as int);
        }
        match position(&items, &mark, from) {
            Some(at) => {
                let part = text_of(&items, from, at);
                let ghost before = texts(out@);
                out.push(part);
                assert(texts(out@) =~= before.push(part@));
                assert(part@ =~= rest.take(at - from));
                assert(at + mark@.len() <= items@.len());
                assert(rest.skip(at - from + mark@.len()) =~= items@.skip(at + mark@.len()));
                from = at + mark.len();
            },
            None => {
                let part = text_of(&items, from, items.len());
                let ghost before = texts(out@);
                out.push(part);
                assert(texts(out@) =~= before.push(part@));
                assert(part@ =~= rest);
                return out;
            },
        }
    }
}

/// What stands before the first `sep` in `text`; all of it where there is none.
pub open spec fn before(text: Seq<char>, sep: Seq<char>) -> Seq<char> {
    match cut(text, sep) {
        Some(halves) => halves.0,
        None => text,
    }
}

/// What stands before the first `sep` in `text`, and what stands after it.
pub fn cut_text(text: &str, sep: &str) -> (r: Option<(String, String)>)
    ensures
        match r {
            Some(halves) => cut(text@, sep@) == Some((halves.0@, halves.1@)),
            None => cut(text@, sep@) is None,
        },
{
    let items = chars_of(text);
    let mark = chars_of(sep);
    let size = items.len();
    proof {
        find_from_is_first(text@, sep@, 0);
    }
    match position(&items, &mark, 0) {
        Some(at) => {
            let head = text_of(&items, 0, at);
            let tail = text_of(&items, at + mark.len(), size);
            assert(head@ =~= text@.take(at as int));
            assert(tail@ =~= text@.skip(at + sep@.len()));
            Some((head, tail))
        },
        None => None,
    }
}

/// What stands before the first `sep` in `text`.
pub fn head_text(text: &str, sep: &str) -> (r: String)
    ensures
        r@ == before(text@, sep@),
{
    match cut_text(text, sep) {
        Some(halves) => halves.0,
        None => text.to_owned(),
    }
}

/// `text` without the run of `item` at its end.
pub open spec fn without_trailing(text: Seq<char>, item: char) -> Seq<char>
    decreases text.len(),
{
    if text.len() > 0 && text.last() == item {
        without_trailing(text.drop_last(), item)
    } else {
        text
    }
}

/// `text` without the run of `item` at its end.
pub fn trim_end_char(text: &str, item: char) -> (r: String)
    ensures
        r@ == without_trailing(text@, item),
{
    let items = chars_of(text);
    let mut to: usize = items.len();
    assert(text@.take(to as int) =~= text@);
    while to > 0 && items[to - 1] == item
        invariant
            to <= items@.len(),
            items@ == text@,
            without_trailing(text@, item) == without_trailing(text@.take(to as int), item),
        decreases to,
    {
        assert(text@.take(to as int).drop_last() =~= text@.take(to - 1));
        assert(text@.take(to as int).last() == text@[to - 1]);
        to -= 1;
    }
    let r = text_of(&items, 0, to);
    assert(r@ =~= text@.take(to as int));
    r
}

/// `text` without the run of characters of `marks` at its start.
pub open spec fn without_leading(text: Seq<char>, marks: Seq<char>) -> Seq<char>
    decreases text.len(),
{
    if text.len() > 0 && marks.contains(text.first()) {
        without_leading(text.drop_first(), marks)
    } else {
        text
    }
}

/// `text` without the run of characters of `marks` at its start.
pub fn trim_start_any(text: &str, marks: &str) -> (r: String)
    ensures
        r@ == without_leading(text@, marks@),
{
    let items = chars_of(text);
    let mut from: usize = 0;
    assert(text@.skip(0) =~= text@);
    while from < items.len() && contains_char(marks, items[from])
        invariant
            from <= items@.len(),
            items@ == text@,
            without_leading(text@, marks@) == without_leading(text@.skip(from as int), marks@),
        decreases items@.len() - from,
    {
        assert(text@.skip(from as int).drop_first() =~= text@.skip(from + 1));
        from += 1;
    }
    let r = text_of(&items, from, items.len());
    assert(r@ =~= text@.skip(from as int));
    r
}

/// A character with an ASCII capital made small.
pub open spec fn lower_char(item: char) -> char {
    if is_upper(item) {
        (item as u8 + 32) as char
    } else {
        item
    }
}

/// A text with its ASCII capitals made small.
pub open spec fn lower_case(text: Seq<char>) -> Seq<char> {
    text.map_values(|item: char| lower_char(item))
}

/// A text with its ASCII capitals made small.
pub fn lower_text(text: &str) -> (r: String)
    ensures
        r@ == lower_case(text@),
{
    let items = chars_of(text);
    let mut out = String::new();
    let mut i: usize = 0;
    while i < items.len()
        invariant
            i <= items@.len(),
            out@.len() == i,
            forall|j: int| 0 <= j < i ==> #[trigger] out@[j] == lower_char(items@[j]),
        decreases items@.len() - i,
    {
        let item = items[i];
        if 'A' <= item && item <= 'Z' {
            out.push((item as u8 + 32) as char);
        } else {
            out.push(item);
        }
        i += 1;
    }
    assert(out@ =~= lower_case(text@));
    out
}

/// The digits that a text starts with.
pub open spec fn leading_digits(text: Seq<char>) -> Seq<char>
    decreases text.len(),
{
    if text.len() > 0 && is_digit(text.first()) {
        seq![text.first()] + leading_digits(text.drop_first())
    } else {
        Seq::empty()
    }
}

/// The digits that a text starts with.
pub fn digits_at_start(text: &str) -> (r: String)
    ensures
        r@ == leading_digits(text@),
{
    let items = chars_of(text);
    let mut to: usize = 0;
    assert(text@.skip(0) =~= text@);
    while to < items.len() && digit(items[to])
        invariant
            to <= items@.len(),
            items@ == text@,
            leading_digits(text@) =~= text@.take(to as int) + leading_digits(
                text@.skip(to as int),
            ),
        decreases items@.len() - to,
    {
        assert(text@.skip(to as int).drop_first() =~= text@.skip(to + 1));
        assert(text@.take(to + 1) =~= text@.take(to as int) + seq![text@[to as int]]);
        to += 1;
    }
    let r = text_of(&items, 0, to);
    assert(r@ =~= text@.take(to as int));
    r
}

/// Searching a suffix is searching from where the suffix starts.
proof fn find_in_skip(text: Seq<char>, part: Seq<char>, from: int)
    requires
        0 <= from <= text.len(),
    ensures
        match find_from(text, part, from) {
            Some(at) => find(text.skip(from), part) == Some(at - from),
            None => find(text.skip(from), part) is None,
        },
{
    find_shift(text, part, from, 0);
}

proof fn find_shift(text: Seq<char>, part: Seq<char>, from: int, at: int)
    requires
        0 <= from <= text.len(),
        0 <= at,
    ensures
        match find_from(text, part, from + at) {
            Some(found) => find_from(text.skip(from), part, at) == Some(found - from),
            None => find_from(text.skip(from), part, at) is None,
        },
    decreases text.len() + 1 - from - at,
{
    let rest = text.skip(from);
    if from + at + part.len() <= text.len() {
        assert(rest.subrange(at, at + part.len()) =~= text.subrange(
            from + at,
            from + at + part.len(),
        ));
        find_shift(text, part, from, at + 1);
    }
}

// ---------------------------------------------------------------------------
// Decimal numbers
// ---------------------------------------------------------------------------
/// The character of a decimal digit.
pub open spec fn digit_char(value: nat) -> char {
    (('0' as u32) + value) as char
}

/// A number in decimal notation, without leading zeros.
pub open spec fn decimal(value: nat) -> Seq<char>
    decreases value,
{
    if value < 10 {
        seq![digit_char(value)]
    } else {
        decimal(value / 10).push(digit_char(value % 10))
    }
}

/// A number in decimal notation.
pub fn decimal_text(value: u64) -> (r: String)
    ensures
        r@ == decimal(value as nat),
    decreases value,
{
    if value < 10 {
        let mut out = String::new();
        out.push(digit_of(value));
        assert(out@ =~= decimal(value as nat));
        out
    } else {
        let mut out = decimal_text(value / 10);
        out.push(digit_of(value % 10));
        out
    }
}

fn digit_of(value: u64) -> (r: char)
    requires
        value < 10,
    ensures
        r == digit_char(value as nat),
{
    let code: u8 = 48 + value as u8;
    code as char
}

/// The value of a run of decimal digits.
pub open spec fn digits_value(text: Seq<char>) -> nat
    decreases text.len(),
{
    if text.len() == 0 {
        0
    } else {
        10 * digits_value(text.drop_last()) + (text.last() as u32 - '0' as u32) as nat
    }
}

/// The number that a decimal text stands for: digits, with one `+` allowed
/// before them, whose value fits 64 bits.
pub open spec fn unsigned_value(text: Seq<char>) -> Option<nat> {
    let digits = if text.len() > 0 && text.first() == '+' {
        text.drop_first()
    } else {
        text
    };
    if digits.len() > 0 && all_digits(digits) && digits_value(digits) <= u64::MAX {
        Some(digits_value(digits))
    } else {
        None
    }
}

pub open spec fn all_digits(text: Seq<char>) -> bool {
    forall|i: int| 0 <= i < text.len() ==> is_digit(#[trigger] text[i])
}

/// Reads a decimal text.
pub fn parse_unsigned(text: &str) -> (r: Option<u64>)
    ensures
        match r {
            Some(value) => unsigned_value(text@) == Some(value as nat),
            None => unsigned_value(text@) is None,
        },
{
    let items = chars_of(text);
    let from: usize = if items.len() > 0 && items[0] == '+' {
        1
    } else {
        0
    };
    let ghost digits = items@.skip(from as int);
    assert(from == 1 ==> digits =~= text@.drop_first());
    assert(from == 0 ==> digits =~= text@);
    if items.len() == from {
        return None;
    }
    let mut value: u64 = 0;
    let mut i: usize = from;
    while i < items.len()
        invariant
            from <= i <= items@.len(),
            from < items@.len(),
            digits == items@.skip(from as int),
            unsigned_value(text@) == (if all_digits(digits) && digits_value(digits) <= u64::MAX {
                Some(digits_value(digits))
            } else {
                None
            }),
            forall|j: int| 0 <= j < i - from ==> is_digit(#[trigger] digits[j]),
            value == digits_value(digits.take(i - from)),
        decreases items@.len() - i,
    {
        let item = items[i];
        let ghost next = digits.take(i - from + 1);
        assert(digits[i - from] == item);
        if !digit(item) {
            return None;
        }
        assert(next.drop_last() =~= digits.take(i - from));
        let add: u64 = item as u64 - 48;
        proof {
            digits_value_grows(digits, i - from + 1);
            assert(digits_value(next) == 10 * value + add);
        }
        if value > (u64::MAX - add) / 10 {
            return None;
        }
        value = value * 10 + add;
        i += 1;
    }
    assert(digits.take(items@.len() - from) =~= digits);
    Some(value)
}

proof fn digits_value_grows(text: Seq<char>, to: int)
    requires
        0 <= to <= text.len(),
    ensures
        digits_value(text.take(to)) <= digits_value(text),
    decreases text.len() - to,
{
    if to == text.len() {
        assert(text.take(to) =~= text);
    } else {
        digits_value_grows(text, to + 1);
        assert(text.take(to + 1).drop_last() =~= text.take(to));
    }
}

// ---------------------------------------------------------------------------
// Laws
// ---------------------------------------------------------------------------
/// The classes of characters, by their numbers.
pub proof fn classes_by_number(item: char)
    ensures
        is_lower(item) <==> 97 <= item as int <= 122,
        is_upper(item) <==> 65 <= item as int <= 90,
        is_digit(item) <==> 48 <= item as int <= 57,
        is_alnum(item) <==> 97 <= item as int <= 122 || 65 <= item as int <= 90 || 48 <= item as int
            <= 57,
        (item as int) < 128 ==> (is_white(item) <==> 9 <= item as int <= 13 || item as int == 32),
        item as int >= 128 ==> (is_white(item) <==> item as int == 0x85 || item as int == 0xa0
            || item as int == 0x1680 || 0x2000 <= item as int <= 0x200a || item as int == 0x2028
            || item as int == 0x2029 || item as int == 0x202f || item as int == 0x205f
            || item as int == 0x3000),
{
}

/// Trimming takes white space from both ends, all of it, and nothing else.
pub proof fn trimming_takes_white_space_alone(text: Seq<char>)
    ensures
        exists|from: int, to: int|
            {
                &&& 0 <= from <= to <= text.len()
                &&& trimmed(text) == #[trigger] text.subrange(from, to)
                &&& forall|i: int|
                    0 <= i < from || to <= i < text.len() ==> is_white(#[trigger] text[i])
            },
        trimmed(text).len() > 0 ==> !is_white(trimmed(text)[0]) && !is_white(
            trimmed(text)[trimmed(text).len() - 1],
        ),
{
    let from = start_of_content(text);
    let rest = trimmed_start(text);
    let to = end_of_content(rest);
    assert(trimmed(text) =~= text.subrange(from, from + to));
    assert forall|i: int| 0 <= i < from || from + to <= i < text.len() implies is_white(
        #[trigger] text[i],
    ) by {
        if i >= from + to {
            assert(rest[i - from] == text[i]);
        }
    }
    trimmed_is_tight(text);
}

proof fn start_of_content(text: Seq<char>) -> (from: int)
    ensures
        0 <= from <= text.len(),
        trimmed_start(text) == text.skip(from),
        forall|i: int| 0 <= i < from ==> is_white(#[trigger] text[i]),
    decreases text.len(),
{
    if text.len() > 0 && is_white(text.first()) {
        let rest = text.drop_first();
        let inner = start_of_content(rest);
        assert(rest.skip(inner) =~= text.skip(inner + 1));
        assert forall|i: int| 0 <= i < inner + 1 implies is_white(#[trigger] text[i]) by {
            if i > 0 {
                assert(rest[i - 1] == text[i]);
            }
        }
        inner + 1
    } else {
        assert(text.skip(0) =~= text);
        0
    }
}

proof fn end_of_content(text: Seq<char>) -> (to: int)
    ensures
        0 <= to <= text.len(),
        trimmed_end(text) == text.take(to),
        forall|i: int| to <= i < text.len() ==> is_white(#[trigger] text[i]),
    decreases text.len(),
{
    if text.len() > 0 && is_white(text.last()) {
        let rest = text.drop_last();
        let inner = end_of_content(rest);
        assert(rest.take(inner) =~= text.take(inner));
        assert forall|i: int| inner <= i < text.len() implies is_white(#[trigger] text[i]) by {
            if i < rest.len() {
                assert(rest[i] == text[i]);
            }
        }
        inner
    } else {
        assert(text.take(text.len() as int) =~= text);
        text.len() as int
    }
}

/// A text holds a part where it is made of something, the part, and something.
pub proof fn holding_is_being_around(text: Seq<char>, part: Seq<char>)
    ensures
        holds(text, part) <==> exists|head: Seq<char>, tail: Seq<char>|
            text == #[trigger] (head + part + tail),
{
    if holds(text, part) {
        let at = choose|at: int| occurs_at(text, part, at);
        let head = text.take(at);
        let tail = text.skip(at + part.len());
        assert(text.subrange(at, at + part.len()) == part);
        assert(text =~= head + part + tail);
    }
    if exists|head: Seq<char>, tail: Seq<char>| text == #[trigger] (head + part + tail) {
        let (head, tail) = choose|head: Seq<char>, tail: Seq<char>|
            text == #[trigger] (head + part + tail);
        let at = head.len() as int;
        assert(text.subrange(at, at + part.len()) =~= part);
        assert(occurs_at(text, part, at));
    }
}

/// A text is cut at the first separator: the halves and the separator make up
/// the text, and no separator stands before. It is not cut where there is none.
pub proof fn a_cut_is_at_the_first_separator(text: Seq<char>, sep: Seq<char>)
    ensures
        match cut(text, sep) {
            Some(halves) => {
                &&& text == halves.0 + sep + halves.1
                &&& before(text, sep) == halves.0
                &&& forall|j: int| 0 <= j < halves.0.len() ==> !occurs_at(text, sep, j)
            },
            None => !holds(text, sep) && before(text, sep) == text,
        },
{
    find_from_is_first(text, sep, 0);
    match find(text, sep) {
        Some(at) => {
            assert(text.subrange(at, at + sep.len()) == sep);
            assert(text =~= text.take(at) + sep + text.skip(at + sep.len()));
        },
        None => {
            assert(forall|j: int| !occurs_at(text, sep, j));
        },
    }
}

/// Parts with a separator between them.
pub open spec fn joined(parts: Seq<Seq<char>>, sep: Seq<char>) -> Seq<char>
    decreases parts.len(),
{
    if parts.len() == 0 {
        Seq::empty()
    } else if parts.len() == 1 {
        parts[0]
    } else {
        parts[0] + sep + joined(parts.drop_first(), sep)
    }
}

/// The parts of a split, with the separator between them, make up the text
/// again, and none of them holds the separator.
pub proof fn joining_undoes_a_split(text: Seq<char>, sep: Seq<char>)
    requires
        sep.len() > 0,
    ensures
        joined(split(text, sep), sep) == text,
        forall|k: int|
            0 <= k < split(text, sep).len() ==> !holds(#[trigger] split(text, sep)[k], sep),
    decreases text.len(),
{
    split_has_clean_parts(text, sep);
    find_from_is_first(text, sep, 0);
    match find(text, sep) {
        Some(at) => {
            let rest = text.skip(at + sep.len());
            joining_undoes_a_split(rest, sep);
            split_has_clean_parts(rest, sep);
            let parts = split(text, sep);
            assert(parts.drop_first() =~= split(rest, sep));
            assert(text.subrange(at, at + sep.len()) == sep);
            assert(text =~= text.take(at) + sep + rest);
        },
        None => {},
    }
}

/// What is taken from the end is a run of the one character, all of it.
pub proof fn trailing_run_is_taken(text: Seq<char>, item: char)
    ensures
        ({
            let r = without_trailing(text, item);
            &&& r.len() <= text.len()
            &&& r == text.take(r.len() as int)
            &&& forall|i: int| r.len() <= i < text.len() ==> #[trigger] text[i] == item
            &&& r.len() > 0 ==> r[r.len() - 1] != item
        }),
    decreases text.len(),
{
    if text.len() > 0 && text.last() == item {
        let rest = text.drop_last();
        trailing_run_is_taken(rest, item);
        let r = without_trailing(text, item);
        assert(rest.take(r.len() as int) =~= text.take(r.len() as int));
        assert forall|i: int| r.len() <= i < text.len() implies #[trigger] text[i] == item by {
            if i < rest.len() {
                assert(rest[i] == text[i]);
            }
        }
    } else {
        assert(text.take(text.len() as int) =~= text);
    }
}

/// What is taken from the start is a run of the marks, all of it.
pub proof fn leading_run_is_taken(text: Seq<char>, marks: Seq<char>)
    ensures
        ({
            let r = without_leading(text, marks);
            let from = text.len() - r.len();
            &&& r.len() <= text.len()
            &&& r == text.skip(from)
            &&& forall|i: int| 0 <= i < from ==> marks.contains(#[trigger] text[i])
            &&& r.len() > 0 ==> !marks.contains(r[0])
        }),
    decreases text.len(),
{
    if text.len() > 0 && marks.contains(text.first()) {
        let rest = text.drop_first();
        leading_run_is_taken(rest, marks);
        let r = without_leading(text, marks);
        let from = text.len() - r.len();
        assert(rest.skip(from - 1) =~= text.skip(from));
        assert forall|i: int| 0 <= i < from implies marks.contains(#[trigger] text[i]) by {
            if i > 0 {
                assert(rest[i - 1] == text[i]);
            }
        }
    } else {
        assert(text.skip(0) =~= text);
    }
}

/// The leading digits are the longest start that is made of digits.
pub proof fn leading_digits_are_the_longest(text: Seq<char>)
    ensures
        ({
            let r = leading_digits(text);
            &&& r.len() <= text.len()
            &&& r == text.take(r.len() as int)
            &&& forall|i: int| 0 <= i < r.len() ==> 48 <= #[trigger] text[i] as int <= 57
            &&& r.len() < text.len() ==> !(48 <= text[r.len() as int] as int <= 57)
        }),
    decreases text.len(),
{
    if text.len() > 0 && is_digit(text.first()) {
        let rest = text.drop_first();
        leading_digits_are_the_longest(rest);
        let inner = leading_digits(rest);
        let r = leading_digits(text);
        assert(r =~= text.take(r.len() as int)) by {
            assert(rest.take(inner.len() as int) == inner);
        }
        assert forall|i: int| 0 <= i < r.len() implies 48 <= #[trigger] text[i] as int <= 57 by {
            if i > 0 {
                assert(rest[i - 1] == text[i]);
            }
        }
        if r.len() < text.len() {
            assert(rest[inner.len() as int] == text[r.len() as int]);
        }
    } else {
        assert(text.take(0) =~= Seq::<char>::empty());
    }
}

/// Making a text small moves its ASCII capitals by thirty-two and keeps every
/// other character.
pub proof fn small_letters_follow_capitals(text: Seq<char>, i: int)
    requires
        0 <= i < text.len(),
    ensures
        lower_case(text).len() == text.len(),
        65 <= text[i] as int <= 90 ==> lower_case(text)[i] as int == text[i] as int + 32,
        !(65 <= text[i] as int <= 90) ==> lower_case(text)[i] == text[i],
{
}

/// The value of digits, digit by digit.
pub proof fn digits_count_by_tens(digits: Seq<char>, next: char)
    requires
        48 <= next as int <= 57,
    ensures
        digits_value(Seq::empty()) == 0,
        digits_value(digits.push(next)) == 10 * digits_value(digits) + (next as int - 48),
{
    assert(digits.push(next).drop_last() =~= digits);
}

/// A number in decimal notation is made of digits without a leading zero, and
/// is read back as the number that it was.
pub proof fn decimals_are_read_back(value: nat)
    ensures
        decimal(value).len() > 0,
        all_digits(decimal(value)),
        decimal(value).len() > 1 ==> decimal(value)[0] != '0',
        digits_value(decimal(value)) == value,
        value <= u64::MAX ==> unsigned_value(decimal(value)) == Some(value),
    decreases value,
{
    reveal_with_fuel(digits_value, 2);
    let digits = decimal(value);
    if value < 10 {
        assert(digits =~= seq![digit_char(value)]);
        assert(digits.drop_last() =~= Seq::<char>::empty());
        assert(digits[0] as int == 48 + value);
    } else {
        decimals_are_read_back(value / 10);
        let lead = decimal(value / 10);
        let last = digit_char(value % 10);
        assert(last as int == 48 + value % 10);
        assert(digits.drop_last() =~= lead);
        assert forall|i: int| 0 <= i < digits.len() implies is_digit(#[trigger] digits[i]) by {
            if i < lead.len() {
                assert(is_digit(lead[i]));
            }
        }
        if lead.len() == 1 {
            reveal_with_fuel(digits_value, 2);
            assert(lead.drop_last() =~= Seq::<char>::empty());
            assert(value / 10 == (lead[0] as int - 48));
        }
        assert(digits[0] == lead[0]);
    }
    assert(is_digit(digits[0]));
}

/// A text is a number where it is made of digits, with or without one plus sign
/// in front, and fits sixty-four bits; it is none in any other case.
pub proof fn numbers_are_digits(digits: Seq<char>, text: Seq<char>)
    ensures
        digits.len() > 0 && all_digits(digits) && digits_value(digits) <= u64::MAX ==> {
            &&& unsigned_value(digits) == Some(digits_value(digits))
            &&& unsigned_value(seq!['+'] + digits) == Some(digits_value(digits))
        },
        unsigned_value(text) is Some ==> {
            ||| text.len() > 0 && all_digits(text) && unsigned_value(text) == Some(
                digits_value(text),
            )
            ||| text.len() > 1 && text[0] == '+' && all_digits(text.drop_first())
                && unsigned_value(text) == Some(digits_value(text.drop_first()))
        },
        unsigned_value(text) matches Some(value) ==> value <= u64::MAX,
{
    assert((seq!['+'] + digits).drop_first() =~= digits);
    if digits.len() > 0 && all_digits(digits) {
        assert(is_digit(digits[0]));
    }
}

/// A list of strings says what each of them says, in their order.
pub proof fn lists_say_what_their_texts_say(list: Seq<String>, i: int)
    requires
        0 <= i < list.len(),
    ensures
        texts(list).len() == list.len(),
        texts(list)[i] == list[i]@,
{
}

/// What is there says what it says, and nothing says nothing.
pub proof fn what_is_there_speaks(text: String, part: &str)
    ensures
        text_opt(Some(text)) == Some(text@),
        text_opt(None) is None,
        str_opt(Some(part)) == Some(part@),
        str_opt(None) is None,
{
}

/// A result says what it holds, its text or its error.
pub proof fn results_say_what_they_hold(r: Result<String, String>)
    ensures
        r matches Ok(content) ==> result_view(r) == Ok::<Seq<char>, Seq<char>>(content@),
        r matches Err(message) ==> result_view(r) == Err::<Seq<char>, Seq<char>>(message@),
{
}

/// Texts are joined in their order, and nothing is lost.
pub proof fn joined_texts_follow_each_other(
    first: &str,
    second: &str,
    third: &str,
    two: String,
    three: String,
)
    requires
        call_ensures(join2, (first, second), two),
        call_ensures(join3, (first, second, third), three),
    ensures
        two@ == first@ + second@,
        three@ == two@ + third@,
{
}

/// A text is the same as another, holds a character, begins with a part or is listed
/// exactly where this is so of its characters.
pub proof fn texts_are_compared_by_their_characters(
    left: &str,
    right: &str,
    item: char,
    list: &Vec<String>,
    equal: bool,
    held: bool,
    begun: bool,
    found: bool,
)
    requires
        call_ensures(same, (left, right), equal),
        call_ensures(contains_char, (left, item), held),
        call_ensures(starts_with, (left, right), begun),
        call_ensures(listed, (list, left), found),
    ensures
        equal <==> left@ == right@,
        held <==> exists|i: int| 0 <= i < left@.len() && #[trigger] left@[i] == item,
        begun <==> right@.len() <= left@.len() && left@.take(right@.len() as int) == right@,
        found <==> exists|i: int| 0 <= i < list@.len() && (#[trigger] list@[i])@ == left@,
{
    if begun {
        assert(left@.take(right@.len() as int) =~= right@);
    }
    if right@.len() <= left@.len() && left@.take(right@.len() as int) == right@ {
        assert(right@ =~= left@.subrange(0, right@.len() as int));
    }
    let all = texts(list@);
    if found {
        let i = choose|i: int| 0 <= i < all.len() && all[i] == left@;
        assert(list@[i]@ == left@);
    }
    if exists|i: int| 0 <= i < list@.len() && (#[trigger] list@[i])@ == left@ {
        let i = choose|i: int| 0 <= i < list@.len() && (#[trigger] list@[i])@ == left@;
        assert(all[i] == left@);
    }
    if held {
        let i = choose|i: int| 0 <= i < left@.len() && left@[i] == item;
        assert(left@[i] == item);
    }
}

} // verus!
