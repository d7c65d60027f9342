//! Text in the terms that the shell's rules use: white space, lines, words.

use vstd::prelude::*;

verus! {

/// A set of characters that a scan may run over.
#[derive(Clone, Copy)]
pub enum CharClass {
    /// Characters with the Unicode property `White_Space`.
    WhiteSpace,
    /// Characters without that property.
    Visible,
    /// Everything but a line feed.
    WithinLine,
    /// Everything but a colon.
    BeforeColon,
    /// The double quote.
    Quote,
}

/// The characters with the Unicode property `White_Space`.
pub open spec fn white_space(c: char) -> bool {
    ||| '\u{9}' <= c <= '\u{d}'
    ||| c == ' '
    ||| c == '\u{85}'
    ||| c == '\u{a0}'
    ||| c == '\u{1680}'
    ||| '\u{2000}' <= c <= '\u{200a}'
    ||| c == '\u{2028}'
    ||| c == '\u{2029}'
    ||| c == '\u{202f}'
    ||| c == '\u{205f}'
    ||| c == '\u{3000}'
}

impl CharClass {
    /// Whether the class holds `c`.
    pub open spec fn holds(self, c: char) -> bool {
        match self {
            CharClass::WhiteSpace => white_space(c),
            CharClass::Visible => !white_space(c),
            CharClass::WithinLine => c != '\n',
            CharClass::BeforeColon => c != ':',
            CharClass::Quote => c == '"',
        }
    }

    /// Tells whether the class holds `c`.
    pub fn has(self, c: char) -> (r: bool)
        ensures
            r == self.holds(c),
    {
        match self {
            CharClass::WhiteSpace => is_white_space(c),
            CharClass::Visible => !is_white_space(c),
            CharClass::WithinLine => c != '\n',
            CharClass::BeforeColon => c != ':',
            CharClass::Quote => c == '"',
        }
    }
}

/// Tells whether `c` has the Unicode property `White_Space`.
pub fn is_white_space(c: char) -> (r: bool)
    ensures
        r == white_space(c),
{
    ('\u{9}' <= c && c <= '\u{d}') || c == ' ' || c == '\u{85}' || c == '\u{a0}' || c == '\u{1680}'
        || ('\u{2000}' <= c && c <= '\u{200a}') || c == '\u{2028}' || c == '\u{2029}'
        || c == '\u{202f}' || c == '\u{205f}' || c == '\u{3000}'
}

/// The number of characters at the front of `s` that `class` holds.
pub open spec fn front(s: Seq<char>, class: CharClass) -> nat
    decreases s.len(),
{
    if s.len() > 0 && class.holds(s.first()) {
        1 + front(s.drop_first(), class)
    } else {
        0
    }
}

/// The number of characters at the back of `s` that `class` holds.
pub open spec fn back(s: Seq<char>, class: CharClass) -> nat
    decreases s.len(),
{
    if s.len() > 0 && class.holds(s.last()) {
        1 + back(s.drop_last(), class)
    } else {
        0
    }
}

/// The characters of a string, in order.
pub fn characters(s: &str) -> (r: Vec<char>)
    ensures
        r@ == s@,
{
    let mut r: Vec<char> = Vec::new();
    for c in it: s.chars()
        invariant
            r@ == s@.take(it.index()),
            it.seq() == s@,
    {
        r.push(c);
    }
    r
}

/// Tells whether two strings hold the same characters.
pub fn same_text(a: &str, b: &str) -> (r: bool)
    ensures
        r == (a@ == b@),
{
    a.to_string() == b.to_string()
}

/// The length of the run of `class` in `chars` that starts at `from` and ends
/// at `to` at the latest.
fn front_run(chars: &Vec<char>, from: usize, to: usize, class: CharClass) -> (r: usize)
    requires
        from <= to <= chars@.len(),
    ensures
        r == front(chars@.subrange(from as int, to as int), class),
        from + r <= to,
{
    let ghost whole = chars@.subrange(from as int, to as int);
    let mut i: usize = from;
    assert(chars@.subrange(i as int, to as int) == whole);
    while i < to && class.has(chars[i])
        invariant
            from <= i <= to <= chars@.len(),
            front(whole, class) == i - from + front(chars@.subrange(i as int, to as int), class),
        decreases to - i,
    {
        assert(chars@.subrange(i as int, to as int).drop_first() == chars@.subrange(
            i + 1,
            to as int,
        ));
        i = i + 1;
    }
    i - from
}

/// The length of the run of `class` in `chars` that ends before `to` and
/// starts at `from` at the earliest.
fn back_run(chars: &Vec<char>, from: usize, to: usize, class: CharClass) -> (r: usize)
    requires
        from <= to <= chars@.len(),
    ensures
        r == back(chars@.subrange(from as int, to as int), class),
        from + r <= to,
{
    let ghost whole = chars@.subrange(from as int, to as int);
    let mut i: usize = to;
    assert(chars@.subrange(from as int, i as int) == whole);
    while i > from && class.has(chars[i - 1])
        invariant
            from <= i <= to <= chars@.len(),
            back(whole, class) == to - i + back(chars@.subrange(from as int, i as int), class),
        decreases i - from,
    {
        assert(chars@.subrange(from as int, i as int).drop_last() == chars@.subrange(
            from as int,
            i - 1,
        ));
        i = i - 1;
    }
    to - i
}

/// `s` without the characters of `class` at its front.
pub open spec fn strip_front(s: Seq<char>, class: CharClass) -> Seq<char> {
    s.skip(front(s, class) as int)
}

/// `s` without the characters of `class` at its back.
pub open spec fn strip_back(s: Seq<char>, class: CharClass) -> Seq<char> {
    s.take(s.len() - back(s, class))
}

/// `s` without the characters of `class` at either end.
pub open spec fn strip(s: Seq<char>, class: CharClass) -> Seq<char> {
    strip_back(strip_front(s, class), class)
}

/// `s` without the white space at either end.
pub open spec fn trimmed(s: Seq<char>) -> Seq<char> {
    strip(s, CharClass::WhiteSpace)
}

/// A run is no longer than the text it is found in.
pub proof fn front_within(s: Seq<char>, class: CharClass)
    ensures
        front(s, class) <= s.len(),
        forall|i: int| 0 <= i < front(s, class) ==> class.holds(#[trigger] s[i]),
        front(s, class) < s.len() ==> !class.holds(s[front(s, class) as int]),
    decreases s.len(),
{
    if s.len() > 0 && class.holds(s.first()) {
        front_within(s.drop_first(), class);
        assert forall|i: int| 0 <= i < front(s, class) implies class.holds(#[trigger] s[i]) by {
            if i > 0 {
                assert(s[i] == s.drop_first()[i - 1]);
            }
        }
    }
}

/// A run at the back is no longer than the text it is found in.
pub proof fn back_within(s: Seq<char>, class: CharClass)
    ensures
        back(s, class) <= s.len(),
        forall|i: int| s.len() - back(s, class) <= i < s.len() ==> class.holds(#[trigger] s[i]),
        back(s, class) < s.len() ==> !class.holds(s[s.len() - back(s, class) - 1]),
    decreases s.len(),
{
    if s.len() > 0 && class.holds(s.last()) {
        back_within(s.drop_last(), class);
        assert forall|i: int| s.len() - back(s, class) <= i < s.len() implies class.holds(
            #[trigger] s[i],
        ) by {
            if i < s.len() - 1 {
                assert(s[i] == s.drop_last()[i]);
            }
        }
    }
}

/// A count that fits the description of the run at the front is its length.
pub proof fn front_is(s: Seq<char>, class: CharClass, n: nat)
    requires
        n <= s.len(),
        forall|i: int| 0 <= i < n ==> class.holds(#[trigger] s[i]),
        n < s.len() ==> !class.holds(s[n as int]),
    ensures
        front(s, class) == n,
{
    front_within(s, class);
}

/// A count that fits the description of the run at the back is its length.
pub proof fn back_is(s: Seq<char>, class: CharClass, n: nat)
    requires
        n <= s.len(),
        forall|i: int| s.len() - n <= i < s.len() ==> class.holds(#[trigger] s[i]),
        n < s.len() ==> !class.holds(s[s.len() - n - 1]),
    ensures
        back(s, class) == n,
{
    back_within(s, class);
}

/// Removes the characters of `class` from the front of `s`.
pub fn without_front<'a>(s: &'a str, class: CharClass) -> (r: &'a str)
    ensures
        r@ == strip_front(s@, class),
{
    let chars = characters(s);
    let n: usize = front_run(&chars, 0, chars.len(), class);
    assert(chars@.subrange(0, chars@.len() as int) == s@);
    s.substring_char(n, chars.len())
}

/// Removes the characters of `class` from the back of `s`.
pub fn without_back<'a>(s: &'a str, class: CharClass) -> (r: &'a str)
    ensures
        r@ == strip_back(s@, class),
{
    let chars = characters(s);
    let n: usize = back_run(&chars, 0, chars.len(), class);
    assert(chars@.subrange(0, chars@.len() as int) == s@);
    s.substring_char(0, chars.len() - n)
}

/// Removes the characters of `class` from both ends of `s`.
pub fn without<'a>(s: &'a str, class: CharClass) -> (r: &'a str)
    ensures
        r@ == strip(s@, class),
{
    without_back(without_front(s, class), class)
}

/// Removes the white space from both ends of `s`.
pub fn trim<'a>(s: &'a str) -> (r: &'a str)
    ensures
        r@ == trimmed(s@),
{
    without(s, CharClass::WhiteSpace)
}

/// The run of `class` at the front of `s`.
pub open spec fn leading(s: Seq<char>, class: CharClass) -> Seq<char> {
    s.take(front(s, class) as int)
}

/// Cuts the run of `class` off the front of `s` and returns it.
pub fn lead<'a>(s: &'a str, class: CharClass) -> (r: &'a str)
    ensures
        r@ == leading(s@, class),
{
    let chars = characters(s);
    let n: usize = front_run(&chars, 0, chars.len(), class);
    assert(chars@.subrange(0, chars@.len() as int) == s@);
    s.substring_char(0, n)
}

/// The first word of `s`, where words are what white space separates.
pub open spec fn first_word(s: Seq<char>) -> Option<Seq<char>> {
    let rest = strip_front(s, CharClass::WhiteSpace);
    if rest.len() == 0 {
        None
    } else {
        Some(leading(rest, CharClass::Visible))
    }
}

/// What follows `prefix` in `s`, where `s` starts with it.
pub open spec fn after_prefix(s: Seq<char>, prefix: Seq<char>) -> Option<Seq<char>> {
    if prefix.is_prefix_of(s) {
        Some(s.skip(prefix.len() as int))
    } else {
        None
    }
}

/// Tells whether `s` starts with `prefix`.
pub fn starts_with(s: &str, prefix: &str) -> (r: bool)
    ensures
        r == prefix@.is_prefix_of(s@),
{
    let n: usize = prefix.unicode_len();
    if s.unicode_len() < n {
        return false;
    }
    same_text(s.substring_char(0, n), prefix)
}

/// Tells whether `part` stands in `s` from place `at` on.
pub open spec fn stands_at(s: Seq<char>, part: Seq<char>, at: int) -> bool {
    &&& 0 <= at
    &&& at + part.len() <= s.len()
    &&& s.subrange(at, at + part.len()) == part
}

/// Whether `part` stands anywhere in `s`.
pub open spec fn holds_text(s: Seq<char>, part: Seq<char>) -> bool {
    exists|at: int| stands_at(s, part, at)
}

/// Tells whether `part` stands anywhere in `s`.
pub fn contains(s: &str, part: &str) -> (r: bool)
    ensures
        r == holds_text(s@, part@),
{
    let chars = characters(s);
    let wanted = characters(part);
    let mut at: usize = 0;
    while at <= chars.len() && wanted.len() <= chars.len() - at
        invariant
            chars@ == s@,
            wanted@ == part@,
            at <= chars@.len() + 1,
            forall|k: int| 0 <= k < at ==> !stands_at(s@, part@, k),
        decreases chars@.len() + 1 - at,
    {
        let mut n: usize = 0;
        while n < wanted.len() && chars[at + n] == wanted[n]
            invariant
                at + wanted.len() <= chars.len(),
                n <= wanted@.len(),
                forall|k: int| 0 <= k < n ==> chars@[at + k] == wanted@[k],
            decreases wanted@.len() - n,
        {
            n = n + 1;
        }
        if n == wanted.len() {
            assert(s@.subrange(at as int, at + part@.len()) == part@);
            assert(stands_at(s@, part@, at as int));
            return true;
        }
        proof {
            if stands_at(s@, part@, at as int) {
                assert(s@.subrange(at as int, at + part@.len())[n as int] == part@[n as int]);
            }
        }
        at = at + 1;
    }
    proof {
        assert forall|k: int| !stands_at(s@, part@, k) by {}
    }
    false
}

/// `line` without the carriage return at its end, where it ends with one.
pub open spec fn without_return(line: Seq<char>) -> Seq<char> {
    if line.len() > 0 && line.last() == '\r' {
        line.drop_last()
    } else {
        line
    }
}

/// The lines of a text. A line ends with a line feed, which a carriage return
/// may precede; neither belongs to the line. The last line needs no line feed,
/// and without one it keeps a carriage return that it ends with.
pub open spec fn lines(s: Seq<char>) -> Seq<Seq<char>>
    decreases s.len(),
{
    let n: nat = front(s, CharClass::WithinLine);
    if s.len() == 0 {
        Seq::empty()
    } else if n >= s.len() {
        seq![s]
    } else {
        seq![without_return(s.take(n as int))] + lines(s.skip(n as int + 1))
    }
}

/// The texts of a list of strings.
pub open spec fn texts(list: Seq<String>) -> Seq<Seq<char>> {
    list.map_values(|t: String| t@)
}

/// The text of a string that may be absent.
pub open spec fn text_of(s: Option<String>) -> Option<Seq<char>> {
    match s {
        Some(t) => Some(t@),
        None => None,
    }
}

/// The text of a string slice that may be absent.
pub open spec fn slice_text(s: Option<&str>) -> Option<Seq<char>> {
    match s {
        Some(t) => Some(t@),
        None => None,
    }
}

/// Splits a text into its lines.
pub fn split_lines(s: &str) -> (r: Vec<String>)
    ensures
        texts(r@) == lines(s@),
{
    let chars = characters(s);
    let end: usize = chars.len();
    let mut r: Vec<String> = Vec::new();
    let mut at: usize = 0;
    assert(s@.skip(0) == s@);
    assert(texts(r@) == Seq::<Seq<char>>::empty());
    while at < end
        invariant
            chars@ == s@,
            end == chars@.len(),
            at <= end,
            lines(s@) == texts(r@) + lines(s@.skip(at as int)),
        decreases end - at,
    {
        let ghost rest = s@.skip(at as int);
        let ghost done = r@;
        let n: usize = front_run(&chars, at, end, CharClass::WithinLine);
        assert(chars@.subrange(at as int, end as int) == rest);
        if n == end - at {
            let line = s.substring_char(at, end).to_string();
            assert(line@ == rest);
            r.push(line);
            assert(texts(r@) == texts(done).push(rest));
            assert(texts(done) + seq![rest] == texts(done).push(rest));
            assert(s@.skip(end as int) == Seq::<char>::empty());
            assert(texts(r@) + Seq::<Seq<char>>::empty() == texts(r@));
            at = end;
        } else {
            let stop: usize = if n > 0 && chars[at + n - 1] == '\r' {
                at + n - 1
            } else {
                at + n
            };
            let line = s.substring_char(at, stop).to_string();
            assert(line@ == without_return(rest.take(n as int)));
            r.push(line);
            assert(texts(r@) == texts(done).push(line@));
            assert(rest.skip(n + 1) == s@.skip(at + n + 1));
            assert(texts(done) + (seq![line@] + lines(s@.skip(at + n + 1))) == texts(r@) + lines(
                s@.skip(at + n + 1),
            ));
            at = at + n + 1;
        }
    }
    assert(s@.skip(end as int) == Seq::<char>::empty());
    assert(texts(r@) + Seq::<Seq<char>>::empty() == texts(r@));
    r
}

/// The parts of a list in order, with `mark` between each two of them.
pub open spec fn joined(parts: Seq<Seq<char>>, mark: Seq<char>) -> Seq<char>
    decreases parts.len(),
{
    if parts.len() == 0 {
        Seq::empty()
    } else if parts.len() == 1 {
        parts.first()
    } else {
        parts.first() + mark + joined(parts.drop_first(), mark)
    }
}

/// A list that grows at its end grows its joined text at its end.
pub proof fn joined_push(parts: Seq<Seq<char>>, mark: Seq<char>, last: Seq<char>)
    requires
        parts.len() > 0,
    ensures
        joined(parts.push(last), mark) == joined(parts, mark) + mark + last,
    decreases parts.len(),
{
    let longer = parts.push(last);
    assert(longer.drop_first() == parts.drop_first().push(last));
    if parts.len() == 1 {
        assert(joined(longer.drop_first(), mark) == last);
        assert(longer.first() == parts.first());
    } else {
        joined_push(parts.drop_first(), mark, last);
        assert(joined(longer, mark) == joined(parts, mark) + mark + last);
    }
}

/// Joins the strings of a list, with `mark` between each two of them.
pub fn join(parts: &Vec<String>, mark: &str) -> (r: String)
    ensures
        r@ == joined(texts(parts@), mark@),
{
    let mut r = String::new();
    let mut i: usize = 0;
    assert(texts(parts@).take(0) == Seq::<Seq<char>>::empty());
    while i < parts.len()
        invariant
            i <= parts@.len(),
            r@ == joined(texts(parts@).take(i as int), mark@),
        decreases parts@.len() - i,
    {
        let ghost done = texts(parts@).take(i as int);
        assert(texts(parts@).take(i + 1) == done.push(parts@[i as int]@));
        if i > 0 {
            proof {
                joined_push(done, mark@, parts@[i as int]@);
            }
            r.append(mark);
        }
        r.append(parts[i].as_str());
        i = i + 1;
    }
    assert(texts(parts@).take(i as int) == texts(parts@));
    r
}

/// What one more character of the class at the end does to `strip_front`.
pub proof fn strip_front_push(s: Seq<char>, class: CharClass, c: char)
    requires
        class.holds(c),
    ensures
        strip_front(s.push(c), class) == if front(s, class) == s.len() {
            strip_front(s, class)
        } else {
            strip_front(s, class).push(c)
        },
{
    front_within(s, class);
    let n = front(s, class);
    let longer = s.push(c);
    if n == s.len() {
        front_is(longer, class, n + 1);
        assert(longer.skip(n as int + 1) == s.skip(n as int));
    } else {
        front_is(longer, class, n);
        assert(longer.skip(n as int) == s.skip(n as int).push(c));
    }
}

/// What one more character of the class at the end does to `leading`.
pub proof fn leading_push(s: Seq<char>, class: CharClass, c: char)
    requires
        class.holds(c),
    ensures
        leading(s.push(c), class) == if front(s, class) == s.len() {
            leading(s, class).push(c)
        } else {
            leading(s, class)
        },
{
    front_within(s, class);
    let n = front(s, class);
    let longer = s.push(c);
    if n == s.len() {
        front_is(longer, class, n + 1);
        assert(longer.take(n as int + 1) == s.take(n as int).push(c));
    } else {
        front_is(longer, class, n);
        assert(longer.take(n as int) == s.take(n as int));
    }
}

/// White space at the end does not change the trimmed text.
pub proof fn trimmed_push(s: Seq<char>, c: char)
    requires
        white_space(c),
    ensures
        trimmed(s.push(c)) == trimmed(s),
{
    let class = CharClass::WhiteSpace;
    strip_front_push(s, class, c);
    let rest = strip_front(s, class);
    if front(s, class) != s.len() {
        back_within(rest, class);
        assert(rest.push(c).drop_last() == rest);
        assert(back(rest.push(c), class) == back(rest, class) + 1);
        assert(strip_back(rest.push(c), class) == strip_back(rest, class));
    }
}

/// No line holds a line feed.
pub proof fn lines_hold_no_feed(s: Seq<char>)
    ensures
        forall|i: int| 0 <= i < lines(s).len() ==> !(#[trigger] lines(s)[i]).contains('\n'),
    decreases s.len(),
{
    let n = front(s, CharClass::WithinLine);
    front_within(s, CharClass::WithinLine);
    if s.len() > 0 && n < s.len() {
        lines_hold_no_feed(s.skip(n as int + 1));
        let rest = lines(s.skip(n as int + 1));
        let line = without_return(s.take(n as int));
        assert forall|i: int| 0 <= i < lines(s).len() implies !(#[trigger] lines(s)[i]).contains(
            '\n',
        ) by {
            if i == 0 {
                assert(lines(s)[0] == line);
                assert forall|k: int| 0 <= k < line.len() implies line[k] != '\n' by {
                    assert(line[k] == s[k]);
                }
            } else {
                assert(lines(s)[i] == rest[i - 1]);
            }
        }
    }
}

/// Lines without line feeds, each written with one behind it, are read back
/// as they were, but for a carriage return at a line's end.
pub proof fn lines_of_joined(list: Seq<Seq<char>>)
    requires
        list.len() > 0,
        forall|i: int| 0 <= i < list.len() ==> !(#[trigger] list[i]).contains('\n'),
    ensures
        lines(joined(list, "\n"@) + "\n"@) == list.map_values(|l: Seq<char>| without_return(l)),
    decreases list.len(),
{
    reveal_strlit("\n");
    let whole = joined(list, "\n"@) + "\n"@;
    let first = list.first();
    assert(!list[0].contains('\n'));
    let after = if list.len() == 1 {
        Seq::<char>::empty()
    } else {
        joined(list.drop_first(), "\n"@) + "\n"@
    };
    assert(whole == first + "\n"@ + after);
    assert forall|i: int| 0 <= i < first.len() implies CharClass::WithinLine.holds(
        #[trigger] whole[i],
    ) by {
        assert(whole[i] == first[i]);
    }
    front_is(whole, CharClass::WithinLine, first.len());
    assert(whole.take(first.len() as int) == first);
    assert(whole.skip(first.len() as int + 1) == after);
    let read = list.map_values(|l: Seq<char>| without_return(l));
    if list.len() == 1 {
        assert(lines(after) == Seq::<Seq<char>>::empty());
        assert(lines(whole) == read);
    } else {
        let rest = list.drop_first();
        assert forall|i: int| 0 <= i < rest.len() implies !(#[trigger] rest[i]).contains('\n') by {
            assert(rest[i] == list[i + 1]);
        }
        lines_of_joined(rest);
        assert(lines(whole) == read);
    }
}

/// Whether `s` is white space throughout.
pub open spec fn blank(s: Seq<char>) -> bool {
    forall|i: int| 0 <= i < s.len() ==> white_space(#[trigger] s[i])
}

/// Whether `s` holds no white space.
pub open spec fn solid(s: Seq<char>) -> bool {
    forall|i: int| 0 <= i < s.len() ==> !white_space(#[trigger] s[i])
}

/// White space is the characters that Unicode gives the property `White_Space`,
/// these and no others; the other classes are made of single characters.
pub proof fn classes_hold_what_they_name(c: char)
    ensures
        white_space(c) <==> set![
            0x9int, 0xa, 0xb, 0xc, 0xd, 0x20, 0x85, 0xa0, 0x1680, 0x2000, 0x2001, 0x2002, 0x2003,
            0x2004, 0x2005, 0x2006, 0x2007, 0x2008, 0x2009, 0x200a, 0x2028, 0x2029, 0x202f, 0x205f,
            0x3000,
        ].contains(c as int),
        CharClass::WhiteSpace.holds(c) <==> white_space(c),
        CharClass::Visible.holds(c) <==> !white_space(c),
        CharClass::WithinLine.holds(c) <==> c as int != 0xa,
        CharClass::BeforeColon.holds(c) <==> c as int != 0x3a,
        CharClass::Quote.holds(c) <==> c as int == 0x22,
{
}

/// Stripping takes away whole runs at both ends and nothing else: whatever
/// stands between them, if it starts and ends outside the class, is left.
pub proof fn strip_leaves_the_core(
    class: CharClass,
    before: Seq<char>,
    core: Seq<char>,
    after: Seq<char>,
)
    requires
        forall|i: int| 0 <= i < before.len() ==> class.holds(#[trigger] before[i]),
        forall|i: int| 0 <= i < after.len() ==> class.holds(#[trigger] after[i]),
        core.len() > 0 ==> !class.holds(core.first()) && !class.holds(core.last()),
    ensures
        strip_front(before + core + after, class) == if core.len() > 0 {
            core + after
        } else {
            Seq::empty()
        },
        strip_back(before + core + after, class) == if core.len() > 0 {
            before + core
        } else {
            Seq::empty()
        },
        strip(before + core + after, class) == core,
{
    let whole = before + core + after;
    if core.len() > 0 {
        front_is(whole, class, before.len());
        assert(whole.skip(before.len() as int) == core + after);
        back_is(whole, class, after.len());
        assert(whole.take(whole.len() - after.len()) == before + core);
        let rest = core + after;
        back_is(rest, class, after.len());
        assert(rest.take(rest.len() - after.len()) == core);
    } else {
        front_is(whole, class, whole.len());
        assert(whole.skip(whole.len() as int) == Seq::<char>::empty());
        back_is(whole, class, whole.len());
        assert(whole.take(0) == Seq::<char>::empty());
        assert(strip_back(Seq::<char>::empty(), class) == Seq::<char>::empty());
    }
}

/// Trimming leaves what stands between the white space at the two ends.
pub proof fn trimming_leaves_the_core(before: Seq<char>, core: Seq<char>, after: Seq<char>)
    requires
        blank(before),
        blank(after),
        core.len() > 0 ==> !white_space(core.first()) && !white_space(core.last()),
    ensures
        trimmed(before + core + after) == core,
{
    strip_leaves_the_core(CharClass::WhiteSpace, before, core, after);
}

/// The run at the front of a text is what stands before the first character
/// outside the class.
pub proof fn lead_ends_with_the_class(class: CharClass, run: Seq<char>, rest: Seq<char>)
    requires
        forall|i: int| 0 <= i < run.len() ==> class.holds(#[trigger] run[i]),
        rest.len() > 0 ==> !class.holds(rest.first()),
    ensures
        leading(run + rest, class) == run,
{
    front_is(run + rest, class, run.len());
    assert((run + rest).take(run.len() as int) == run);
}

/// The first word is what stands between the white space at the front and the
/// next one, however long it is; a text that is white space throughout has
/// none.
pub proof fn first_word_is_found(before: Seq<char>, word: Seq<char>, after: Seq<char>)
    requires
        blank(before),
        solid(word),
        after.len() > 0 ==> white_space(after.first()),
    ensures
        word.len() > 0 ==> first_word(before + word + after) == Some(word),
        first_word(before) is None,
{
    let class = CharClass::WhiteSpace;
    if word.len() > 0 {
        let whole = before + word + after;
        front_is(whole, class, before.len());
        assert(whole.skip(before.len() as int) == word + after);
        lead_ends_with_the_class(CharClass::Visible, word, after);
    }
    front_is(before, class, before.len());
}

/// A first word is one: it stands in the text with white space before it, and
/// nothing or white space behind it.
pub proof fn first_word_stands_free(s: Seq<char>)
    requires
        first_word(s) is Some,
    ensures
        solid(first_word(s).unwrap()),
        first_word(s).unwrap().len() > 0,
        exists|before: Seq<char>, after: Seq<char>|
            blank(before) && (after.len() > 0 ==> white_space(after.first())) && s
                == #[trigger] (before + first_word(s).unwrap() + after),
{
    let class = CharClass::WhiteSpace;
    front_within(s, class);
    let n = front(s, class) as int;
    let before = s.take(n);
    let rest = s.skip(n);
    front_within(rest, CharClass::Visible);
    let m = front(rest, CharClass::Visible) as int;
    let word = rest.take(m);
    let after = rest.skip(m);
    assert(rest[0] == s[n]);
    assert(s == before + word + after);
    assert(blank(before));
    assert(solid(word));
}

/// What follows a prefix is the rest of the text, and only a text that starts
/// with the prefix has such a rest.
pub proof fn rest_follows_the_prefix(prefix: Seq<char>, rest: Seq<char>, s: Seq<char>)
    ensures
        after_prefix(prefix + rest, prefix) == Some(rest),
        after_prefix(s, prefix) is Some ==> s == prefix + after_prefix(s, prefix).unwrap(),
{
    assert((prefix + rest).take(prefix.len() as int) == prefix);
    assert((prefix + rest).skip(prefix.len() as int) == rest);
    if after_prefix(s, prefix) is Some {
        assert(s == prefix + s.skip(prefix.len() as int));
    }
}

/// A text holds another one exactly where that stands between two others in it,
/// whatever these are.
pub proof fn held_text_stands_between(s: Seq<char>, part: Seq<char>)
    ensures
        holds_text(s, part) <==> exists|before: Seq<char>, after: Seq<char>|
            s == #[trigger] (before + part + after),
{
    if holds_text(s, part) {
        let at = choose|at: int| stands_at(s, part, at);
        let before = s.take(at);
        let after = s.skip(at + part.len());
        assert(s == before + part + after);
    }
    if exists|before: Seq<char>, after: Seq<char>| s == #[trigger] (before + part + after) {
        let (before, after) = choose|before: Seq<char>, after: Seq<char>|
            s == #[trigger] (before + part + after);
        let at = before.len() as int;
        assert(s.subrange(at, at + part.len()) == part);
        assert(stands_at(s, part, at));
    }
}

/// Text around a part does not hide it.
pub proof fn part_is_held(before: Seq<char>, part: Seq<char>, after: Seq<char>)
    ensures
        holds_text(before + part + after, part),
{
    held_text_stands_between(before + part + after, part);
}

/// A text is cut into lines at its line feeds, with or without a carriage
/// return before them, and nowhere else; no line is lost, and the last one
/// needs no end.
pub proof fn lines_are_cut_at_feeds(line: Seq<char>, rest: Seq<char>)
    requires
        !line.contains('\n'),
    ensures
        lines(line + "\r\n"@ + rest) == seq![line] + lines(rest),
        line.len() == 0 || line.last() != '\r' ==> lines(line + "\n"@ + rest) == seq![line] + lines(
            rest,
        ),
        line.len() > 0 ==> lines(line) == seq![line],
        lines(Seq::empty()) == Seq::<Seq<char>>::empty(),
{
    reveal_strlit("\n");
    reveal_strlit("\r\n");
    let class = CharClass::WithinLine;
    assert forall|i: int| 0 <= i < line.len() implies class.holds(#[trigger] line[i]) by {
        assert(line.contains(line[i]));
    }
    let ended = line + "\n"@ + rest;
    front_is(ended, class, line.len());
    assert(ended.take(line.len() as int) == line);
    assert(ended.skip(line.len() as int + 1) == rest);
    let returned = line + "\r\n"@ + rest;
    front_is(returned, class, line.len() + 1);
    assert(returned.take(line.len() as int + 1) == line.push('\r'));
    assert(line.push('\r').drop_last() == line);
    assert(returned.skip(line.len() as int + 2) == rest);
    front_is(line, class, line.len());
}

/// Joined lists stand one behind the other with the mark between them; a
/// single part stands alone.
pub proof fn joined_lists_follow_each_other(
    first: Seq<Seq<char>>,
    second: Seq<Seq<char>>,
    mark: Seq<char>,
    part: Seq<char>,
)
    ensures
        first.len() > 0 && second.len() > 0 ==> joined(first + second, mark) == joined(first, mark)
            + mark + joined(second, mark),
        joined(seq![part], mark) == part,
        joined(Seq::empty(), mark) == Seq::<char>::empty(),
    decreases first.len(),
{
    if first.len() > 0 && second.len() > 0 {
        let both = first + second;
        if first.len() == 1 {
            assert(both.drop_first() == second);
        } else {
            assert(both.drop_first() == first.drop_first() + second);
            joined_lists_follow_each_other(first.drop_first(), second, mark, part);
        }
        assert(joined(both, mark) == joined(first, mark) + mark + joined(second, mark));
    }
}

/// The text of a string is all of it, in a list and where it may be absent.
pub proof fn texts_are_kept(list: Seq<String>, text: Option<String>, slice: Option<&str>)
    ensures
        texts(list).len() == list.len(),
        forall|i: int| 0 <= i < list.len() ==> #[trigger] texts(list)[i] == list[i]@,
        text_of(text) is Some <==> text is Some,
        text is Some ==> text_of(text).unwrap() == text.unwrap()@,
        slice_text(slice) is Some <==> slice is Some,
        slice is Some ==> slice_text(slice).unwrap() == slice.unwrap()@,
{
}

} // verus!
