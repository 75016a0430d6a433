//! Decoding of the "query all" responses: one line, comma separated, one
//! field for each channel.

use vstd::prelude::*;

verus! {

/// Whether a character is white space as text trimming understands it: the
/// characters with the Unicode property `White_Space`.
pub open spec fn is_white_space(c: char) -> bool {
    let n = c as u32;
    (0x09 <= n <= 0x0D) || n == 0x20 || n == 0x85 || n == 0xA0 || n == 0x1680 || (0x2000 <= n
        <= 0x200A) || n == 0x2028 || n == 0x2029 || n == 0x202F || n == 0x205F || n == 0x3000
}

/// `s` without its leading white space.
pub open spec fn trim_start(s: Seq<char>) -> Seq<char>
    decreases s.len(),
{
    if s.len() > 0 && is_white_space(s.first()) {
        trim_start(s.drop_first())
    } else {
        s
    }
}

/// `s` without its trailing white space.
pub open spec fn trim_end(s: Seq<char>) -> Seq<char>
    decreases s.len(),
{
    if s.len() > 0 && is_white_space(s.last()) {
        trim_end(s.drop_last())
    } else {
        s
    }
}

/// `s` without its leading and trailing white space.
pub open spec fn trim(s: Seq<char>) -> Seq<char> {
    trim_end(trim_start(s))
}

/// The fields of `s` from the field that starts at `start` on, where the
/// characters from `start` up to `at` are known to hold no comma.
pub open spec fn fields_from(s: Seq<char>, start: int, at: int) -> Seq<Seq<char>>
    recommends
        0 <= start <= at <= s.len(),
    decreases s.len() - at,
{
    if at >= s.len() {
        seq![s.subrange(start, s.len() as int)]
    } else if s[at] == ',' {
        seq![s.subrange(start, at)] + fields_from(s, at + 1, at + 1)
    } else {
        fields_from(s, start, at + 1)
    }
}

/// The fields of a line: what stands between its commas. A line without a
/// comma is one field, and an empty line is one empty field.
pub open spec fn split_fields(s: Seq<char>) -> Seq<Seq<char>> {
    fields_from(s, 0, 0)
}

/// The fields of a response line, each without the white space around it.
pub open spec fn trimmed_fields(s: Seq<char>) -> Seq<Seq<char>> {
    split_fields(s).map_values(|field: Seq<char>| trim(field))
}

/// What a list of strings holds, as text.
pub open spec fn texts(fields: Seq<String>) -> Seq<Seq<char>> {
    fields.map_values(|field: String| field@)
}

/// The three readings of a response whose fields were parsed one by one,
/// `None` standing for a field that is no number. A field that is no number
/// reads as `zero`; with any other count of fields than three, all three
/// readings are `zero`.
pub open spec fn triple_of<T>(parsed: Seq<Option<T>>, zero: T) -> (T, T, T) {
    if parsed.len() == 3 {
        (or_zero(parsed[0], zero), or_zero(parsed[1], zero), or_zero(parsed[2], zero))
    } else {
        (zero, zero, zero)
    }
}

/// The value of a parsed field, `zero` where it is no number.
pub open spec fn or_zero<T>(parsed: Option<T>, zero: T) -> T {
    match parsed {
        Some(value) => value,
        None => zero,
    }
}

/// The fields put together again, with a comma between each two.
pub open spec fn join_fields(fields: Seq<Seq<char>>) -> Seq<char>
    decreases fields.len(),
{
    if fields.len() == 0 {
        Seq::empty()
    } else if fields.len() == 1 {
        fields[0]
    } else {
        fields[0] + seq![','] + join_fields(fields.drop_first())
    }
}

/// How many commas `s` holds.
pub open spec fn commas(s: Seq<char>) -> nat
    decreases s.len(),
{
    if s.len() == 0 {
        0
    } else if s.last() == ',' {
        commas(s.drop_last()) + 1
    } else {
        commas(s.drop_last())
    }
}

proof fn lemma_commas_none(s: Seq<char>)
    requires
        forall|i: int| 0 <= i < s.len() ==> s[i] != ',',
    ensures
        commas(s) == 0,
    decreases s.len(),
{
    if s.len() > 0 {
        lemma_commas_none(s.drop_last());
    }
}

proof fn lemma_commas_concat(a: Seq<char>, b: Seq<char>)
    ensures
        commas(a + b) == commas(a) + commas(b),
    decreases b.len(),
{
    if b.len() == 0 {
        assert(a + b =~= a);
    } else {
        assert((a + b).drop_last() =~= a + b.drop_last());
        lemma_commas_concat(a, b.drop_last());
    }
}

proof fn lemma_fields_from(s: Seq<char>, start: int, at: int)
    requires
        0 <= start <= at <= s.len(),
        forall|i: int| start <= i < at ==> s[i] != ',',
    ensures
        fields_from(s, start, at).len() == commas(s.subrange(start, s.len() as int)) + 1,
        join_fields(fields_from(s, start, at)) == s.subrange(start, s.len() as int),
        forall|k: int, j: int|
            0 <= k < fields_from(s, start, at).len() && 0 <= j < fields_from(s, start, at)[k].len()
                ==> fields_from(s, start, at)[k][j] != ',',
    decreases s.len() - at,
{
    let n = s.len() as int;
    let fields = fields_from(s, start, at);
    if at >= n {
        lemma_commas_none(s.subrange(start, n));
    } else if s[at] == ',' {
        lemma_fields_from(s, at + 1, at + 1);
        let head = s.subrange(start, at);
        let rest = fields_from(s, at + 1, at + 1);
        assert(fields.drop_first() =~= rest);
        assert(fields[0] == head);
        assert(head + seq![','] + s.subrange(at + 1, n) =~= s.subrange(start, n));
        lemma_commas_none(head);
        lemma_commas_concat(head, seq![',']);
        lemma_commas_concat(head + seq![','], s.subrange(at + 1, n));
        assert(seq![','].drop_last() =~= Seq::<char>::empty());
        assert(commas(seq![',']) == 1) by {
            assert(commas(Seq::<char>::empty()) == 0);
        }
        assert forall|k: int, j: int|
            0 <= k < fields.len() && 0 <= j < fields[k].len() implies fields[k][j] != ',' by {
            if k > 0 {
                assert(fields[k] == rest[k - 1]);
            }
        }
    } else {
        lemma_fields_from(s, start, at + 1);
    }
}

/// Splitting a line loses nothing and leaves no comma in a field: there is
/// one field more than the line has commas, no field holds a comma, and the
/// fields joined by commas are the line again.
pub proof fn lemma_split_fields(s: Seq<char>)
    ensures
        split_fields(s).len() == commas(s) + 1,
        join_fields(split_fields(s)) == s,
        forall|k: int, j: int|
            0 <= k < split_fields(s).len() && 0 <= j < split_fields(s)[k].len()
                ==> split_fields(s)[k][j] != ',',
{
    lemma_fields_from(s, 0, 0);
    assert(s.subrange(0, s.len() as int) =~= s);
}

/// The readings of a line go by its commas alone. With exactly two commas
/// each reading is its own field's value, or `zero` where that field is no
/// number, whatever the other fields hold; with any other count of commas
/// all three readings are `zero`.
pub proof fn lemma_readings_by_commas<T>(line: Seq<char>, parsed: Seq<Option<T>>, zero: T)
    requires
        parsed.len() == trimmed_fields(line).len(),
    ensures
        commas(line) == 2 ==> triple_of(parsed, zero) == (
            or_zero(parsed[0], zero),
            or_zero(parsed[1], zero),
            or_zero(parsed[2], zero),
        ),
        commas(line) != 2 ==> triple_of(parsed, zero) == (zero, zero, zero),
{
    lemma_split_fields(line);
}

/// What trimming at the start takes away is white space, and what it
/// leaves is the rest of the text, which does not start with white space.
pub proof fn lemma_trim_start(s: Seq<char>)
    ensures
        trim_start(s).len() <= s.len(),
        trim_start(s) == s.subrange(s.len() - trim_start(s).len(), s.len() as int),
        forall|i: int| 0 <= i < s.len() - trim_start(s).len() ==> is_white_space(s[i]),
        trim_start(s).len() > 0 ==> !is_white_space(trim_start(s).first()),
    decreases s.len(),
{
    if s.len() > 0 && is_white_space(s.first()) {
        let rest = s.drop_first();
        lemma_trim_start(rest);
        let kept = trim_start(rest);
        assert(kept =~= s.subrange(s.len() - kept.len(), s.len() as int));
        assert forall|i: int| 0 <= i < s.len() - kept.len() implies is_white_space(s[i]) by {
            if i > 0 {
                assert(s[i] == rest[i - 1]);
            }
        }
    } else {
        assert(s =~= s.subrange(0, s.len() as int));
    }
}

/// What trimming at the end takes away is white space, and what it leaves
/// is the text before it, which does not end in white space.
pub proof fn lemma_trim_end(s: Seq<char>)
    ensures
        trim_end(s).len() <= s.len(),
        trim_end(s) == s.subrange(0, trim_end(s).len() as int),
        forall|i: int| trim_end(s).len() <= i < s.len() ==> is_white_space(s[i]),
        trim_end(s).len() > 0 ==> !is_white_space(trim_end(s).last()),
    decreases s.len(),
{
    if s.len() > 0 && is_white_space(s.last()) {
        let rest = s.drop_last();
        lemma_trim_end(rest);
        let kept = trim_end(rest);
        assert(kept =~= s.subrange(0, kept.len() as int));
        assert forall|i: int| kept.len() <= i < s.len() implies is_white_space(s[i]) by {
            if i < rest.len() {
                assert(s[i] == rest[i]);
            }
        }
    } else {
        assert(s =~= s.subrange(0, s.len() as int));
    }
}

/// A trimmed text neither starts nor ends with white space, is never
/// longer than the text it was made from, and trimming it again changes
/// nothing.
pub proof fn lemma_trim(s: Seq<char>)
    ensures
        trim(s).len() <= s.len(),
        trim(s).len() > 0 ==> !is_white_space(trim(s).first()) && !is_white_space(trim(s).last()),
        trim(trim(s)) == trim(s),
{
    let front = trim_start(s);
    let kept = trim_end(front);
    lemma_trim_start(s);
    lemma_trim_end(front);
    if kept.len() > 0 {
        assert(kept.first() == front.first());
    }
}

/// Tells white space from other characters.
pub fn is_whitespace(c: char) -> (white: bool)
    ensures
        white == is_white_space(c),
{
    let n: u32 = c as u32;
    (0x09 <= n && n <= 0x0D) || n == 0x20 || n == 0x85 || n == 0xA0 || n == 0x1680 || (0x2000
        <= n && n <= 0x200A) || n == 0x2028 || n == 0x2029 || n == 0x202F || n == 0x205F || n
        == 0x3000
}

/// The characters of a string, in order.
fn characters(s: &str) -> (chars: Vec<char>)
    ensures
        chars@ == s@,
{
    let mut chars: Vec<char> = Vec::new();
    for c in it: s.chars()
        invariant
            it.seq() == s@,
            chars@ == s@.subrange(0, it.index() as int),
    {
        chars.push(c);
        assert(chars@ =~= s@.subrange(0, it.index() + 1));
    }
    assert(chars@ =~= s@);
    chars
}

/// Narrows the range `from..to` of `chars` to what trimming leaves of it.
fn trim_range(chars: &Vec<char>, from: usize, to: usize) -> (range: (usize, usize))
    requires
        from <= to <= chars@.len(),
    ensures
        from <= range.0 <= range.1 <= to,
        chars@.subrange(range.0 as int, range.1 as int) == trim(
            chars@.subrange(from as int, to as int),
        ),
{
    let mut a: usize = from;
    while a < to && is_whitespace(chars[a])
        invariant
            from <= a <= to <= chars@.len(),
            trim_start(chars@.subrange(a as int, to as int)) == trim_start(
                chars@.subrange(from as int, to as int),
            ),
        decreases to - a,
    {
        assert(chars@.subrange(a as int, to as int).drop_first() =~= chars@.subrange(
            a + 1,
            to as int,
        ));
        a += 1;
    }
    let mut b: usize = to;
    while a < b && is_whitespace(chars[b - 1])
        invariant
            a <= b <= to <= chars@.len(),
            trim_end(chars@.subrange(a as int, b as int)) == trim_end(
                chars@.subrange(a as int, to as int),
            ),
        decreases b - a,
    {
        assert(chars@.subrange(a as int, b as int).drop_last() =~= chars@.subrange(
            a as int,
            b - 1,
        ));
        b -= 1;
    }
    (a, b)
}

/// Splits a response line at its commas and trims each field.
pub fn measurement_fields(line: &str) -> (fields: Vec<String>)
    ensures
        texts(fields@) == trimmed_fields(line@),
{
    let chars = characters(line);
    let n: usize = chars.len();
    let mut fields: Vec<String> = Vec::new();
    let mut start: usize = 0;
    let mut at: usize = 0;
    while at < n
        invariant
            n == chars@.len(),
            chars@ == line@,
            start <= at <= n,
            trimmed_fields(line@) == texts(fields@) + fields_from(line@, start as int, at as int).map_values(
                |field: Seq<char>| trim(field),
            ),
        decreases n - at,
    {
        if chars[at] == ',' {
            let (a, b) = trim_range(&chars, start, at);
            let field = line.substring_char(a, b).to_owned();
            let ghost before = fields@;
            fields.push(field);
            proof {
                let rest = fields_from(line@, at + 1, at + 1);
                let head = seq![line@.subrange(start as int, at as int)];
                let f = |field: Seq<char>| trim(field);
                assert((head + rest).map_values(f) =~= head.map_values(f) + rest.map_values(f));
                assert(texts(fields@) =~= texts(before) + head.map_values(f));
                assert(texts(fields@) + rest.map_values(f) =~= texts(before) + (head
                    + rest).map_values(f));
            }
            start = at + 1;
        }
        at += 1;
    }
    let (a, b) = trim_range(&chars, start, n);
    let field = line.substring_char(a, b).to_owned();
    let ghost before = fields@;
    fields.push(field);
    proof {
        let head = seq![line@.subrange(start as int, n as int)];
        let f = |field: Seq<char>| trim(field);
        assert(texts(fields@) =~= texts(before) + head.map_values(f));
    }
    fields
}

/// The three readings of a response from its fields, parsed one by one.
/// A field that did not parse reads as `zero`. With any other count of
/// fields than three, all three readings are `zero`: a malformed frame never
/// fails the read.
pub fn measurement_triple<T: Copy>(parsed: &Vec<Option<T>>, zero: T) -> (readings: (T, T, T))
    ensures
        readings == triple_of(parsed@, zero),
{
    if parsed.len() == 3 {
        (value_or(parsed[0], zero), value_or(parsed[1], zero), value_or(parsed[2], zero))
    } else {
        (zero, zero, zero)
    }
}

/// The value of a parsed field, `zero` where it did not parse.
pub fn value_or<T: Copy>(parsed: Option<T>, zero: T) -> (value: T)
    ensures
        value == or_zero(parsed, zero),
{
    match parsed {
        Some(value) => value,
        None => zero,
    }
}

} // verus!
