//! Reading the block-device listing: one device per line, a name and a
//! class tag separated by white space. Lines tagged `disk` give a device
//! path, every other line is passed over.

use crate::screen::texts;
use vstd::prelude::*;

verus! {

/// White space: the characters that Unicode marks `White_Space`.
pub open spec fn is_space(c: char) -> bool {
    let code = c as u32;
    ||| 0x09 <= code <= 0x0D
    ||| code == 0x20
    ||| code == 0x85
    ||| code == 0xA0
    ||| code == 0x1680
    ||| 0x2000 <= code <= 0x200A
    ||| code == 0x2028
    ||| code == 0x2029
    ||| code == 0x202F
    ||| code == 0x205F
    ||| code == 0x3000
}

/// The number of characters of `s` before its first line feed, or all of
/// them where it has none.
pub open spec fn line_len(s: Seq<char>) -> nat
    decreases s.len(),
{
    if s.len() == 0 || s[0] == '\n' {
        0
    } else {
        1 + line_len(s.drop_first())
    }
}

/// The number of characters of `s` before its first white space, or all of
/// them where it has none.
pub open spec fn word_len(s: Seq<char>) -> nat
    decreases s.len(),
{
    if s.len() == 0 || is_space(s[0]) {
        0
    } else {
        1 + word_len(s.drop_first())
    }
}

/// The lines of `s`: the stretches between line feeds. A line feed at the
/// very end opens no further line.
pub open spec fn lines(s: Seq<char>) -> Seq<Seq<char>>
    decreases s.len(),
{
    if s.len() == 0 {
        Seq::empty()
    } else {
        let n = line_len(s);
        if n >= s.len() {
            seq![s]
        } else {
            seq![s.take(n as int)] + lines(s.skip(n as int + 1))
        }
    }
}

/// The fields of a line: its longest stretches free of white space, from
/// left to right.
pub open spec fn fields(s: Seq<char>) -> Seq<Seq<char>>
    decreases s.len(),
    via fields_decreases
{
    if s.len() == 0 {
        Seq::empty()
    } else if is_space(s[0]) {
        fields(s.drop_first())
    } else {
        let w = word_len(s);
        seq![s.take(w as int)] + fields(s.skip(w as int))
    }
}

#[via_fn]
proof fn fields_decreases(s: Seq<char>) {
    if s.len() > 0 && !is_space(s[0]) {
        lemma_word_len_bounded(s);
    }
}

/// The tag of a line that names a whole disk.
pub open spec fn disk_tag() -> Seq<char> {
    seq!['d', 'i', 's', 'k']
}

/// What stands before a device's name in its path.
pub open spec fn device_dir() -> Seq<char> {
    seq!['/', 'd', 'e', 'v', '/']
}

/// The device that a line names: the line has exactly two fields, the
/// second is the disk tag, and the device's path is its name, the first
/// field, behind `/dev/`. Any other line names none.
pub open spec fn device_on_line(line: Seq<char>) -> Option<Seq<char>> {
    let parts = fields(line);
    if parts.len() == 2 && parts[1] == disk_tag() {
        Some(device_dir() + parts[0])
    } else {
        None
    }
}

/// The devices that the lines name, in the order of the lines.
pub open spec fn devices_on_lines(ls: Seq<Seq<char>>) -> Seq<Seq<char>>
    decreases ls.len(),
{
    if ls.len() == 0 {
        Seq::empty()
    } else {
        let rest = devices_on_lines(ls.drop_first());
        match device_on_line(ls[0]) {
            Some(device) => seq![device] + rest,
            None => rest,
        }
    }
}

/// The devices that a listing names, in its order.
pub open spec fn devices_in_listing(text: Seq<char>) -> Seq<Seq<char>> {
    devices_on_lines(lines(text))
}

/// A word is no longer than what it is cut from, and where that starts with
/// a character that is no white space the word is not empty.
proof fn lemma_word_len_bounded(s: Seq<char>)
    ensures
        word_len(s) <= s.len(),
        s.len() > 0 && !is_space(s[0]) ==> word_len(s) >= 1,
    decreases s.len(),
{
    if s.len() > 0 && !is_space(s[0]) {
        lemma_word_len_bounded(s.drop_first());
    }
}

/// The line ends at `n` if no line feed stands before `n` and one stands at
/// `n`, or `s` ends there.
proof fn lemma_line_len_is(s: Seq<char>, n: int)
    requires
        0 <= n <= s.len(),
        forall|j: int| 0 <= j < n ==> s[j] != '\n',
        n == s.len() || s[n] == '\n',
    ensures
        line_len(s) == n,
    decreases n,
{
    if n > 0 {
        lemma_line_len_is(s.drop_first(), n - 1);
    }
}

/// The word ends at `n` if no white space stands before `n` and one stands
/// at `n`, or `s` ends there.
proof fn lemma_word_len_is(s: Seq<char>, n: int)
    requires
        0 <= n <= s.len(),
        forall|j: int| 0 <= j < n ==> !is_space(s[j]),
        n == s.len() || is_space(s[n]),
    ensures
        word_len(s) == n,
    decreases n,
{
    if n > 0 {
        lemma_word_len_is(s.drop_first(), n - 1);
    }
}

/// White space at the start of a line belongs to no field.
proof fn lemma_fields_skip_spaces(s: Seq<char>, k: int)
    requires
        0 <= k <= s.len(),
        forall|j: int| 0 <= j < k ==> is_space(s[j]),
    ensures
        fields(s) == fields(s.skip(k)),
    decreases k,
{
    if k == 0 {
        assert(s.skip(0) =~= s);
    } else {
        lemma_fields_skip_spaces(s.drop_first(), k - 1);
        assert(s.drop_first().skip(k - 1) =~= s.skip(k));
    }
}

/// The first field of a line: it starts at `a`, behind white space only,
/// and ends before `b`, where white space stands or the line ends. The
/// other fields are those of the line from `b` on.
proof fn lemma_first_field(s: Seq<char>, a: int, b: int)
    requires
        0 <= a < b <= s.len(),
        forall|j: int| 0 <= j < a ==> is_space(s[j]),
        forall|j: int| a <= j < b ==> !is_space(s[j]),
        b == s.len() || is_space(s[b]),
    ensures
        fields(s) == seq![s.subrange(a, b)] + fields(s.skip(b)),
{
    let t = s.skip(a);
    lemma_fields_skip_spaces(s, a);
    lemma_word_len_is(t, b - a);
    assert(t.take(b - a) =~= s.subrange(a, b));
    assert(t.skip(b - a) =~= s.skip(b));
}

/// A line that holds a name, one blank and a tag, neither of them empty or
/// with white space in it, names a device exactly if the tag is the disk
/// tag; the device's path is then the name behind `/dev/`.
pub proof fn lemma_device_on_plain_line(name: Seq<char>, tag: Seq<char>)
    requires
        name.len() > 0,
        tag.len() > 0,
        forall|j: int| 0 <= j < name.len() ==> !is_space(name[j]),
        forall|j: int| 0 <= j < tag.len() ==> !is_space(tag[j]),
    ensures
        fields(name + seq![' '] + tag) == seq![name, tag],
        device_on_line(name + seq![' '] + tag) == if tag == disk_tag() {
            Some(device_dir() + name)
        } else {
            None
        },
{
    let line = name + seq![' '] + tag;
    let behind = seq![' '] + tag;
    lemma_first_field(line, 0, name.len() as int);
    assert(line.subrange(0, name.len() as int) =~= name);
    assert(line.skip(name.len() as int) =~= behind);
    lemma_first_field(behind, 1, behind.len() as int);
    assert(behind.subrange(1, behind.len() as int) =~= tag);
    assert(behind.skip(behind.len() as int) =~= Seq::<char>::empty());
    assert(fields(line) =~= seq![name, tag]);
}

/// A listing is read line by line: what its first line names comes first,
/// and what the text behind the line feed names follows.
pub proof fn lemma_listing_line_by_line(line: Seq<char>, rest: Seq<char>)
    requires
        forall|j: int| 0 <= j < line.len() ==> line[j] != '\n',
    ensures
        devices_in_listing(line + seq!['\n'] + rest) == devices_on_lines(seq![line])
            + devices_in_listing(rest),
{
    let text = line + seq!['\n'] + rest;
    lemma_line_len_is(text, line.len() as int);
    assert(text.take(line.len() as int) =~= line);
    assert(text.skip(line.len() as int + 1) =~= rest);
    assert(lines(text).drop_first() =~= lines(rest));
    assert(devices_on_lines(seq![line].drop_first()) =~= Seq::<Seq<char>>::empty());
    assert(devices_on_lines(seq![line]) + devices_in_listing(rest) =~= devices_in_listing(text));
}

/// Whether `c` is white space.
pub fn is_whitespace(c: char) -> (space: bool)
    ensures
        space == is_space(c),
{
    let code = c as u32;
    (0x09 <= code && code <= 0x0D)
        || code == 0x20
        || code == 0x85
        || code == 0xA0
        || code == 0x1680
        || (0x2000 <= code && code <= 0x200A)
        || code == 0x2028
        || code == 0x2029
        || code == 0x202F
        || code == 0x205F
        || code == 0x3000
}

/// The characters of `text`, in order.
fn chars_of(text: &str) -> (chars: Vec<char>)
    ensures
        chars@ == text@,
{
    broadcast use vstd::string::group_string_axioms;

    let mut chars: Vec<char> = Vec::new();
    for c in it: text.chars()
        invariant
            it.seq() == text@,
            chars@ == text@.take(it.index() as int),
    {
        chars.push(c);
    }
    assert(chars@ =~= text@);
    chars
}

/// The index at which the line that starts at `start` ends: that of the
/// next line feed, or the end of `chars`.
fn line_end(chars: &Vec<char>, start: usize) -> (end: usize)
    requires
        start <= chars.len(),
    ensures
        start <= end <= chars.len(),
        end - start == line_len(chars@.skip(start as int)),
{
    let mut end = start;
    while end < chars.len() && chars[end] != '\n'
        invariant
            start <= end <= chars.len(),
            forall|j: int| start <= j < end ==> chars@[j] != '\n',
        decreases chars.len() - end,
    {
        end = end + 1;
    }
    proof {
        lemma_line_len_is(chars@.skip(start as int), end - start);
    }
    end
}

/// The first index from `from` on, before `end`, that holds no white space;
/// `end` where there is none.
fn skip_spaces(chars: &Vec<char>, from: usize, end: usize) -> (at: usize)
    requires
        from <= end <= chars.len(),
    ensures
        from <= at <= end,
        forall|j: int| from <= j < at ==> is_space(chars@[j]),
        at == end || !is_space(chars@[at as int]),
{
    let mut at = from;
    while at < end && is_whitespace(chars[at])
        invariant
            from <= at <= end <= chars.len(),
            forall|j: int| from <= j < at ==> is_space(chars@[j]),
        decreases end - at,
    {
        at = at + 1;
    }
    at
}

/// The first index from `from` on, before `end`, that holds white space;
/// `end` where there is none.
fn word_end(chars: &Vec<char>, from: usize, end: usize) -> (at: usize)
    requires
        from <= end <= chars.len(),
    ensures
        from <= at <= end,
        forall|j: int| from <= j < at ==> !is_space(chars@[j]),
        at == end || is_space(chars@[at as int]),
{
    let mut at = from;
    while at < end && !is_whitespace(chars[at])
        invariant
            from <= at <= end <= chars.len(),
            forall|j: int| from <= j < at ==> !is_space(chars@[j]),
        decreases end - at,
    {
        at = at + 1;
    }
    at
}

/// Whether the characters from `from` up to `to` spell the disk tag.
fn is_disk_tag(chars: &Vec<char>, from: usize, to: usize) -> (tagged: bool)
    requires
        from <= to <= chars.len(),
    ensures
        tagged == (chars@.subrange(from as int, to as int) == disk_tag()),
{
    let ghost word = chars@.subrange(from as int, to as int);
    if to - from != 4 {
        assert(word.len() != disk_tag().len());
        return false;
    }
    let tagged = chars[from] == 'd'
        && chars[from + 1] == 'i'
        && chars[from + 2] == 's'
        && chars[from + 3] == 'k';
    proof {
        if tagged {
            assert(word =~= disk_tag());
        } else {
            assert(word[0] == chars@[from as int]);
            assert(word[1] == chars@[from + 1]);
            assert(word[2] == chars@[from + 2]);
            assert(word[3] == chars@[from + 3]);
        }
    }
    tagged
}

/// The device that the line from `start` up to `end` names, if it names
/// one.
fn device_between(
    text: &str,
    chars: &Vec<char>,
    start: usize,
    end: usize,
) -> (device: Option<String>)
    requires
        chars@ == text@,
        start <= end <= chars.len(),
    ensures
        device is Some <==> device_on_line(chars@.subrange(start as int, end as int)) is Some,
        device matches Some(path) ==> device_on_line(chars@.subrange(start as int, end as int))
            == Some(path@),
{
    let ghost line = chars@.subrange(start as int, end as int);
    let name_start = skip_spaces(chars, start, end);
    if name_start == end {
        proof {
            // the line is white space only: it has no field
            lemma_fields_skip_spaces(line, line.len() as int);
            assert(line.skip(line.len() as int) =~= Seq::<char>::empty());
        }
        return None;
    }
    let name_end = word_end(chars, name_start, end);
    let ghost after_name = line.skip(name_end - start);
    proof {
        // fields(line) is the name, then fields(after_name)
        lemma_first_field(line, name_start - start, name_end - start);
        assert(line.subrange(name_start - start, name_end - start) =~= chars@.subrange(
            name_start as int,
            name_end as int,
        ));
    }
    let tag_start = skip_spaces(chars, name_end, end);
    if tag_start == end {
        proof {
            // only white space follows the name: the line has one field
            lemma_fields_skip_spaces(after_name, after_name.len() as int);
            assert(after_name.skip(after_name.len() as int) =~= Seq::<char>::empty());
        }
        return None;
    }
    let tag_end = word_end(chars, tag_start, end);
    let ghost after_tag = after_name.skip(tag_end - name_end);
    proof {
        // fields(after_name) is the tag, then fields(after_tag)
        lemma_first_field(after_name, tag_start - name_end, tag_end - name_end);
        assert(after_name.subrange(tag_start - name_end, tag_end - name_end) =~= chars@.subrange(
            tag_start as int,
            tag_end as int,
        ));
    }
    let more_start = skip_spaces(chars, tag_end, end);
    if more_start != end {
        proof {
            // a third field starts at more_start: the line has three or more
            lemma_fields_skip_spaces(after_tag, more_start - tag_end);
            lemma_word_len_bounded(after_tag.skip(more_start - tag_end));
            assert(fields(after_tag).len() >= 1);
        }
        return None;
    }
    proof {
        // only white space follows the tag: the line has exactly two fields
        lemma_fields_skip_spaces(after_tag, after_tag.len() as int);
        assert(after_tag.skip(after_tag.len() as int) =~= Seq::<char>::empty());
        assert(fields(line) =~= seq![
            chars@.subrange(name_start as int, name_end as int),
            chars@.subrange(tag_start as int, tag_end as int),
        ]);
    }
    if !is_disk_tag(chars, tag_start, tag_end) {
        return None;
    }
    let name = text.substring_char(name_start, name_end);
    let mut path = "/dev/".to_owned();
    proof {
        reveal_strlit("/dev/");
        assert("/dev/"@ =~= device_dir());
    }
    path.append(name);
    Some(path)
}

/// Reads a block-device listing. Each line holds fields separated by white
/// space; a line of exactly two fields whose second is `disk` names a
/// device, and gives the path `/dev/` followed by the first field. All other
/// lines are passed over. The paths come in the order of their lines.
pub fn parse_device_listing(text: &str) -> (devices: Vec<String>)
    ensures
        texts(devices@) == devices_in_listing(text@),
{
    let chars = chars_of(text);
    let mut devices: Vec<String> = Vec::new();
    let mut start: usize = 0;
    assert(chars@.skip(0) =~= text@);
    assert(texts(devices@) + devices_in_listing(text@) =~= devices_in_listing(text@));
    while start < chars.len()
        invariant
            chars@ == text@,
            start <= chars.len(),
            devices_in_listing(text@) == texts(devices@) + devices_on_lines(
                lines(chars@.skip(start as int)),
            ),
        decreases chars.len() - start,
    {
        let ghost rest = chars@.skip(start as int);
        let ghost found = texts(devices@);
        let end = line_end(&chars, start);
        let device = device_between(text, &chars, start, end);
        let ghost line = chars@.subrange(start as int, end as int);
        let next = if end < chars.len() {
            end + 1
        } else {
            end
        };
        proof {
            // lines(rest) is this line, then the lines from `next` on
            let later = lines(chars@.skip(next as int));
            assert(rest.take(end - start) =~= line);
            if end < chars.len() {
                assert(rest.skip(end - start + 1) =~= chars@.skip(next as int));
            } else {
                assert(rest =~= line);
                assert(later =~= Seq::<Seq<char>>::empty());
            }
            assert(lines(rest) =~= seq![line] + later);
            assert(lines(rest).drop_first() =~= later);
        }
        match device {
            Some(path) => {
                devices.push(path);
                assert(texts(devices@) =~= found + seq![path@]);
                assert(devices_in_listing(text@) =~= texts(devices@) + devices_on_lines(
                    lines(chars@.skip(next as int)),
                ));
            },
            None => {},
        }
        start = next;
    }
    assert(chars@.skip(start as int) =~= Seq::<char>::empty());
    assert(devices_in_listing(text@) =~= texts(devices@));
    devices
}

} // verus!
