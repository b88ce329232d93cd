//! The server's report on itself, as the `INFO` command returns it: lines of
//! `key:value`, with `#` lines as section headings.

use vstd::prelude::*;
use crate::text::{push_char, texts_of};
use crate::text_map::TextMap;

verus! {

/// The place of the first `c` among the characters from `from` up to but
/// without `to`, or `to` where there is none.
pub open spec fn find_from(all: Seq<char>, from: int, to: int, c: char) -> int
    decreases to - from,
{
    if from >= to {
        to
    } else if all[from] == c {
        from
    } else {
        find_from(all, from + 1, to, c)
    }
}

/// Where the line that begins at `pos` stops: before its line feed, and
/// before the carriage return that precedes the line feed, if one does.
pub open spec fn line_stop(all: Seq<char>, pos: int) -> int {
    let end = find_from(all, pos, all.len() as int, '\n');
    if end < all.len() && end > pos && all[end - 1] == '\r' {
        end - 1
    } else {
        end
    }
}

/// What the line from `from` up to but without `to` says: key and value,
/// parted by its first colon. An empty line, a line that begins with `#` and
/// a line without a colon say nothing.
pub open spec fn line_entry(all: Seq<char>, from: int, to: int) -> Option<(Seq<char>, Seq<char>)> {
    if from >= to || all[from] == '#' {
        None
    } else {
        let colon = find_from(all, from, to, ':');
        if colon < to {
            Some((all.subrange(from, colon), all.subrange(colon + 1, to)))
        } else {
            None
        }
    }
}

/// What the lines from `pos` on say, by key. Of two lines with the same key
/// the later one counts.
pub open spec fn info_from(all: Seq<char>, pos: int) -> Map<Seq<char>, Seq<char>>
    decreases all.len() - pos,
{
    if pos < 0 || pos >= all.len() {
        Map::empty()
    } else {
        let end = find_from(all, pos, all.len() as int, '\n');
        let later = if pos <= end < all.len() {
            info_from(all, end + 1)
        } else {
            Map::empty()
        };
        match line_entry(all, pos, line_stop(all, pos)) {
            Some((key, value)) => if later.contains_key(key) {
                later
            } else {
                later.insert(key, value)
            },
            None => later,
        }
    }
}

/// What a report says, by key.
pub open spec fn info_of(text: Seq<char>) -> Map<Seq<char>, Seq<char>> {
    info_from(text, 0)
}

/// `earlier`, overlaid with `later`: where both hold a key, `later` counts.
pub open spec fn overlaid(
    earlier: Map<Seq<char>, Seq<char>>,
    later: Map<Seq<char>, Seq<char>>,
) -> Map<Seq<char>, Seq<char>> {
    earlier.union_prefer_right(later)
}

/// The characters of a text.
fn chars_of(text: &str) -> (chars: Vec<char>)
    ensures
        chars@ == text@,
{
    let mut chars: Vec<char> = Vec::new();
    for c in it: text.chars()
        invariant
            it.seq() == text@,
            chars@ == text@.subrange(0, it.index() as int),
    {
        chars.push(c);
        assert(chars@ =~= text@.subrange(0, it.index() + 1));
    }
    assert(chars@ =~= text@);
    chars
}

/// The text of the characters from `from` up to but without `to`.
fn text_between(chars: &Vec<char>, from: usize, to: usize) -> (text: String)
    requires
        from <= to <= chars.len(),
    ensures
        text@ == chars@.subrange(from as int, to as int),
{
    let mut text = String::new();
    let mut i: usize = from;
    while i < to
        invariant
            from <= i <= to <= chars.len(),
            text@ == chars@.subrange(from as int, i as int),
        decreases to - i,
    {
        push_char(&mut text, chars[i]);
        assert(text@ =~= chars@.subrange(from as int, i + 1));
        i += 1;
    }
    text
}

/// The place of the first `c` from `from` up to but without `to`.
fn find(chars: &Vec<char>, from: usize, to: usize, c: char) -> (place: usize)
    requires
        from <= to <= chars.len(),
    ensures
        place == find_from(chars@, from as int, to as int, c),
        from <= place <= to,
{
    let mut i: usize = from;
    while i < to
        invariant
            from <= i <= to <= chars.len(),
            find_from(chars@, from as int, to as int, c) == find_from(
                chars@,
                i as int,
                to as int,
                c,
            ),
        decreases to - i,
    {
        if chars[i] == c {
            return i;
        }
        i += 1;
    }
    i
}

/// The server's report on itself, by key.
#[derive(Debug)]
pub struct RedisInfoDict {
    map: TextMap<String>,
}

impl View for RedisInfoDict {
    type V = Map<Seq<char>, Seq<char>>;

    closed spec fn view(&self) -> Map<Seq<char>, Seq<char>> {
        texts_of(self.map@)
    }
}

impl RedisInfoDict {
    /// Reads a report. Lines end with a line feed, with or without a
    /// carriage return before it. Empty lines, lines that begin with `#` and
    /// lines without a colon are passed over. Every other line gives the text
    /// before its first colon as key and the text behind it as value; of two
    /// lines with the same key the later one counts.
    pub fn new(info_str: &str) -> (dict: Self)
        ensures
            dict@ == info_of(info_str@),
    {
        let chars = chars_of(info_str);
        let len = chars.len();
        let mut map: TextMap<String> = TextMap::new();
        let mut pos: usize = 0;
        assert(overlaid(texts_of(map@), info_from(chars@, 0)) =~= info_from(chars@, 0));
        while pos < len
            invariant
                len == chars.len(),
                pos <= len,
                overlaid(texts_of(map@), info_from(chars@, pos as int)) == info_from(chars@, 0),
            decreases len - pos,
        {
            let end = find(&chars, pos, len, '\n');
            let stop = if end < len && end > pos && chars[end - 1] == '\r' {
                end - 1
            } else {
                end
            };
            let next = if end < len {
                end + 1
            } else {
                len
            };
            let ghost before = texts_of(map@);
            let ghost later = info_from(chars@, next as int);
            if pos < stop && chars[pos] != '#' {
                let colon = find(&chars, pos, stop, ':');
                if colon < stop {
                    let key = text_between(&chars, pos, colon);
                    let value = text_between(&chars, colon + 1, stop);
                    map.insert(key, value);
                    assert(texts_of(map@) =~= before.insert(key@, value@));
                    assert(overlaid(before.insert(key@, value@), later) =~= overlaid(
                        before,
                        info_from(chars@, pos as int),
                    ));
                }
            }
            assert(overlaid(texts_of(map@), later) =~= overlaid(
                before,
                info_from(chars@, pos as int),
            ));
            pos = next;
        }
        assert(overlaid(texts_of(map@), info_from(chars@, pos as int)) =~= texts_of(map@));
        RedisInfoDict { map }
    }

    /// Looks up a key of the report.
    pub fn find(&self, key: &String) -> (value: Option<&String>)
        ensures
            match value {
                Some(v) => self@.contains_key(key@) && v@ == self@[key@],
                None => !self@.contains_key(key@),
            },
    {
        self.map.get(key)
    }

    /// Whether the report holds the key.
    pub fn contains_key(&self, key: &String) -> (found: bool)
        ensures
            found == self@.contains_key(key@),
    {
        self.map.contains_key(key)
    }

    /// How many keys the report holds.
    pub fn len(&self) -> (count: usize)
        ensures
            count == self@.dom().len(),
    {
        assert(self@.dom() =~= self.map@.dom());
        self.map.len()
    }

    /// Whether the report holds nothing.
    pub fn is_empty(&self) -> (empty: bool)
        ensures
            empty == (self@.dom().len() == 0),
    {
        assert(self@.dom() =~= self.map@.dom());
        self.map.is_empty()
    }

    /// The keys and values of the report, to be read with `TextMap::key_at`
    /// and `TextMap::value_at`.
    pub fn entries(&self) -> (map: &TextMap<String>)
        ensures
            texts_of(map@) == self@,
    {
        &self.map
    }
}

} // verus!
