//! The watcher's line protocol: `status||artist||title`.
//!
//! A line is cut at every `||` into fields. The first three fields patch the
//! status, the artist and the title of a track; a line with fewer fields leaves
//! the rest of the track as it was, and fields beyond the third are ignored.

use crate::state::{State, TrackState};
use crate::status::{status_from, status_of};
use crate::text::{to_chars, trim, trim_of};
use vstd::prelude::*;
use vstd::string::*;

verus! {

/// Whether the separator `||` stands at index `i` of `s`.
pub open spec fn separator_at(s: Seq<char>, i: int) -> bool {
    0 <= i && i + 1 < s.len() && s[i] == '|' && s[i + 1] == '|'
}

/// The index of the first separator in `s`; the length of `s` if it holds none.
pub open spec fn first_separator(s: Seq<char>) -> int
    decreases s.len(),
{
    if s.len() < 2 {
        s.len() as int
    } else if s[0] == '|' && s[1] == '|' {
        0
    } else {
        1 + first_separator(s.drop_first())
    }
}

/// The fields of a line: what stands before, between and after its separators,
/// read from the left.
pub open spec fn fields_of(s: Seq<char>) -> Seq<Seq<char>>
    decreases s.len(),
{
    let k = first_separator(s);
    if 0 <= k && k + 2 <= s.len() {
        seq![s.take(k)] + fields_of(s.skip(k + 2))
    } else {
        seq![s]
    }
}

/// A track with its status, artist and title replaced by the first, second and
/// third of `fields`, as far as there are any.
pub open spec fn patched(track: TrackState, fields: Seq<Seq<char>>) -> TrackState {
    TrackState {
        status: if fields.len() > 0 {
            status_of(fields[0])
        } else {
            track.status
        },
        artist: if fields.len() > 1 {
            fields[1]
        } else {
            track.artist
        },
        title: if fields.len() > 2 {
            fields[2]
        } else {
            track.title
        },
    }
}

/// What a line of fields makes of a track, and whether that changed the track.
pub open spec fn parsed_fields(line: Seq<char>, track: TrackState) -> (TrackState, bool) {
    let next = patched(track, fields_of(line));
    (next, next != track)
}

/// What an update makes of a track, and whether that changed the track. An
/// empty update changes nothing; any other is stripped of the white space
/// around it and read as a line of fields.
pub open spec fn parsed_update(update: Seq<char>, track: TrackState) -> (TrackState, bool) {
    if update.len() == 0 {
        (track, false)
    } else {
        parsed_fields(trim_of(update), track)
    }
}

/// The first separator lies within the line, no separator stands before it, and
/// one stands at it unless it is the line's end.
pub proof fn lemma_first_separator(s: Seq<char>)
    ensures
        0 <= first_separator(s) <= s.len(),
        first_separator(s) < s.len() ==> separator_at(s, first_separator(s)),
        forall|i: int| 0 <= i < first_separator(s) ==> !separator_at(s, i),
    decreases s.len(),
{
    if s.len() >= 2 && !(s[0] == '|' && s[1] == '|') {
        let rest = s.drop_first();
        lemma_first_separator(rest);
        assert forall|i: int| 0 <= i < first_separator(s) implies !separator_at(s, i) by {
            if i > 0 {
                assert(!separator_at(rest, i - 1));
            }
        }
    }
}

/// An index is the first separator of `s` if no separator stands before it and
/// one stands at it, or it is the end of `s`.
pub proof fn lemma_first_separator_is(s: Seq<char>, k: int)
    requires
        0 <= k <= s.len(),
        forall|i: int| 0 <= i < k ==> !separator_at(s, i),
        k < s.len() ==> separator_at(s, k),
    ensures
        first_separator(s) == k,
{
    lemma_first_separator(s);
    let f = first_separator(s);
    if f < k {
        assert(separator_at(s, f));
    } else if k < f {
        assert(separator_at(s, k));
    }
}

/// Every line has a first field: what stands before its first separator.
pub proof fn lemma_first_field(s: Seq<char>)
    ensures
        fields_of(s).len() >= 1,
        fields_of(s)[0] == s.take(first_separator(s)),
        fields_of(s).len() > 1 <==> first_separator(s) < s.len(),
        first_separator(s) < s.len() ==> fields_of(s) == seq![s.take(first_separator(s))]
            + fields_of(s.skip(first_separator(s) + 2)),
{
    lemma_first_separator(s);
    let k = first_separator(s);
    if k + 2 <= s.len() {
        lemma_first_field_of_rest(s.skip(k + 2));
    } else {
        assert(s.take(k) =~= s);
    }
}

proof fn lemma_first_field_of_rest(s: Seq<char>)
    ensures
        fields_of(s).len() >= 1,
{
    lemma_first_separator(s);
}

/// The index of the first separator at or after `from`; the length of `chars`
/// if none follows.
fn find_separator(chars: &Vec<char>, from: usize) -> (at: usize)
    requires
        from <= chars.len(),
    ensures
        from <= at <= chars.len(),
        at - from == first_separator(chars@.skip(from as int)),
{
    let n = chars.len();
    let mut i = from;
    while i < n
        invariant
            n == chars.len(),
            from <= i <= n,
            forall|j: int| from <= j < i ==> !separator_at(chars@, j),
        ensures
            from <= i <= n,
            forall|j: int| from <= j < i ==> !separator_at(chars@, j),
            i < n ==> separator_at(chars@, i as int),
        decreases n - i,
    {
        if chars[i] == '|' && i + 1 < n && chars[i + 1] == '|' {
            break ;
        }
        i += 1;
    }
    proof {
        let rest = chars@.skip(from as int);
        assert forall|j: int| 0 <= j < i - from implies !separator_at(rest, j) by {
            assert(!separator_at(chars@, from + j));
        }
        lemma_first_separator_is(rest, i - from);
    }
    i
}

/// The field of `line` that starts at `from`, and where it ends: at the next
/// separator, or at the end of the line if this is the last field.
fn field_from<'a>(line: &'a str, chars: &Vec<char>, from: usize) -> (found: (&'a str, usize))
    requires
        chars@ == line@,
        from <= chars.len(),
    ensures
        from <= found.1 <= chars.len(),
        found.0@ == fields_of(line@.skip(from as int))[0],
        fields_of(line@.skip(from as int)).len() > 1 <==> found.1 < chars.len(),
        found.1 < chars.len() ==> found.1 + 2 <= chars.len() && fields_of(
            line@.skip(from as int),
        ) == seq![found.0@] + fields_of(line@.skip(found.1 + 2)),
{
    let end = find_separator(chars, from);
    proof {
        let rest = line@.skip(from as int);
        lemma_first_field(rest);
        assert(rest.take(end - from) =~= line@.subrange(from as int, end as int));
        if end < chars.len() {
            assert(rest.skip(end - from + 2) =~= line@.skip(end + 2));
        }
    }
    (line.substring_char(from, end), end)
}

/// Reads `line` as fields and patches `track` with the first three of them.
/// Says whether the track changed.
pub fn parse_fields(line: &str, track: &mut State) -> (dirty: bool)
    ensures
        (final(track)@, dirty) == parsed_fields(line@, old(track)@),
{
    let chars = to_chars(line);
    let n = chars.len();
    let ghost fields = fields_of(line@);
    let mut dirty = false;
    let (word, end) = field_from(line, &chars, 0);
    assert(line@.skip(0) =~= line@);
    let status = status_from(word);
    if status != track.status {
        track.status = status;
        dirty = true;
    }
    if end < n {
        let (artist, end) = field_from(line, &chars, end + 2);
        assert(fields.len() > 1 && fields[1] == artist@);
        let artist = artist.to_owned();
        if !(track.artist == artist) {
            track.artist = artist;
            dirty = true;
        }
        if end < n {
            let (title, _) = field_from(line, &chars, end + 2);
            assert(fields.len() > 2 && fields[2] == title@);
            let title = title.to_owned();
            if !(track.title == title) {
                track.title = title;
                dirty = true;
            }
        } else {
            assert(fields.len() == 2);
        }
    } else {
        assert(fields.len() == 1);
    }
    dirty
}

/// Reads one update of the watcher into `track` and says whether the track
/// changed. An empty update changes nothing; any other is stripped of the
/// white space around it and read as a line of fields.
pub fn parse_update(update: &str, track: &mut State) -> (dirty: bool)
    ensures
        (final(track)@, dirty) == parsed_update(update@, old(track)@),
{
    if update.is_empty() {
        return false;
    }
    parse_fields(trim(update), track)
}

/// Patching twice with the same fields is patching once.
pub proof fn lemma_patched_twice(track: TrackState, fields: Seq<Seq<char>>)
    ensures
        patched(patched(track, fields), fields) == patched(track, fields),
{
}

/// An update that is read a second time changes nothing: the second reading
/// reports no change and leaves the track as the first made it.
pub proof fn lemma_parse_again_is_clean(update: Seq<char>, track: TrackState)
    ensures
        parsed_update(update, parsed_update(update, track).0) == (
            parsed_update(update, track).0,
            false,
        ),
{
    lemma_patched_twice(track, fields_of(trim_of(update)));
}

} // verus!
