//! Paths as text, and how the systems read them.
//!
//! What separates the parts of a path, and what may stand before them, differs
//! between systems. The contracts speak of a reading: what a Unix system makes
//! of the text, or what Windows makes of it.
use vstd::prelude::*;

use crate::json::text_view;

verus! {

/// A system that reads paths.
pub enum System {
    /// A slash separates.
    Unix,
    /// A slash and a backslash separate, and a drive or a share may come first.
    Windows,
}

/// How a path is read: a prefix, then names with separators between them.
pub struct Reading {
    /// How many characters the prefix has.
    pub prefix: nat,
    /// A slash separates.
    pub slash: bool,
    /// A backslash separates.
    pub backslash: bool,
    /// A single dot between separators does not count.
    pub dots: bool,
}

impl Reading {
    /// The character separates.
    pub open spec fn separates(self, c: char) -> bool {
        (self.slash && c == '/') || (self.backslash && c == '\\')
    }

    /// The text between two separators does not count.
    pub open spec fn skips(self, segment: Seq<char>) -> bool {
        segment.len() == 0 || (self.dots && segment == "."@)
    }
}

/// The character separates on some system.
pub open spec fn separator(c: char) -> bool {
    c == '/' || c == '\\'
}

/// The text begins with the letter of a drive and a colon.
pub open spec fn has_drive(path: Seq<char>) -> bool {
    path.len() >= 2 && letter(path[0]) && path[1] == ':'
}

/// The character names a drive.
pub open spec fn letter(c: char) -> bool {
    'a' <= c <= 'z' || 'A' <= c <= 'Z'
}

/// The text begins with two separators: for Windows a share, a device or what
/// is to be taken as it stands.
pub open spec fn has_share(path: Seq<char>) -> bool {
    path.len() >= 2 && separator(path[0]) && separator(path[1])
}

/// Windows takes the path as it stands.
pub open spec fn verbatim(path: Seq<char>) -> bool {
    path.len() >= 4 && path[0] == '\\' && path[1] == '\\' && path[2] == '?' && path[3] == '\\'
}

/// Windows takes the path as it stands, and it is one on a share.
pub open spec fn verbatim_share(path: Seq<char>) -> bool {
    &&& verbatim(path)
    &&& path.len() >= 8
    &&& path[4] == 'U' && path[5] == 'N' && path[6] == 'C' && path[7] == '\\'
}

/// The place of the first separator from `from` on, or the end.
pub open spec fn segment_end(reading: Reading, path: Seq<char>, from: int) -> int
    decreases path.len() - from,
{
    if from >= path.len() {
        path.len() as int
    } else if reading.separates(path[from]) {
        from
    } else {
        segment_end(reading, path, from + 1)
    }
}

/// The end of the share that the path begins with, if it names one: two
/// segments behind the two separators, such as server and share.
pub open spec fn share_end(reading: Reading, path: Seq<char>) -> Option<int> {
    let from = if verbatim_share(path) {
        8
    } else {
        2
    };
    let middle = segment_end(reading, path, from);
    let end = segment_end(reading, path, middle + 1);
    if from < middle && middle + 1 < end {
        Some(end)
    } else {
        None
    }
}

/// Windows takes the path as it stands, and it is one on a drive.
pub open spec fn verbatim_drive(path: Seq<char>) -> bool {
    &&& verbatim(path)
    &&& path.len() >= 6
    &&& letter(path[4]) && path[5] == ':'
    &&& path.len() == 6 || separator(path[6])
}

/// The path begins with what stands before the name of a device.
pub open spec fn has_device(path: Seq<char>) -> bool {
    has_share(path) && path.len() >= 4 && path[2] == '.' && separator(path[3])
}

/// The prefix of a path that begins with two separators may have the length
/// that it has in the reading. Where the path names a share, a device or a
/// drive, it ends behind that name; a path on a share that names none has no
/// prefix, and where the name of a device is missing no more than what stands
/// before it counts. In a path that is taken as it stands, a slash behind a
/// drive may count as part of the prefix; what other slashes do to it is left
/// open, and so is a share there that is begun and not named.
pub open spec fn fits_prefix(reading: Reading, path: Seq<char>) -> bool {
    if verbatim_drive(path) {
        reading.prefix == 6 || (reading.prefix == 7 && path.len() > 6 && path[6] == '/')
    } else if verbatim(path) && path.contains('/') {
        true
    } else {
        match share_end(reading, path) {
            Some(end) => reading.prefix == end,
            None => if verbatim_share(path) {
                true
            } else if verbatim(path) || has_device(path) {
                reading.prefix <= 4
            } else {
                reading.prefix == 0
            },
        }
    }
}

/// The system may read the path so. Unix has one reading of every path, and so
/// has Windows of every path but some that are taken as they stand or that
/// leave out the name of a device: how long their prefix is, and whether
/// slashes and dots count in what is taken as it stands, is left open.
pub open spec fn reads(system: System, reading: Reading, path: Seq<char>) -> bool {
    match system {
        System::Unix => reading == unix_reading(),
        System::Windows => if has_share(path) {
            &&& reading.prefix <= path.len()
            &&& reading.backslash
            &&& verbatim(path) || (reading.slash && reading.dots)
            &&& fits_prefix(reading, path)
        } else {
            reading == windows_reading(path)
        },
    }
}

/// How Unix reads a path.
pub open spec fn unix_reading() -> Reading {
    Reading { prefix: 0, slash: true, backslash: false, dots: true }
}

/// How Windows reads a path without a share.
pub open spec fn windows_reading(path: Seq<char>) -> Reading {
    Reading {
        prefix: if has_drive(path) {
            2
        } else {
            0
        },
        slash: true,
        backslash: true,
        dots: true,
    }
}

/// The last place of a separator, or -1.
pub open spec fn last_separator(reading: Reading, s: Seq<char>) -> int
    decreases s.len(),
{
    if s.len() == 0 {
        -1
    } else if reading.separates(s.last()) {
        s.len() - 1
    } else {
        last_separator(reading, s.drop_last())
    }
}

/// What stands behind the last separator.
pub open spec fn last_segment(reading: Reading, s: Seq<char>) -> Seq<char> {
    s.skip(last_separator(reading, s) + 1)
}

/// Where the last name of a text without a prefix begins and ends, if there is
/// one. Separators at the end and segments that do not count are passed over;
/// two dots are no name.
pub open spec fn name_span(reading: Reading, body: Seq<char>) -> Option<(int, int)>
    decreases body.len(),
{
    proof {
        last_separator_is_last(reading, body);
    }
    let place = last_separator(reading, body);
    let segment = last_segment(reading, body);
    if reading.skips(segment) {
        if place < 0 {
            None
        } else {
            name_span(reading, body.take(place))
        }
    } else if segment == "."@ || segment == ".."@ {
        None
    } else {
        Some((place + 1, body.len() as int))
    }
}

/// Where the file name of a path begins and ends, if it has one.
pub open spec fn file_span(reading: Reading, path: Seq<char>) -> Option<(int, int)> {
    match name_span(reading, path.skip(reading.prefix as int)) {
        Some((start, end)) => Some((reading.prefix + start, reading.prefix + end)),
        None => None,
    }
}

/// The file name of a path, if it has one.
pub open spec fn file_name(reading: Reading, path: Seq<char>) -> Option<Seq<char>> {
    match file_span(reading, path) {
        Some((start, end)) => Some(path.subrange(start, end)),
        None => None,
    }
}

/// The last place of `c` in `s`, or -1.
pub open spec fn last_place(s: Seq<char>, c: char) -> int
    decreases s.len(),
{
    if s.len() == 0 {
        -1
    } else if s.last() == c {
        s.len() - 1
    } else {
        last_place(s.drop_last(), c)
    }
}

/// The part of a file name before its extension: all of it where it has no dot
/// but perhaps the first character.
pub open spec fn stem(name: Seq<char>) -> Seq<char> {
    if last_place(name, '.') <= 0 {
        name
    } else {
        name.take(last_place(name, '.'))
    }
}

/// The extension of a file name, if it has one.
pub open spec fn extension(name: Seq<char>) -> Option<Seq<char>> {
    if last_place(name, '.') <= 0 {
        None
    } else {
        Some(name.skip(last_place(name, '.') + 1))
    }
}

/// The extension of the file name of a path, if it has both.
pub open spec fn path_extension(reading: Reading, path: Seq<char>) -> Option<Seq<char>> {
    match file_name(reading, path) {
        Some(name) => extension(name),
        None => None,
    }
}

/// `name` is the file name of the path on that system, if it has one.
pub open spec fn is_file_name(system: System, path: Seq<char>, name: Option<Seq<char>>) -> bool {
    exists|reading: Reading| #[trigger]
        reads(system, reading, path) && name == file_name(reading, path)
}

/// `ext` is the extension of the path on that system, if it has one.
pub open spec fn is_extension(system: System, path: Seq<char>, ext: Option<Seq<char>>) -> bool {
    exists|reading: Reading| #[trigger]
        reads(system, reading, path) && ext == path_extension(reading, path)
}

/// `r` is the path with another extension: what stands before the name, the
/// stem, a dot and the extension. What stands behind the name, which does not
/// count, may have gone. A path without a name stays as it is. A name of two
/// dots and an extension may have lost the extension instead.
pub open spec fn extended(reading: Reading, path: Seq<char>, ext: Seq<char>, r: Seq<char>) -> bool {
    match file_span(reading, path) {
        Some((start, end)) => {
            let old_stem = stem(path.subrange(start, end));
            let new = path.take(start) + old_stem + "."@ + ext;
            ||| r == new
            ||| r == new + path.skip(end)
            ||| old_stem == "."@ && r == path.take(start) + ".."@
        },
        None => r == path,
    }
}

/// `r` is the path with another extension on that system.
pub open spec fn is_extended(system: System, path: Seq<char>, ext: Seq<char>, r: Seq<char>) -> bool {
    exists|reading: Reading| #[trigger]
        reads(system, reading, path) && extended(reading, path, ext, r)
}

/// The text is made of separators, each with nothing behind it that counts.
pub open spec fn trails(reading: Reading, tail: Seq<char>) -> bool
    decreases tail.len(),
{
    proof {
        last_separator_is_last(reading, tail);
    }
    let place = last_separator(reading, tail);
    tail.len() == 0 || (place >= 0 && reading.skips(last_segment(reading, tail)) && trails(
        reading,
        tail.take(place),
    ))
}

/// `parent` is what stands before the name that begins at `start`: nothing but
/// the prefix before a name alone, the root before a name in the root, else the
/// directory without the separator behind it. Separators and dots to spare at
/// the end of either may stand or have gone.
pub open spec fn stands_before(reading: Reading, path: Seq<char>, start: int, parent: Seq<char>) -> bool {
    let prefix = reading.prefix as int;
    if start == prefix {
        parent == path.take(start)
    } else if trails(reading, path.subrange(prefix, start - 1)) {
        exists|k: int| prefix < k <= start && parent == #[trigger] path.take(k)
    } else {
        exists|k: int|
            prefix <= k < start && parent == #[trigger] path.take(k) && trails(
                reading,
                path.subrange(k, start - 1),
            )
    }
}

/// `parent` is the parent of the path. Of a path without a name only that its
/// parent is a beginning of it.
pub open spec fn parent_as_read(reading: Reading, path: Seq<char>, parent: Option<Seq<char>>) -> bool {
    match file_span(reading, path) {
        Some((start, _)) => parent is Some && stands_before(reading, path, start, parent->0),
        None => parent matches Some(text) ==> exists|k: int|
            0 <= k <= path.len() && text == #[trigger] path.take(k),
    }
}

/// `parent` is the parent of the path on that system.
pub open spec fn is_parent(system: System, path: Seq<char>, parent: Option<Seq<char>>) -> bool {
    exists|reading: Reading| #[trigger]
        reads(system, reading, path) && parent_as_read(reading, path, parent)
}

/// `r` is `path` put behind a directory, with a separator of the system between
/// them. Behind nothing it is `path` itself; behind a separator another one may
/// be left out, and so it may before nothing.
pub open spec fn put_behind(system: System, dir: Seq<char>, path: Seq<char>, r: Seq<char>) -> bool {
    let separated = r == dir + "/"@ + path || (system is Windows && r == dir + "\\"@ + path);
    if dir.len() == 0 {
        r == path
    } else if path.len() == 0 || dir.last() == '/' || (system is Windows && dir.last() == '\\') {
        separated || r == dir + path
    } else {
        separated
    }
}

/// The text is one name on every system.
pub open spec fn plain_name(name: Seq<char>) -> bool {
    &&& name.len() > 0
    &&& separator_free(name)
    &&& name != "."@ && name != ".."@
}

/// A segment of the text begins at `i`.
pub open spec fn segment_start(s: Seq<char>, i: int) -> bool {
    i == 0 || (0 < i <= s.len() && separator(s[i - 1]))
}

/// A segment of the text ends at `i`.
pub open spec fn segment_stop(s: Seq<char>, i: int) -> bool {
    i == s.len() || (0 <= i < s.len() && separator(s[i]))
}

/// Every segment of the text is a name: none is empty, one dot or two dots.
pub open spec fn names_only(s: Seq<char>) -> bool {
    forall|i: int| #[trigger]
        segment_start(s, i) ==> {
            &&& !segment_stop(s, i)
            &&& s[i] == '.' ==> !segment_stop(s, i + 1)
            &&& s[i] == '.' && s[i + 1] == '.' ==> !segment_stop(s, i + 2)
        }
}

/// A directory that is taken as it stands holds names alone, with a backslash
/// between them and perhaps one at the end.
pub open spec fn settled_dir(dir: Seq<char>) -> bool {
    let below = dir.skip(4);
    &&& !dir.contains('/')
    &&& names_only(below) || (below.len() > 0 && below.last() == '\\' && names_only(
        below.drop_last(),
    ))
}

/// The text with backslashes for slashes.
pub open spec fn backslashed(s: Seq<char>) -> Seq<char> {
    Seq::new(
        s.len(),
        |i: int|
            if s[i] == '/' {
                '\\'
            } else {
                s[i]
            },
    )
}

/// `r` is `path`, seen from a directory that Windows takes as it stands: the
/// whole is freed of dots, and a backslash separates. What is free of them
/// already is put behind the directory, or behind its prefix where it begins at
/// the root. Of what is not, only that a name still ends it.
pub open spec fn joined_verbatim(dir: Seq<char>, path: Seq<char>, r: Seq<char>) -> bool {
    &&& path.len() == 0 ==> put_behind(System::Windows, dir, path, r)
    &&& settled_dir(dir) && names_only(path) ==> put_behind(
        System::Windows,
        dir,
        backslashed(path),
        r,
    )
    &&& settled_dir(dir) && path.len() > 0 && separator(path[0]) && names_only(path.skip(1))
        ==> exists|reading: Reading| #[trigger]
        reads(System::Windows, reading, dir) && r == dir.take(reading.prefix as int) + "\\"@
            + backslashed(path.skip(1))
    &&& plain_name(path) ==> exists|d: Seq<char>|
        d.len() > 0 && separator(d.last()) && r == #[trigger] (d + path)
}

/// `r` is `path`, seen from a directory. A path that begins at the root stands
/// alone, on Windows behind the prefix of the directory; a path with a drive
/// stands alone; any other is put behind the directory. On Windows a path with
/// two separators before it may stand alone or behind a beginning of the
/// directory.
pub open spec fn joined(system: System, dir: Seq<char>, path: Seq<char>, r: Seq<char>) -> bool {
    match system {
        System::Unix => if path.len() > 0 && path[0] == '/' {
            r == path
        } else {
            put_behind(system, dir, path, r)
        },
        System::Windows => if has_drive(path) {
            r == path
        } else if verbatim(dir) {
            joined_verbatim(dir, path, r)
        } else if has_share(path) {
            r == path || exists|k: int| 0 <= k <= dir.len() && r == #[trigger] dir.take(k) + path
        } else if path.len() > 0 && separator(path[0]) {
            exists|reading: Reading| #[trigger]
                reads(system, reading, dir) && r == dir.take(reading.prefix as int) + path
        } else {
            put_behind(system, dir, path, r) || (has_drive(dir) && dir.len() == 2 && r == dir + path)
        },
    }
}

/// The text holds nothing that separates the parts of a path on some system.
pub open spec fn separator_free(s: Seq<char>) -> bool {
    !s.contains('/') && !s.contains('\\')
}

/// `last_separator` is the last place of a separator.
pub proof fn last_separator_is_last(reading: Reading, s: Seq<char>)
    ensures
        -1 <= last_separator(reading, s) < s.len() as int,
        last_separator(reading, s) >= 0 ==> reading.separates(s[last_separator(reading, s)]),
        forall|i: int|
            last_separator(reading, s) < i < s.len() ==> !reading.separates(#[trigger] s[i]),
    decreases s.len(),
{
    if s.len() > 0 && !reading.separates(s.last()) {
        last_separator_is_last(reading, s.drop_last());
        assert forall|i: int| last_separator(reading, s) < i < s.len() implies !reading.separates(
            #[trigger] s[i],
        ) by {
            if i < s.len() - 1 {
                assert(s[i] == s.drop_last()[i]);
            }
        }
    }
}

/// `last_place` is the last place.
pub proof fn last_place_is_a_place(s: Seq<char>, c: char)
    ensures
        -1 <= last_place(s, c) < s.len() as int,
        last_place(s, c) >= 0 ==> s[last_place(s, c)] == c,
        forall|i: int| last_place(s, c) < i < s.len() ==> s[i] != c,
    decreases s.len(),
{
    if s.len() > 0 && s.last() != c {
        last_place_is_a_place(s.drop_last(), c);
        assert forall|i: int| last_place(s, c) < i < s.len() implies s[i] != c by {
            if i < s.len() - 1 {
                assert(s[i] == s.drop_last()[i]);
            }
        }
    }
}

/// The last name of a text is one: it is not empty, holds no separator and is
/// no dots alone. It stands at the beginning or behind a separator, and what
/// stands behind it does not count.
pub proof fn name_span_is_a_name(reading: Reading, body: Seq<char>)
    ensures
        name_span(reading, body) matches Some((start, end)) ==> {
            &&& 0 <= start < end <= body.len()
            &&& start > 0 ==> reading.separates(body[start - 1])
            &&& forall|i: int| start <= i < end ==> !reading.separates(#[trigger] body[i])
            &&& body.subrange(start, end) != "."@
            &&& body.subrange(start, end) != ".."@
            &&& trails(reading, body.skip(end))
        },
    decreases body.len(),
{
    last_separator_is_last(reading, body);
    let place = last_separator(reading, body);
    let segment = last_segment(reading, body);
    if reading.skips(segment) {
        if place >= 0 {
            let front = body.take(place);
            name_span_is_a_name(reading, front);
            if let Some((start, end)) = name_span(reading, front) {
                assert(front.subrange(start, end) =~= body.subrange(start, end));
                assert forall|i: int| start <= i < end implies !reading.separates(
                    #[trigger] body[i],
                ) by {
                    assert(front[i] == body[i]);
                }
                let tail = body.skip(end);
                last_separator_is_last(reading, tail);
                assert(tail[place - end] == body[place]);
                assert forall|i: int| place - end < i < tail.len() implies !reading.separates(
                    #[trigger] tail[i],
                ) by {
                    assert(tail[i] == body[end + i]);
                }
                assert(last_separator(reading, tail) == place - end);
                assert(last_segment(reading, tail) =~= segment);
                assert(tail.take(place - end) =~= front.skip(end));
            }
        }
    } else {
        assert(body.subrange(place + 1, body.len() as int) =~= segment);
        assert(body.skip(body.len() as int) =~= Seq::<char>::empty());
    }
}

/// A name with something behind it that does not count is still the last name.
pub proof fn name_before_a_trail(reading: Reading, front: Seq<char>, name: Seq<char>, tail: Seq<char>)
    requires
        front.len() > 0 ==> reading.separates(front.last()),
        name.len() > 0,
        forall|i: int| 0 <= i < name.len() ==> !reading.separates(#[trigger] name[i]),
        name != "."@,
        trails(reading, tail),
    ensures
        name == ".."@ ==> name_span(reading, front + name + tail) is None,
        name != ".."@ ==> name_span(reading, front + name + tail) == Some(
            (front.len() as int, (front.len() + name.len()) as int),
        ),
    decreases tail.len(),
{
    let body = front + name + tail;
    let start = front.len() as int;
    let end = (front.len() + name.len()) as int;
    if tail.len() == 0 {
        assert(body =~= front + name);
        assert forall|i: int| start - 1 < i < body.len() implies !reading.separates(
            #[trigger] body[i],
        ) by {
            assert(body[i] == name[i - start]);
        }
        last_separator_is(reading, body, start - 1);
        assert(last_segment(reading, body) =~= name);
    } else {
        last_separator_is_last(reading, tail);
        let place = last_separator(reading, tail);
        assert forall|i: int| end + place < i < body.len() implies !reading.separates(
            #[trigger] body[i],
        ) by {
            assert(body[i] == tail[i - end]);
        }
        last_separator_is(reading, body, end + place);
        assert(last_segment(reading, body) =~= last_segment(reading, tail));
        assert(body.take(end + place) =~= front + name + tail.take(place));
        name_before_a_trail(reading, front, name, tail.take(place));
    }
}

/// The last place of a separator is the one with none behind it.
proof fn last_separator_is(reading: Reading, s: Seq<char>, place: int)
    requires
        -1 <= place < s.len() as int,
        place >= 0 ==> reading.separates(s[place]),
        forall|i: int| place < i < s.len() ==> !reading.separates(#[trigger] s[i]),
    ensures
        last_separator(reading, s) == place,
{
    last_separator_is_last(reading, s);
}

/// The file name of a path stands behind its prefix, and holds no separator.
pub proof fn file_span_is_a_name(reading: Reading, path: Seq<char>)
    requires
        reading.prefix <= path.len(),
    ensures
        file_span(reading, path) matches Some((start, end)) ==> {
            &&& reading.prefix <= start < end <= path.len()
            &&& start > reading.prefix ==> reading.separates(path[start - 1])
            &&& forall|i: int| start <= i < end ==> !reading.separates(#[trigger] path[i])
            &&& path.subrange(start, end) != "."@
            &&& path.subrange(start, end) != ".."@
            &&& trails(reading, path.skip(end))
        },
{
    let prefix = reading.prefix as int;
    let body = path.skip(prefix);
    name_span_is_a_name(reading, body);
    if let Some((start, end)) = name_span(reading, body) {
        assert(path.subrange(prefix + start, prefix + end) =~= body.subrange(start, end));
        assert(path.skip(prefix + end) =~= body.skip(end));
        assert forall|i: int| prefix + start <= i < prefix + end implies !reading.separates(
            #[trigger] path[i],
        ) by {
            assert(path[i] == body[i - prefix]);
        }
        if start > 0 {
            assert(path[prefix + start - 1] == body[start - 1]);
        }
    }
}

/// What does not count behind a name ends in a separator, or in one and a dot.
pub proof fn trail_ends_so(reading: Reading, tail: Seq<char>)
    requires
        trails(reading, tail),
        tail.len() > 0,
    ensures
        reading.separates(tail.last()) || (tail.len() >= 2 && tail.last() == '.'
            && reading.separates(tail[tail.len() - 2])),
{
    reveal_strlit(".");
    last_separator_is_last(reading, tail);
    let place = last_separator(reading, tail);
    let segment = last_segment(reading, tail);
    if segment.len() > 0 {
        assert(segment.last() == tail.last());
    }
}

/// One name is all names.
pub proof fn plain_name_is_names_only(name: Seq<char>)
    requires
        plain_name(name),
    ensures
        names_only(name),
        backslashed(name) == name,
{
    reveal_strlit(".");
    reveal_strlit("..");
    assert forall|i: int| 0 <= i < name.len() implies !separator(#[trigger] name[i]) by {
        assert(name.contains(name[i]));
    }
    assert forall|i: int| #[trigger] segment_start(name, i) implies {
        &&& !segment_stop(name, i)
        &&& name[i] == '.' ==> !segment_stop(name, i + 1)
        &&& name[i] == '.' && name[i + 1] == '.' ==> !segment_stop(name, i + 2)
    } by {
        assert(i == 0);
        if name[0] == '.' && name.len() == 1 {
            assert(name =~= "."@);
        }
        if name.len() == 2 && name[0] == '.' && name[1] == '.' {
            assert(name =~= ".."@);
        }
    }
    assert(backslashed(name) =~= name);
}

/// A name in the place of the file name of a path is the file name; two dots
/// there are none. What does not count behind it makes no difference.
pub proof fn replaced_name_is_the_name(reading: Reading, path: Seq<char>, name: Seq<char>, tail: Seq<char>)
    requires
        reading.prefix <= path.len(),
        file_span(reading, path) is Some,
        name.len() > 0,
        forall|i: int| 0 <= i < name.len() ==> !reading.separates(#[trigger] name[i]),
        name != "."@,
        trails(reading, tail),
    ensures
        ({
            let start = file_span(reading, path)->Some_0.0;
            let new = path.take(start) + name + tail;
            &&& name == ".."@ ==> file_span(reading, new) is None
            &&& name != ".."@ ==> file_span(reading, new) == Some((start, start + name.len()))
                && file_name(reading, new) == Some(name)
        }),
{
    let prefix = reading.prefix as int;
    file_span_is_a_name(reading, path);
    let start = file_span(reading, path)->Some_0.0;
    let front = path.subrange(prefix, start);
    let new = path.take(start) + name + tail;
    if start > prefix {
        assert(front.last() == path[start - 1]);
    }
    name_before_a_trail(reading, front, name, tail);
    assert(new.skip(prefix) =~= front + name + tail);
    assert(new.subrange(start, start + name.len()) =~= name);
}

/// All systems read the path alike: it has no backslash, and begins with
/// neither a drive nor two slashes.
pub open spec fn portable(path: Seq<char>) -> bool {
    &&& !path.contains('\\')
    &&& !(path.len() >= 2 && path[1] == ':')
    &&& !(path.len() >= 2 && path[0] == '/' && path[1] == '/')
}

/// A portable path has the same file name, at the same place, on all systems.
pub proof fn portable_paths_are_read_alike(path: Seq<char>, a: System, x: Reading, b: System, y: Reading)
    requires
        portable(path),
        reads(a, x, path),
        reads(b, y, path),
    ensures
        file_span(x, path) == file_span(y, path),
        file_name(x, path) == file_name(y, path),
{
    if path.len() >= 2 {
        assert(path.contains(path[0]));
        assert(path.contains(path[1]));
    }
    assert(path.skip(0) =~= path);
    name_without_backslash(x, path);
    name_without_backslash(y, path);
}

proof fn name_without_backslash(reading: Reading, body: Seq<char>)
    requires
        reading.slash,
        reading.dots,
        !body.contains('\\'),
    ensures
        name_span(reading, body) == name_span(unix_reading(), body),
    decreases body.len(),
{
    let unix = unix_reading();
    last_separator_is_last(reading, body);
    last_separator_is_last(unix, body);
    let place = last_separator(reading, body);
    if place >= 0 {
        assert(body.contains(body[place]));
    }
    if last_separator(unix, body) >= 0 {
        assert(reading.separates(body[last_separator(unix, body)]));
    }
    assert(place == last_separator(unix, body));
    if place >= 0 {
        assert forall|c: char| body.take(place).contains(c) implies body.contains(c) by {
            let i = choose|i: int| 0 <= i < place && body.take(place)[i] == c;
            assert(body[i] == c);
        }
        name_without_backslash(reading, body.take(place));
    }
}

/// The system that the program runs on. There is no other way to one than
/// `here`, so the system of every value is the one that runs the program.
#[derive(Clone, Copy)]
pub(crate) struct Host {
    windows: bool,
}

impl Host {
    /// The system.
    pub(crate) closed spec fn system(self) -> System {
        if self.windows {
            System::Windows
        } else {
            System::Unix
        }
    }

    /// The system that the program runs on.
    pub(crate) fn here() -> Host {
        Host { windows: is_separator('\\') }
    }
}

/// `std::path::is_separator`: whether the character separates the parts of a
/// path here. That rests on the system, and nothing is stated of it.
#[verifier::external_body]
fn is_separator(c: char) -> (r: bool)
{
    std::path::is_separator(c)
}

/// `Path::file_name`, as text: the last component where it is a name, as the
/// system reads the path.
#[verifier::external_body]
pub(crate) fn name_of_path(host: Host, path: &str) -> (r: Option<String>)
    ensures
        is_file_name(host.system(), path@, text_view(r)),
{
    std::path::Path::new(path).file_name().and_then(|n| n.to_str()).map(|n| n.to_owned())
}

/// `Path::extension`, as text: what stands behind the last dot of the file
/// name, unless the name begins with it, as the system reads the path.
#[verifier::external_body]
pub(crate) fn extension_of_path(host: Host, path: &str) -> (r: Option<String>)
    ensures
        is_extension(host.system(), path@, text_view(r)),
{
    std::path::Path::new(path).extension().and_then(|e| e.to_str()).map(|e| e.to_owned())
}

/// `Path::with_extension`: the extension is replaced or added where the path
/// has a name, as the system reads it, else the path stays as it is. Whether
/// separators and dots behind the name stay is left open, and so is whether a
/// name of two dots and an extension is given a new one or loses the old one.
#[verifier::external_body]
pub(crate) fn path_with_extension(host: Host, path: &str, ext: &str) -> (r: String)
    requires
        separator_free(ext@),
        ext@.len() > 0,
    ensures
        is_extended(host.system(), path@, ext@, r@),
{
    std::path::Path::new(path).with_extension(ext).to_string_lossy().into_owned()
}

/// `Path::parent`, as text: the path without its last component, as the system
/// reads it. Whether separators and dots to spare stay at its end is left open.
#[verifier::external_body]
pub(crate) fn parent_of_path(host: Host, path: &str) -> (r: Option<String>)
    ensures
        is_parent(host.system(), path@, text_view(r)),
{
    std::path::Path::new(path).parent().map(|p| p.to_string_lossy().into_owned())
}

/// `Path::join`, as text: a relative path is put behind the directory, and one
/// with a root or a prefix replaces it, as the system has it.
#[verifier::external_body]
pub(crate) fn joined_path(host: Host, dir: &str, path: &str) -> (r: String)
    ensures
        joined(host.system(), dir@, path@, r@),
{
    std::path::Path::new(dir).join(path).to_string_lossy().into_owned()
}

} // verus!
