//! What is said of an encode.
use vstd::prelude::*;

use crate::command::encode::StreamSizes;
use crate::text::decimal;

verus! {

/// `text` is quoted for a Unix shell where it holds anything but letters,
/// digits and `-_=/,.+`.
pub open spec fn unix_escaped(text: Seq<char>) -> Seq<char> {
    if plain(text) {
        text
    } else {
        "'"@ + quoted(text) + "'"@
    }
}

/// Every character of the text means itself in a shell, and there is one.
pub open spec fn plain(text: Seq<char>) -> bool {
    text.len() > 0 && forall|i: int| 0 <= i < text.len() ==> shell_safe(#[trigger] text[i])
}

/// The character means itself in a shell.
pub open spec fn shell_safe(c: char) -> bool {
    ||| 'a' <= c <= 'z' || 'A' <= c <= 'Z' || '0' <= c <= '9'
    ||| c == '-' || c == '_' || c == '=' || c == '/' || c == ',' || c == '.' || c == '+'
}

/// `text` between single quotes: a single quote or an exclamation mark leaves
/// the quotes and follows a backslash.
pub open spec fn quoted(text: Seq<char>) -> Seq<char>
    decreases text.len(),
{
    if text.len() == 0 {
        Seq::empty()
    } else if text.last() == '\'' || text.last() == '!' {
        quoted(text.drop_last()) + seq!['\'', '\\', text.last(), '\'']
    } else {
        quoted(text.drop_last()).push(text.last())
    }
}

/// `text` is quoted for the shell of Windows where it is empty or holds a double
/// quote or a space, a tab or a line break.
pub open spec fn windows_escaped(text: Seq<char>) -> Seq<char> {
    if text.len() > 0 && forall|i: int| 0 <= i < text.len() ==> !windows_special(#[trigger] text[i]) {
        text
    } else {
        "\""@ + windows_quoted(text, 0) + "\""@
    }
}

/// The character has a meaning of its own in the shell of Windows.
pub open spec fn windows_special(c: char) -> bool {
    c == '"' || c == '\t' || c == '\n' || c == ' '
}

/// `text` between double quotes, behind that many backslashes: a double quote
/// follows a backslash, and backslashes before a double quote or before the end
/// are doubled.
pub open spec fn windows_quoted(text: Seq<char>, backslashes: nat) -> Seq<char>
    decreases text.len(),
{
    if text.len() == 0 {
        Seq::new(backslashes * 2, |i: int| '\\')
    } else if text.first() == '\\' {
        windows_quoted(text.drop_first(), backslashes + 1)
    } else if text.first() == '"' {
        Seq::new(backslashes * 2 + 1, |i: int| '\\').push('"') + windows_quoted(text.drop_first(), 0)
    } else {
        Seq::new(backslashes, |i: int| '\\').push(text.first()) + windows_quoted(
            text.drop_first(),
            0,
        )
    }
}

/// `shell_escape::escape`: the text for a Unix shell or for that of Windows,
/// whichever the system has.
#[verifier::external_body]
fn shell_escaped(text: &str) -> (r: String)
    ensures
        r@ == unix_escaped(text@) || r@ == windows_escaped(text@),
{
    shell_escape::escape(text.into()).into_owned()
}

/// The line that names the output of an encode.
pub fn notice_of(escaped_output: &str) -> (r: String)
    ensures
        r@ == "Encoding "@ + escaped_output@,
{
    "Encoding ".to_owned().concat(escaped_output)
}

/// The line that names the output of an encode, so that a shell can read it.
pub fn encoding_notice(output: &str) -> (r: String)
    ensures
        r@ == "Encoding "@ + unix_escaped(output@) || r@ == "Encoding "@ + windows_escaped(output@),
        plain(output@) ==> r@ == "Encoding "@ + output@,
{
    notice_of(shell_escaped(output).as_str())
}

/// The text that a number of bytes is displayed as.
pub uninterp spec fn human_bytes(bytes: u64) -> Seq<char>;

/// `indicatif::HumanBytes`, displayed: fewer than 1024 bytes are counted out.
#[verifier::external_body]
fn text_of_bytes(bytes: u64) -> (r: String)
    ensures
        r@ == human_bytes(bytes),
        bytes < 1024 ==> r@ == decimal(bytes as nat) + " B"@,
{
    indicatif::HumanBytes(bytes).to_string()
}

/// How a text looks.
#[derive(Debug, Clone, Copy, PartialEq, Eq, Structural)]
pub enum Look {
    Plain,
    Dim,
    DimBold,
}

/// A text and how it looks.
#[derive(Debug, Clone, PartialEq, Eq)]
pub struct Segment {
    pub look: Look,
    pub text: String,
}

/// What a segment holds.
pub struct SegmentView {
    pub look: Look,
    pub text: Seq<char>,
}

impl View for Segment {
    type V = SegmentView;

    open spec fn view(&self) -> SegmentView {
        SegmentView { look: self.look, text: self.text@ }
    }
}

/// What the segments hold.
pub open spec fn segment_views(segments: Seq<Segment>) -> Seq<SegmentView> {
    Seq::new(segments.len(), |i: int| segments[i]@)
}

/// A part of an encode that is named in the summary.
#[derive(Debug, Clone, PartialEq, Eq)]
pub struct Part {
    pub label: String,
    pub size: String,
}

/// What a part holds.
pub struct PartView {
    pub label: Seq<char>,
    pub size: Seq<char>,
}

impl View for Part {
    type V = PartView;

    open spec fn view(&self) -> PartView {
        PartView { label: self.label@, size: self.size@ }
    }
}

/// What the parts hold.
pub open spec fn part_views(parts: Seq<Part>) -> Seq<PartView> {
    Seq::new(parts.len(), |i: int| parts[i]@)
}

/// The part, if it is there at all.
pub open spec fn part(label: Seq<char>, size: u64) -> Seq<PartView> {
    if size > 0 {
        seq![PartView { label, size: human_bytes(size) }]
    } else {
        Seq::empty()
    }
}

/// The parts that are named: those that are there, unless the video is alone.
pub open spec fn named_parts(sizes: Option<StreamSizes>) -> Seq<PartView> {
    match sizes {
        Some(sizes) => if sizes.audio > 0 || sizes.subtitle > 0 || sizes.other > 0 {
            part("video:"@, sizes.video) + part("audio:"@, sizes.audio) + part(
                "subs:"@,
                sizes.subtitle,
            ) + part("other:"@, sizes.other)
        } else {
            Seq::empty()
        },
        None => Seq::empty(),
    }
}

/// The segments that name a part.
pub open spec fn part_segments(part: PartView) -> Seq<SegmentView> {
    seq![
        SegmentView { look: Look::Dim, text: ","@ },
        SegmentView { look: Look::Plain, text: " "@ },
        SegmentView { look: Look::Dim, text: part.label },
        SegmentView { look: Look::Dim, text: part.size },
    ]
}

/// The segments that name the parts.
pub open spec fn parts_segments(parts: Seq<PartView>) -> Seq<SegmentView>
    decreases parts.len(),
{
    if parts.len() == 0 {
        Seq::empty()
    } else {
        parts_segments(parts.drop_last()) + part_segments(parts.last())
    }
}

/// The summary: the size of the output, its share of the size of the input in
/// percent, and the parts.
pub open spec fn summary(size: Seq<char>, percent: Seq<char>, parts: Seq<PartView>) -> Seq<SegmentView> {
    seq![
        SegmentView { look: Look::Dim, text: "Encoded"@ },
        SegmentView { look: Look::Plain, text: " "@ },
        SegmentView { look: Look::DimBold, text: size },
        SegmentView { look: Look::Plain, text: " "@ },
        SegmentView { look: Look::Dim, text: "("@ },
        SegmentView { look: Look::DimBold, text: percent + "%"@ },
    ] + parts_segments(parts) + seq![SegmentView { look: Look::Dim, text: ")"@ }]
}

fn push(segments: &mut Vec<Segment>, look: Look, text: &str)
    ensures
        segment_views(final(segments)@) == segment_views(old(segments)@).push(
            (SegmentView { look, text: text@ }),
        ),
{
    segments.push(Segment { look, text: text.to_owned() });
    assert(segment_views(segments@) =~= segment_views(old(segments)@).push(
        SegmentView { look, text: text@ },
    ));
}

/// The summary of an encode.
pub fn summary_of(size: &str, percent: &str, parts: &Vec<Part>) -> (r: Vec<Segment>)
    ensures
        segment_views(r@) == summary(size@, percent@, part_views(parts@)),
{
    let mut segments: Vec<Segment> = Vec::new();
    push(&mut segments, Look::Dim, "Encoded");
    push(&mut segments, Look::Plain, " ");
    push(&mut segments, Look::DimBold, size);
    push(&mut segments, Look::Plain, " ");
    push(&mut segments, Look::Dim, "(");
    push(&mut segments, Look::DimBold, percent.to_owned().concat("%").as_str());
    let ghost head = segment_views(segments@);
    let mut i: usize = 0;
    assert(part_views(parts@).take(0) =~= Seq::<PartView>::empty());
    assert(head =~= head + parts_segments(part_views(parts@).take(0)));
    while i < parts.len()
        invariant
            i <= parts@.len(),
            segment_views(segments@) == head + parts_segments(part_views(parts@).take(i as int)),
        decreases parts@.len() - i,
    {
        let ghost views = part_views(parts@);
        let ghost before = segment_views(segments@);
        push(&mut segments, Look::Dim, ",");
        push(&mut segments, Look::Plain, " ");
        push(&mut segments, Look::Dim, parts[i].label.as_str());
        push(&mut segments, Look::Dim, parts[i].size.as_str());
        assert(segment_views(segments@) =~= before + part_segments(views[i as int]));
        assert(views.take(i + 1).drop_last() =~= views.take(i as int));
        i = i + 1;
        assert(segment_views(segments@) =~= head + parts_segments(views.take(i as int)));
    }
    assert(part_views(parts@).take(i as int) =~= part_views(parts@));
    push(&mut segments, Look::Dim, ")");
    assert(segment_views(segments@) =~= summary(size@, percent@, part_views(parts@)));
    segments
}

fn add_part(parts: &mut Vec<Part>, label: &str, size: u64)
    ensures
        part_views(final(parts)@) == part_views(old(parts)@) + part(label@, size),
{
    if size > 0 {
        parts.push(Part { label: label.to_owned(), size: text_of_bytes(size) });
    }
    assert(part_views(parts@) =~= part_views(old(parts)@) + part(label@, size));
}

/// The parts that the summary names.
pub fn parts_to_name(sizes: Option<StreamSizes>) -> (r: Vec<Part>)
    ensures
        part_views(r@) == named_parts(sizes),
{
    let mut parts: Vec<Part> = Vec::new();
    assert(part_views(parts@) =~= Seq::<PartView>::empty());
    if let Some(sizes) = sizes {
        if sizes.audio > 0 || sizes.subtitle > 0 || sizes.other > 0 {
            add_part(&mut parts, "video:", sizes.video);
            add_part(&mut parts, "audio:", sizes.audio);
            add_part(&mut parts, "subs:", sizes.subtitle);
            add_part(&mut parts, "other:", sizes.other);
            assert(part_views(parts@) =~= named_parts(Some(sizes)));
        }
    }
    parts
}

/// The summary of an encode with an output of that size.
pub fn encode_summary(output_size: u64, percent: &str, sizes: Option<StreamSizes>) -> (r: Vec<Segment>)
    ensures
        segment_views(r@) == summary(human_bytes(output_size), percent@, named_parts(sizes)),
{
    summary_of(text_of_bytes(output_size).as_str(), percent, &parts_to_name(sizes))
}

/// One for a part that is there.
pub open spec fn present(size: u64) -> nat {
    if size > 0 {
        1
    } else {
        0
    }
}

/// Every part that is there is named, and no other; a video alone is not.
pub proof fn what_is_there_is_named(sizes: StreamSizes)
    ensures
        named_parts(Some(sizes)).len() == if sizes.audio == 0 && sizes.subtitle == 0 && sizes.other
            == 0 {
            0
        } else {
            present(sizes.video) + present(sizes.audio) + present(sizes.subtitle) + present(
                sizes.other,
            )
        },
{
}

} // verus!
