//! What the summary of an encode says, word for word.
use vstd::prelude::*;

use crate::command::encode::summary::{
    human_bytes, named_parts, part_segments, parts_segments, summary, Look, PartView, SegmentView,
};
use crate::command::encode::StreamSizes;

verus! {

/// The texts of the segments, one behind the other.
pub open spec fn spoken(segments: Seq<SegmentView>) -> Seq<char>
    decreases segments.len(),
{
    if segments.len() == 0 {
        Seq::empty()
    } else {
        spoken(segments.drop_last()) + segments.last().text
    }
}

/// The labels and sizes of the parts, each behind a comma and a space.
pub open spec fn listed(parts: Seq<PartView>) -> Seq<char>
    decreases parts.len(),
{
    if parts.len() == 0 {
        Seq::empty()
    } else {
        listed(parts.drop_last()) + ", "@ + parts.last().label + parts.last().size
    }
}

proof fn spoken_of_two(a: Seq<SegmentView>, b: Seq<SegmentView>)
    ensures
        spoken(a + b) == spoken(a) + spoken(b),
    decreases b.len(),
{
    if b.len() == 0 {
        assert(a + b =~= a);
        assert(spoken(a) + spoken(b) =~= spoken(a));
    } else {
        spoken_of_two(a, b.drop_last());
        assert((a + b).drop_last() =~= a + b.drop_last());
        assert((a + b).last() == b.last());
        assert(spoken(a) + spoken(b.drop_last()) + b.last().text =~= spoken(a) + (spoken(
            b.drop_last(),
        ) + b.last().text));
    }
}

proof fn spoken_of_one(segment: SegmentView)
    ensures
        spoken(seq![segment]) == segment.text,
{
    let one = seq![segment];
    assert(one.drop_last() =~= Seq::<SegmentView>::empty());
    assert(spoken(one.drop_last()) + segment.text =~= segment.text);
}

proof fn spoken_parts(parts: Seq<PartView>)
    ensures
        spoken(parts_segments(parts)) == listed(parts),
    decreases parts.len(),
{
    if parts.len() > 0 {
        let part = parts.last();
        let four = part_segments(part);
        spoken_parts(parts.drop_last());
        spoken_of_two(parts_segments(parts.drop_last()), four);
        spoken_of_two(seq![four[0], four[1], four[2]], seq![four[3]]);
        spoken_of_two(seq![four[0], four[1]], seq![four[2]]);
        spoken_of_two(seq![four[0]], seq![four[1]]);
        spoken_of_one(four[0]);
        spoken_of_one(four[1]);
        spoken_of_one(four[2]);
        spoken_of_one(four[3]);
        assert(four =~= seq![four[0], four[1], four[2]] + seq![four[3]]);
        assert(seq![four[0], four[1], four[2]] =~= seq![four[0], four[1]] + seq![four[2]]);
        assert(seq![four[0], four[1]] =~= seq![four[0]] + seq![four[1]]);
        reveal_strlit(",");
        reveal_strlit(" ");
        reveal_strlit(", ");
        assert(","@ + " "@ =~= ", "@);
        let front = listed(parts.drop_last());
        assert(front + (","@ + " "@ + part.label + part.size) =~= front + ", "@ + part.label
            + part.size);
    }
}

/// The summary reads "Encoded", the size of the output, and in brackets the
/// percentage and the parts.
pub proof fn summary_in_words(size: Seq<char>, percent: Seq<char>, parts: Seq<PartView>)
    ensures
        spoken(summary(size, percent, parts)) == "Encoded "@ + size + " ("@ + percent + "%"@ + listed(
            parts,
        ) + ")"@,
{
    let whole = summary(size, percent, parts);
    let s0 = whole[0];
    let s1 = whole[1];
    let s2 = whole[2];
    let s3 = whole[3];
    let s4 = whole[4];
    let s5 = whole[5];
    let head = seq![s0, s1, s2, s3, s4, s5];
    let end = SegmentView { look: Look::Dim, text: ")"@ };
    assert(whole =~= head + parts_segments(parts) + seq![end]);
    spoken_of_two(head + parts_segments(parts), seq![end]);
    spoken_of_two(head, parts_segments(parts));
    spoken_parts(parts);
    spoken_of_one(end);
    spoken_of_one(s0);
    spoken_of_one(s1);
    spoken_of_one(s2);
    spoken_of_one(s3);
    spoken_of_one(s4);
    spoken_of_one(s5);
    spoken_of_two(seq![s0], seq![s1]);
    spoken_of_two(seq![s0, s1], seq![s2]);
    spoken_of_two(seq![s0, s1, s2], seq![s3]);
    spoken_of_two(seq![s0, s1, s2, s3], seq![s4]);
    spoken_of_two(seq![s0, s1, s2, s3, s4], seq![s5]);
    assert(seq![s0, s1] =~= seq![s0] + seq![s1]);
    assert(seq![s0, s1, s2] =~= seq![s0, s1] + seq![s2]);
    assert(seq![s0, s1, s2, s3] =~= seq![s0, s1, s2] + seq![s3]);
    assert(seq![s0, s1, s2, s3, s4] =~= seq![s0, s1, s2, s3] + seq![s4]);
    assert(head =~= seq![s0, s1, s2, s3, s4] + seq![s5]);
    reveal_strlit("Encoded");
    reveal_strlit(" ");
    reveal_strlit("Encoded ");
    reveal_strlit("(");
    reveal_strlit(" (");
    assert(spoken(head) =~= "Encoded "@ + size + " ("@ + percent + "%"@);
}

/// The size and the percentage are dim and bold, spaces are plain, and all else
/// is dim.
pub proof fn summary_looks_so(size: Seq<char>, percent: Seq<char>, parts: Seq<PartView>, i: int)
    requires
        0 <= i < summary(size, percent, parts).len(),
    ensures
        summary(size, percent, parts).len() == 7 + 4 * parts.len(),
        summary(size, percent, parts)[i].look == if i == 2 || i == 5 {
            Look::DimBold
        } else if i == 1 || i == 3 || (i >= 6 && i < 6 + 4 * parts.len() && (i - 6) % 4 == 1) {
            Look::Plain
        } else {
            Look::Dim
        },
{
    parts_look_so(parts, i - 6);
}

proof fn parts_look_so(parts: Seq<PartView>, i: int)
    ensures
        parts_segments(parts).len() == 4 * parts.len(),
        0 <= i < 4 * parts.len() ==> parts_segments(parts)[i].look == if i % 4 == 1 {
            Look::Plain
        } else {
            Look::Dim
        },
    decreases parts.len(),
{
    if parts.len() > 0 {
        parts_look_so(parts.drop_last(), i);
    }
}

/// The parts are named in the order video, audio, subtitles and other, each by
/// its label and its own size, and only where it is there. A video alone is not
/// named, and nothing is where the sizes are unknown.
pub proof fn parts_are_named_in_order(sizes: StreamSizes)
    ensures
        named_parts(None).len() == 0,
        sizes.audio == 0 && sizes.subtitle == 0 && sizes.other == 0 ==> named_parts(
            Some(sizes),
        ).len() == 0,
        sizes.audio > 0 || sizes.subtitle > 0 || sizes.other > 0 ==> {
            let named = named_parts(Some(sizes));
            let audio = if sizes.video > 0 {
                1int
            } else {
                0int
            };
            let subs = audio + if sizes.audio > 0 {
                1int
            } else {
                0int
            };
            let other = subs + if sizes.subtitle > 0 {
                1int
            } else {
                0int
            };
            let end = other + if sizes.other > 0 {
                1int
            } else {
                0int
            };
            &&& named.len() == end
            &&& sizes.video > 0 ==> named[0] == (PartView {
                label: "video:"@,
                size: human_bytes(sizes.video),
            })
            &&& sizes.audio > 0 ==> named[audio] == (PartView {
                label: "audio:"@,
                size: human_bytes(sizes.audio),
            })
            &&& sizes.subtitle > 0 ==> named[subs] == (PartView {
                label: "subs:"@,
                size: human_bytes(sizes.subtitle),
            })
            &&& sizes.other > 0 ==> named[other] == (PartView {
                label: "other:"@,
                size: human_bytes(sizes.other),
            })
        },
{
}

} // verus!
