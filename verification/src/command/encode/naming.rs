//! How outputs are named and planned, in terms of the paths.
use vstd::prelude::*;

use crate::command::encode::{
    is_default_ext, is_default_output, is_planned, is_temp_path, name_or_nothing, output_ext,
    output_suffix, EncoderView, PlanView,
};
use crate::path::{
    extension, file_name, is_extension, is_file_name, is_parent, joined, path_extension, reads,
    Reading, System,
};

verus! {

/// An image gets the extension of the encoder. Any other input gets "mp4" just
/// where its own extension is "mp4", and "mkv" with every other extension and
/// with none.
pub proof fn only_mp4_stays_mp4(input_ext: Option<Seq<char>>, encoder: EncoderView, is_image: bool)
    ensures
        is_image ==> output_ext(input_ext, encoder, is_image) == encoder.image_ext,
        !is_image ==> (output_ext(input_ext, encoder, is_image) == "mp4"@ <==> input_ext == Some(
            "mp4"@,
        )),
        !is_image && input_ext != Some("mp4"@) ==> output_ext(input_ext, encoder, is_image)
            == "mkv"@,
        output_suffix(input_ext, encoder, is_image) == encoder.pre_extension + "."@ + output_ext(
            input_ext,
            encoder,
            is_image,
        ),
{
    reveal_strlit("mp4");
    reveal_strlit("mkv");
    assert("mp4"@[1] != "mkv"@[1]);
}

/// An encoder can name outputs just where neither of its parts holds a slash or
/// a backslash.
pub proof fn separators_are_not_nameable(encoder: EncoderView)
    ensures
        encoder.nameable() <==> {
            &&& forall|i: int|
                0 <= i < encoder.pre_extension.len() ==> {
                    let c = #[trigger] encoder.pre_extension[i];
                    c != '/' && c != '\\'
                }
            &&& forall|i: int|
                0 <= i < encoder.image_ext.len() ==> {
                    let c = #[trigger] encoder.image_ext[i];
                    c != '/' && c != '\\'
                }
        },
{
    let pre = encoder.pre_extension;
    let ext = encoder.image_ext;
    if encoder.nameable() {
        assert(forall|i: int| 0 <= i < pre.len() ==> pre.contains(#[trigger] pre[i]));
        assert(forall|i: int| 0 <= i < ext.len() ==> ext.contains(#[trigger] ext[i]));
    }
}

/// The default output has, as its extension, "mp4" for an input that is no
/// image and has the extension "mp4", and "mkv" for any other input that is no
/// image.
pub proof fn default_ext_follows_the_input(
    system: System,
    input: Seq<char>,
    encoder: EncoderView,
    is_image: bool,
    r: Seq<char>,
)
    requires
        is_default_ext(system, input, encoder, is_image, r),
    ensures
        is_image ==> r == encoder.image_ext,
        exists|reading: Reading| #[trigger]
            reads(system, reading, input) && (!is_image ==> r == if (match file_name(
                reading,
                input,
            ) {
                Some(name) => extension(name) == Some("mp4"@),
                None => false,
            }) {
                "mp4"@
            } else {
                "mkv"@
            }),
{
    let ext = choose|ext: Option<Seq<char>>| #[trigger]
        is_extension(system, input, ext) && r == output_ext(ext, encoder, is_image);
    let reading = choose|reading: Reading| #[trigger]
        reads(system, reading, input) && ext == path_extension(reading, input);
    only_mp4_stays_mp4(ext, encoder, is_image);
    assert(reads(system, reading, input));
}

/// What is planned for an output. One that was asked for stays as it is, and
/// only another is a default. The log names the file name of the output, or
/// nothing where it has none. The temporary directory is made in the parent of
/// the output, or in "." where the parent is missing or empty.
pub proof fn plans_in_words(
    system: System,
    output: Option<Seq<char>>,
    input: Seq<char>,
    encoder: EncoderView,
    is_image: bool,
    plan: PlanView,
)
    requires
        is_planned(system, output, input, encoder, is_image, plan),
    ensures
        plan.defaulting <==> output is None,
        output matches Some(given) ==> plan.output == given,
        output is None ==> is_default_output(system, input, encoder, is_image, plan.output),
        exists|reading: Reading| #[trigger]
            reads(system, reading, plan.output) && match file_name(reading, plan.output) {
                Some(name) => plan.log_name == name,
                None => plan.log_name.len() == 0,
            },
        exists|parent: Option<Seq<char>>| #[trigger]
            is_parent(system, plan.output, parent) && match parent {
                Some(dir) => if dir.len() > 0 {
                    plan.temp_parent == dir
                } else {
                    plan.temp_parent == "."@
                },
                None => plan.temp_parent == "."@,
            },
{
    let name = choose|name: Option<Seq<char>>| #[trigger]
        is_file_name(system, plan.output, name) && plan.log_name == name_or_nothing(name);
    let reading = choose|reading: Reading| #[trigger]
        reads(system, reading, plan.output) && name == file_name(reading, plan.output);
    assert(reads(system, reading, plan.output));
}

/// The temporary path is the file name of the output, or nothing where it has
/// none, seen from the directory.
pub proof fn temp_path_bears_the_name(system: System, output: Seq<char>, dir: Seq<char>, path: Seq<char>)
    requires
        is_temp_path(system, output, dir, path),
    ensures
        exists|reading: Reading| #[trigger]
            reads(system, reading, output) && match file_name(reading, output) {
                Some(name) => joined(system, dir, name, path),
                None => joined(system, dir, Seq::empty(), path),
            },
{
    let name = choose|name: Option<Seq<char>>| #[trigger]
        is_file_name(system, output, name) && joined(system, dir, name_or_nothing(name), path);
    let reading = choose|reading: Reading| #[trigger]
        reads(system, reading, output) && name == file_name(reading, output);
    assert(reads(system, reading, output));
}

} // verus!
