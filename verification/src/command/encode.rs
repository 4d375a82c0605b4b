//! The encode command: what is checked before an encode, where its output
//! goes, and what is said of it.
pub mod conduct;
pub mod driver;
pub mod laws;
pub mod naming;
pub mod running;
pub mod summary;
pub mod wording;

use vstd::prelude::*;

use crate::json::text_view;
use crate::path::{
    extended, extension, extension_of_path, file_name, file_span, has_drive, is_extended,
    is_extension, is_file_name, is_parent, joined, joined_path, last_place, name_of_path,
    parent_of_path, path_extension, path_with_extension, plain_name, put_behind, reads, separator,
    separator_free, settled_dir, stem, trails, verbatim, Host, Reading, System,
};
use crate::text::same_text;

verus! {

/// What an encoder lends to the names of its outputs.
#[derive(Debug, Clone, PartialEq, Eq)]
pub struct Encoder {
    /// What stands before the extension, such as `av1`.
    pub pre_extension: String,
    /// The extension of an image, such as `avif`.
    pub image_ext: String,
}

/// What that is.
pub struct EncoderView {
    pub pre_extension: Seq<char>,
    pub image_ext: Seq<char>,
}

impl View for Encoder {
    type V = EncoderView;

    open spec fn view(&self) -> EncoderView {
        EncoderView { pre_extension: self.pre_extension@, image_ext: self.image_ext@ }
    }
}

impl EncoderView {
    /// It can stand in the name of a file.
    pub open spec fn nameable(self) -> bool {
        separator_free(self.pre_extension) && separator_free(self.image_ext)
    }
}

/// The extension of the output for an input with that extension: an image gets
/// that of the encoder, `mp4` stays, everything else becomes `mkv`.
pub open spec fn output_ext(input_ext: Option<Seq<char>>, encoder: EncoderView, is_image: bool) -> Seq<
    char,
> {
    if is_image {
        encoder.image_ext
    } else if input_ext == Some("mp4"@) {
        "mp4"@
    } else {
        "mkv"@
    }
}

/// What stands behind the stem in the name of the output, after a dot.
pub open spec fn output_suffix(input_ext: Option<Seq<char>>, encoder: EncoderView, is_image: bool) -> Seq<
    char,
> {
    encoder.pre_extension + "."@ + output_ext(input_ext, encoder, is_image)
}

/// The extension of the output for an input with that extension.
pub fn output_ext_for<'a>(input_ext: Option<&str>, encoder: &'a Encoder, is_image: bool) -> (r: &'a str)
    ensures
        r@ == output_ext(
            match input_ext {
                Some(ext) => Some(ext@),
                None => None,
            },
            encoder@,
            is_image,
        ),
        is_image ==> r@ == encoder.image_ext@,
        !is_image && (input_ext matches Some(ext) && ext@ == "mp4"@) ==> r@ == "mp4"@,
        !is_image && !(input_ext matches Some(ext) && ext@ == "mp4"@) ==> r@ == "mkv"@,
{
    if is_image {
        return encoder.image_ext.as_str();
    }
    match input_ext {
        Some(ext) => if same_text(ext, "mp4") {
            "mp4"
        } else {
            "mkv"
        },
        None => "mkv",
    }
}

/// `r` is the extension of the output that an input has by default on that
/// system.
pub open spec fn is_default_ext(
    system: System,
    input: Seq<char>,
    encoder: EncoderView,
    is_image: bool,
    r: Seq<char>,
) -> bool {
    exists|ext: Option<Seq<char>>| #[trigger]
        is_extension(system, input, ext) && r == output_ext(ext, encoder, is_image)
}

/// `r` is the output that an input has by default on that system: the input
/// with the extension for one that has its extension.
pub open spec fn is_default_output(
    system: System,
    input: Seq<char>,
    encoder: EncoderView,
    is_image: bool,
    r: Seq<char>,
) -> bool {
    exists|ext: Option<Seq<char>>| #[trigger]
        is_extension(system, input, ext) && is_extended(
            system,
            input,
            output_suffix(ext, encoder, is_image),
            r,
        )
}

/// The extension of the output that an input has by default.
///
/// * `vid.mp4`: `mp4`
/// * another video: `mkv`
/// * an image: that of the encoder, such as `avif`
pub fn default_output_ext<'a>(input: &str, encoder: &'a Encoder, is_image: bool) -> (r: &'a str)
    ensures
        exists|system: System| #[trigger]
            is_default_ext(system, input@, encoder@, is_image, r@),
{
    let host = Host::here();
    let ext = extension_of_path(host, input);
    let r = match &ext {
        Some(ext) => output_ext_for(Some(ext.as_str()), encoder, is_image),
        None => output_ext_for(None, encoder, is_image),
    };
    assert(r@ == output_ext(text_view(ext), encoder@, is_image));
    assert(is_default_ext(host.system(), input@, encoder@, is_image, r@));
    r
}

/// What stands behind the stem in the name of the output of an input with that
/// extension, after a dot.
pub fn default_output_suffix(input_ext: Option<&str>, encoder: &Encoder, is_image: bool) -> (r: String)
    ensures
        r@ == output_suffix(
            match input_ext {
                Some(ext) => Some(ext@),
                None => None,
            },
            encoder@,
            is_image,
        ),
{
    encoder.pre_extension.clone().concat(".").concat(output_ext_for(input_ext, encoder, is_image))
}

/// The output that an input has by default, beside it: `vid.mkv` becomes
/// `vid.av1.mkv`.
pub fn default_output_name(input: &str, encoder: &Encoder, is_image: bool) -> (r: String)
    requires
        encoder@.nameable(),
    ensures
        exists|system: System| #[trigger]
            is_default_output(system, input@, encoder@, is_image, r@),
{
    let host = Host::here();
    let r = default_output_on(host, input, encoder, is_image);
    assert(is_default_output(host.system(), input@, encoder@, is_image, r@));
    r
}

fn default_output_on(host: Host, input: &str, encoder: &Encoder, is_image: bool) -> (r: String)
    requires
        encoder@.nameable(),
    ensures
        is_default_output(host.system(), input@, encoder@, is_image, r@),
{
    let ext = extension_of_path(host, input);
    let suffix = match &ext {
        Some(ext) => default_output_suffix(Some(ext.as_str()), encoder, is_image),
        None => default_output_suffix(None, encoder, is_image),
    };
    assert(suffix@ == output_suffix(text_view(ext), encoder@, is_image));
    proof {
        suffix_is_nameable(text_view(ext), encoder@, is_image);
    }
    path_with_extension(host, input, suffix.as_str())
}

/// `output` stands beside `input`: all that stands before the name is the same.
/// Its name is the stem of the input, what the encoder puts before the
/// extension, and `new_ext`, which is the extension of the path.
pub open spec fn stands_beside(
    reading: Reading,
    input: Seq<char>,
    pre_extension: Seq<char>,
    new_ext: Seq<char>,
    output: Seq<char>,
) -> bool {
    file_span(reading, input) matches Some((start, end)) && {
        let name = stem(input.subrange(start, end)) + "."@ + pre_extension + "."@ + new_ext;
        &&& output.take(start) == input.take(start)
        &&& file_span(reading, output) == Some((start, start + name.len()))
        &&& file_name(reading, output) == Some(name)
        &&& path_extension(reading, output) == Some(new_ext)
    }
}

/// The output that an input with a name has by default is another path, and
/// stands beside the input. Only where the name is two dots and an extension it
/// may have lost its name.
pub proof fn default_output_stands_beside_the_input(
    system: System,
    input: Seq<char>,
    encoder: EncoderView,
    is_image: bool,
    output: Seq<char>,
)
    requires
        encoder.nameable(),
        is_image ==> !encoder.image_ext.contains('.'),
        is_default_output(system, input, encoder, is_image, output),
        forall|reading: Reading| #[trigger]
            reads(system, reading, input) ==> file_name(reading, input) is Some,
    ensures
        output != input,
        exists|reading: Reading, new_ext: Seq<char>|
            {
                &&& #[trigger] reads(system, reading, input)
                &&& #[trigger] is_default_ext(system, input, encoder, is_image, new_ext)
                &&& stem(file_name(reading, input)->Some_0) == "."@ || stands_beside(
                    reading,
                    input,
                    encoder.pre_extension,
                    new_ext,
                    output,
                )
            },
{
    let ext = choose|ext: Option<Seq<char>>| #[trigger]
        is_extension(system, input, ext) && is_extended(
            system,
            input,
            output_suffix(ext, encoder, is_image),
            output,
        );
    let suffix = output_suffix(ext, encoder, is_image);
    let reading = choose|reading: Reading| #[trigger]
        reads(system, reading, input) && extended(reading, input, suffix, output);
    let new_ext = output_ext(ext, encoder, is_image);
    assert(is_default_ext(system, input, encoder, is_image, new_ext));
    assert(reading.prefix <= input.len());
    extended_path_stands_beside(reading, input, ext, encoder, is_image, output);
}

proof fn extended_path_stands_beside(
    reading: Reading,
    input: Seq<char>,
    ext: Option<Seq<char>>,
    encoder: EncoderView,
    is_image: bool,
    output: Seq<char>,
)
    requires
        encoder.nameable(),
        is_image ==> !encoder.image_ext.contains('.'),
        reading.prefix <= input.len(),
        file_name(reading, input) is Some,
        extended(reading, input, output_suffix(ext, encoder, is_image), output),
    ensures
        output != input,
        stem(file_name(reading, input)->Some_0) == "."@ || stands_beside(
            reading,
            input,
            encoder.pre_extension,
            output_ext(ext, encoder, is_image),
            output,
        ),
{
    let (start, end) = file_span(reading, input)->Some_0;
    let name = input.subrange(start, end);
    let suffix = output_suffix(ext, encoder, is_image);
    let new_name = stem(name) + "."@ + suffix;
    let tail = input.skip(end);
    let new_ext = output_ext(ext, encoder, is_image);
    reveal_strlit(".");
    suffix_is_nameable(ext, encoder, is_image);
    suffix_ends_in_the_extension(ext, encoder, is_image);
    renamed_path(reading, input, suffix, Seq::empty());
    renamed_path(reading, input, suffix, tail);
    new_name_has_the_extension(name, suffix);
    assert(new_name =~= stem(name) + "."@ + encoder.pre_extension + "."@ + new_ext);
    let new = input.take(start) + stem(name) + "."@ + suffix;
    assert(new + Seq::<char>::empty() =~= new);
    if output == new || output == new + tail {
        assert(output.take(start) =~= input.take(start));
        assert(stands_beside(reading, input, encoder.pre_extension, new_ext, output));
    }
}

/// A path whose name has another extension is another path, and has the new
/// name in the place of the old one.
proof fn renamed_path(reading: Reading, path: Seq<char>, suffix: Seq<char>, tail: Seq<char>)
    requires
        reading.prefix <= path.len(),
        file_name(reading, path) is Some,
        separator_free(suffix),
        suffix.contains('.'),
        tail.len() == 0 || tail == path.skip(file_span(reading, path)->Some_0.1),
    ensures
        ({
            let (start, end) = file_span(reading, path)->Some_0;
            let name = path.subrange(start, end);
            let new_name = stem(name) + "."@ + suffix;
            let new = path.take(start) + stem(name) + "."@ + suffix + tail;
            &&& 0 <= start < end <= path.len()
            &&& file_span(reading, new) == Some((start, start + new_name.len()))
            &&& file_name(reading, new) == Some(new_name)
            &&& new != path
            &&& path.take(start) + ".."@ != path
        }),
{
    reveal_strlit(".");
    reveal_strlit("..");
    let (start, end) = file_span(reading, path)->Some_0;
    let name = path.subrange(start, end);
    let old_stem = stem(name);
    let new_name = old_stem + "."@ + suffix;
    let none = Seq::<char>::empty();
    crate::path::file_span_is_a_name(reading, path);
    crate::path::last_place_is_a_place(name, '.');
    assert forall|i: int| 0 <= i < new_name.len() implies !reading.separates(
        #[trigger] new_name[i],
    ) by {
        if i < old_stem.len() {
            assert(new_name[i] == path[start + i]);
        } else if i > old_stem.len() {
            assert(suffix.contains(new_name[i]));
        }
    }
    let dot = choose|i: int| 0 <= i < suffix.len() && suffix[i] == '.';
    assert(new_name[old_stem.len() + 1 + dot] == '.');
    assert(tail.len() == 0 ==> tail =~= none);
    assert(trails(reading, tail));
    assert(trails(reading, none));
    crate::path::replaced_name_is_the_name(reading, path, new_name, tail);
    crate::path::replaced_name_is_the_name(reading, path, ".."@, none);
    assert(path.take(start) + old_stem + "."@ + suffix + tail =~= path.take(start) + new_name
        + tail);
    assert(path.take(start) + ".."@ =~= path.take(start) + ".."@ + none);
    if name == new_name {
        assert(name[old_stem.len() + 1 + dot] == '.');
    }
}

proof fn new_name_has_the_extension(name: Seq<char>, suffix: Seq<char>)
    requires
        name.len() > 0,
    ensures
        extension(stem(name) + "."@ + suffix) == Some(suffix.skip(last_place(suffix, '.') + 1)),
{
    reveal_strlit(".");
    let new_name = stem(name) + "."@ + suffix;
    let start = stem(name).len() + 1;
    let dot = start + last_place(suffix, '.');
    crate::path::last_place_is_a_place(name, '.');
    crate::path::last_place_is_a_place(suffix, '.');
    crate::path::last_place_is_a_place(new_name, '.');
    assert(new_name[dot] == '.');
    assert forall|i: int| dot < i < new_name.len() implies new_name[i] != '.' by {
        assert(new_name[i] == suffix[i - start]);
    }
    assert(last_place(new_name, '.') == dot);
    assert(new_name.skip(dot + 1) =~= suffix.skip(last_place(suffix, '.') + 1));
}

proof fn suffix_ends_in_the_extension(input_ext: Option<Seq<char>>, encoder: EncoderView, is_image: bool)
    requires
        is_image ==> !encoder.image_ext.contains('.'),
    ensures
        output_suffix(input_ext, encoder, is_image).contains('.'),
        last_place(output_suffix(input_ext, encoder, is_image), '.') == encoder.pre_extension.len(),
        output_suffix(input_ext, encoder, is_image).skip(encoder.pre_extension.len() as int + 1)
            == output_ext(input_ext, encoder, is_image),
{
    reveal_strlit(".");
    reveal_strlit("mp4");
    reveal_strlit("mkv");
    let ext = output_ext(input_ext, encoder, is_image);
    let suffix = output_suffix(input_ext, encoder, is_image);
    let pre = encoder.pre_extension;
    crate::path::last_place_is_a_place(suffix, '.');
    assert(suffix[pre.len() as int] == '.');
    assert forall|i: int| pre.len() < i < suffix.len() implies suffix[i] != '.' by {
        assert(suffix[i] == ext[i - pre.len() - 1]);
        assert(ext.contains(suffix[i]));
    }
    assert(suffix.skip(pre.len() as int + 1) =~= ext);
}

proof fn suffix_is_nameable(input_ext: Option<Seq<char>>, encoder: EncoderView, is_image: bool)
    requires
        encoder.nameable(),
    ensures
        separator_free(output_suffix(input_ext, encoder, is_image)),
        output_suffix(input_ext, encoder, is_image).len() > 0,
{
    let ext = output_ext(input_ext, encoder, is_image);
    let suffix = output_suffix(input_ext, encoder, is_image);
    let pre = encoder.pre_extension;
    reveal_strlit(".");
    reveal_strlit("mp4");
    reveal_strlit("mkv");
    assert forall|i: int| 0 <= i < suffix.len() implies suffix[i] != '/' && suffix[i] != '\\' by {
        if i < pre.len() {
            assert(pre.contains(suffix[i]));
        } else if i > pre.len() {
            assert(suffix[i] == ext[i - pre.len() - 1]);
            assert(ext.contains(suffix[i]));
        }
    }
}

/// A parent directory, or the current one where there is none to name.
pub open spec fn parent_or_current(parent: Option<Seq<char>>) -> Seq<char> {
    match parent {
        Some(parent) => if parent.len() > 0 {
            parent
        } else {
            "."@
        },
        None => "."@,
    }
}

/// A parent directory, or the current one where there is none to name.
pub fn parent_or_dot(parent: Option<String>) -> (r: String)
    ensures
        r@ == parent_or_current(text_view(parent)),
{
    match parent {
        Some(parent) => if parent.as_str().is_empty() {
            ".".to_owned()
        } else {
            parent
        },
        None => ".".to_owned(),
    }
}

/// `r` is the directory that the temporary directory of an output is made in,
/// on that system: that of the output, or the current one where the output is
/// a name alone.
pub open spec fn is_temp_parent(system: System, output: Seq<char>, r: Seq<char>) -> bool {
    exists|parent: Option<Seq<char>>| #[trigger]
        is_parent(system, output, parent) && r == parent_or_current(parent)
}

/// The directory that the temporary directory of an output is made in: that of
/// the output, so that the output can be moved into place.
pub fn temp_parent(output: &str) -> (r: String)
    ensures
        exists|system: System| #[trigger] is_temp_parent(system, output@, r@),
{
    let host = Host::here();
    let r = temp_parent_on(host, output);
    assert(is_temp_parent(host.system(), output@, r@));
    r
}

fn temp_parent_on(host: Host, output: &str) -> (r: String)
    ensures
        is_temp_parent(host.system(), output@, r@),
{
    let parent = parent_of_path(host, output);
    assert(is_parent(host.system(), output@, text_view(parent)));
    parent_or_dot(parent)
}

/// A file name, or nothing where there is none.
pub open spec fn name_or_nothing(name: Option<Seq<char>>) -> Seq<char> {
    match name {
        Some(name) => name,
        None => Seq::empty(),
    }
}

/// `r` is the file name of the path on that system, or nothing.
pub open spec fn is_log_name(system: System, path: Seq<char>, r: Seq<char>) -> bool {
    exists|name: Option<Seq<char>>| #[trigger]
        is_file_name(system, path, name) && r == name_or_nothing(name)
}

/// The name of an output in the log.
pub fn log_name(output: &str) -> (r: String)
    ensures
        exists|system: System| #[trigger] is_log_name(system, output@, r@),
{
    let host = Host::here();
    let r = log_name_on(host, output);
    assert(is_log_name(host.system(), output@, r@));
    r
}

fn log_name_on(host: Host, output: &str) -> (r: String)
    ensures
        is_log_name(host.system(), output@, r@),
{
    let name = name_of_path(host, output);
    assert(is_file_name(host.system(), output@, text_view(name)));
    match name {
        Some(name) => name,
        None => String::new(),
    }
}

/// The error that the temporary directory could not be made.
pub fn temp_dir_error(parent: &str) -> (r: String)
    ensures
        r@ == "failed to create temporary output directory in "@ + parent@,
{
    "failed to create temporary output directory in ".to_owned().concat(parent)
}

/// An output that is written elsewhere until it is complete.
#[derive(Debug, Clone, PartialEq, Eq)]
pub struct TempOutput {
    /// Where it is written.
    pub path: String,
    /// Where it goes.
    pub output: String,
}

/// What that holds.
pub struct TempOutputView {
    pub path: Seq<char>,
    pub output: Seq<char>,
}

impl View for TempOutput {
    type V = TempOutputView;

    open spec fn view(&self) -> TempOutputView {
        TempOutputView { path: self.path@, output: self.output@ }
    }
}

/// `path` is that of the output's file name in a directory, on that system.
pub open spec fn is_temp_path(system: System, output: Seq<char>, dir: Seq<char>, path: Seq<char>) -> bool {
    exists|name: Option<Seq<char>>| #[trigger]
        is_file_name(system, output, name) && joined(system, dir, name_or_nothing(name), path)
}

impl TempOutput {
    /// The output, written to the temporary directory `dir` under its own name.
    pub fn new(output: &str, dir: &str) -> (r: TempOutput)
        ensures
            r.output@ == output@,
            exists|system: System| #[trigger] is_temp_path(system, output@, dir@, r.path@),
    {
        let host = Host::here();
        let name = name_of_path(host, output);
        let ghost view = text_view(name);
        let name = match name {
            Some(name) => name,
            None => String::new(),
        };
        let path = joined_path(host, dir, name.as_str());
        assert(is_file_name(host.system(), output@, view));
        assert(name@ =~= name_or_nothing(view));
        let r = TempOutput { path, output: output.to_owned() };
        assert(is_temp_path(host.system(), output@, dir@, r.path@));
        r
    }

    /// Where the output is written.
    pub fn path(&self) -> (r: &str)
        ensures
            r@ == self.path@,
    {
        self.path.as_str()
    }

    /// The error that the complete output could not be moved into place.
    pub fn persist_error(&self) -> (r: String)
        ensures
            r@ == "failed to move encoded output from "@ + self.path@ + " to "@ + self.output@,
    {
        "failed to move encoded output from ".to_owned().concat(self.path.as_str()).concat(
            " to ",
        ).concat(self.output.as_str())
    }
}

/// What is written to a directory that is named at greater length than what
/// stands before the name of the output, such as one beside the output, is not
/// the output, and bears its name. What Windows takes as it stands has to hold
/// no slash, and a directory that it takes so no dots to spare.
pub proof fn temp_output_is_another_file(
    system: System,
    output: Seq<char>,
    dir: Seq<char>,
    path: Seq<char>,
)
    requires
        is_temp_path(system, output, dir, path),
        system is Windows && verbatim(output) ==> !output.contains('/'),
        system is Windows && verbatim(dir) ==> settled_dir(dir),
        forall|reading: Reading| #[trigger]
            reads(system, reading, output) ==> (file_span(reading, output) matches Some((start, _))
                && dir.len() > start),
    ensures
        path != output,
        exists|name: Seq<char>| #[trigger]
            is_file_name(system, output, Some(name)) && path.len() >= name.len() && path.skip(
                path.len() - name.len(),
            ) == name,
{
    let found = choose|name: Option<Seq<char>>| #[trigger]
        is_file_name(system, output, name) && joined(system, dir, name_or_nothing(name), path);
    let reading = choose|reading: Reading| #[trigger]
        reads(system, reading, output) && found == file_name(reading, output);
    let (start, end) = file_span(reading, output)->Some_0;
    let name = output.subrange(start, end);
    assert(found == Some(name));
    crate::path::file_span_is_a_name(reading, output);
    assert(!reading.separates(output[start]));
    assert(name[0] == output[start]);
    if system is Windows {
        windows_name_is_plain(reading, output);
        crate::path::plain_name_is_names_only(name);
        assert(!separator(name[0])) by {
            assert(name.contains(name[0]));
        }
    }
    if put_behind(system, dir, name, path) {
        name_put_behind_is_another(reading, output, system, dir, path);
    } else if has_drive(name) {
        assert(path.skip(path.len() - name.len()) =~= name);
    } else {
        assert(path.skip(path.len() - name.len()) =~= name);
        assert(path[0] == dir[0] && path[1] == dir[1]);
    }
}

proof fn windows_name_is_plain(reading: Reading, output: Seq<char>)
    requires
        reads(System::Windows, reading, output),
        verbatim(output) ==> !output.contains('/'),
        file_span(reading, output) is Some,
    ensures
        plain_name(file_name(reading, output)->Some_0),
{
    crate::path::file_span_is_a_name(reading, output);
    let (start, end) = file_span(reading, output)->Some_0;
    let name = output.subrange(start, end);
    assert forall|i: int| 0 <= i < name.len() implies !separator(#[trigger] name[i]) by {
        assert(name[i] == output[start + i]);
        assert(!reading.separates(output[start + i]));
        assert(output.contains(output[start + i]));
    }
}

proof fn name_put_behind_is_another(
    reading: Reading,
    output: Seq<char>,
    system: System,
    dir: Seq<char>,
    path: Seq<char>,
)
    requires
        reading.prefix <= output.len(),
        file_span(reading, output) matches Some((start, end)) && dir.len() > start && put_behind(
            system,
            dir,
            output.subrange(start, end),
            path,
        ),
    ensures
        path != output,
        path.len() >= file_name(reading, output)->Some_0.len(),
        path.skip(path.len() - file_name(reading, output)->Some_0.len()) == file_name(
            reading,
            output,
        )->Some_0,
{
    crate::path::file_span_is_a_name(reading, output);
    let (start, end) = file_span(reading, output)->Some_0;
    let name = output.subrange(start, end);
    put_behind_ends_in_the_name(system, dir, name, path);
    if path == output {
        name_ends_its_path(reading, output);
    }
}

proof fn put_behind_ends_in_the_name(system: System, dir: Seq<char>, name: Seq<char>, path: Seq<char>)
    requires
        dir.len() > 0,
        put_behind(system, dir, name, path),
    ensures
        path.len() >= dir.len() + name.len(),
        path.skip(path.len() - name.len()) == name,
{
    reveal_strlit("/");
    reveal_strlit("\\");
    assert(path.skip(path.len() - name.len()) =~= name);
}

/// A path that ends in its file name has nothing behind it.
proof fn name_ends_its_path(reading: Reading, path: Seq<char>)
    requires
        reading.prefix <= path.len(),
        file_span(reading, path) is Some,
        ({
            let (start, end) = file_span(reading, path)->Some_0;
            path.skip(path.len() - (end - start)) == path.subrange(start, end)
        }),
    ensures
        file_span(reading, path)->Some_0.1 == path.len(),
{
    crate::path::file_span_is_a_name(reading, path);
    let (start, end) = file_span(reading, path)->Some_0;
    let name = path.subrange(start, end);
    let tail = path.skip(end);
    let at = path.len() - name.len();
    if tail.len() > 0 {
        crate::path::trail_ends_so(reading, tail);
        let last = path.len() - 1;
        assert(path.skip(at)[name.len() - 1] == path[last]);
        assert(!reading.separates(path[end - 1]));
        assert(tail.last() == path[last]);
        if name.len() == 1 {
            reveal_strlit(".");
            assert(name =~= "."@);
        } else {
            assert(path.skip(at)[name.len() - 2] == path[last - 1]);
            assert(!reading.separates(path[end - 2]));
            assert(tail[tail.len() - 2] == path[last - 1]);
        }
    }
}

/// The parts of a finished encode.
#[derive(Debug, Clone, Copy, PartialEq, Eq)]
pub struct StreamSizes {
    pub video: u64,
    pub audio: u64,
    pub subtitle: u64,
    pub other: u64,
}

/// Where an output goes.
#[derive(Debug, Clone, PartialEq, Eq)]
pub struct OutputPlan {
    pub output: String,
    /// Nobody asked for that output: it is the default.
    pub defaulting: bool,
    /// The name of the output in the log.
    pub log_name: String,
    /// The directory that the temporary directory is made in.
    pub temp_parent: String,
}

/// What a plan holds.
pub struct PlanView {
    pub output: Seq<char>,
    pub defaulting: bool,
    pub log_name: Seq<char>,
    pub temp_parent: Seq<char>,
}

impl View for OutputPlan {
    type V = PlanView;

    open spec fn view(&self) -> PlanView {
        PlanView {
            output: self.output@,
            defaulting: self.defaulting,
            log_name: self.log_name@,
            temp_parent: self.temp_parent@,
        }
    }
}

/// The plan for the output that was asked for, or else for the default one, on
/// that system: the log names its file name, and the temporary directory is
/// made beside it.
pub open spec fn is_planned(
    system: System,
    output: Option<Seq<char>>,
    input: Seq<char>,
    encoder: EncoderView,
    is_image: bool,
    plan: PlanView,
) -> bool {
    &&& plan.defaulting == (output is None)
    &&& match output {
        Some(given) => plan.output == given,
        None => is_default_output(system, input, encoder, is_image, plan.output),
    }
    &&& is_log_name(system, plan.output, plan.log_name)
    &&& is_temp_parent(system, plan.output, plan.temp_parent)
}

impl OutputPlan {
    /// The plan for the output that was asked for, or else for the default one.
    pub fn new(output: Option<String>, input: &str, encoder: &Encoder, is_image: bool) -> (r: OutputPlan)
        requires
            encoder@.nameable(),
        ensures
            r.defaulting == (output is None),
            output matches Some(given) ==> r.output@ == given@,
            exists|system: System| #[trigger]
                is_planned(system, text_view(output), input@, encoder@, is_image, r@),
    {
        let host = Host::here();
        let ghost given = text_view(output);
        let defaulting = output.is_none();
        let output = match output {
            Some(output) => output,
            None => default_output_on(host, input, encoder, is_image),
        };
        let log_name = log_name_on(host, output.as_str());
        let temp_parent = temp_parent_on(host, output.as_str());
        let r = OutputPlan { output, defaulting, log_name, temp_parent };
        assert(is_planned(host.system(), given, input@, encoder@, is_image, r@));
        r
    }
}

} // verus!
