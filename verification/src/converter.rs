//! The converter: which decoder a place file needs, what a decoder's result
//! becomes, where the project goes, the steps of a conversion and how it
//! ends.
use crate::filesystem::FileSystem;
use crate::paths::{
    eq_ignore_ascii_case, extension_of, file_stem_of, join_paths, path_extension, path_file_stem,
    path_join, text_eq_ignore_ascii_case,
};
use rbx_dom_weak::WeakDom;
use vstd::prelude::*;
use vstd::string::to_string_from_display_ensures;

verus! {

#[verifier::external_type_specification]
#[verifier::external_body]
pub struct ExWeakDom(rbx_dom_weak::WeakDom);

#[verifier::external_type_specification]
#[verifier::external_body]
pub struct ExXmlDecodeError(rbx_xml::DecodeError);

#[verifier::external_type_specification]
#[verifier::external_body]
pub struct ExBinaryDecodeError(rbx_binary::DecodeError);

#[verifier::external_type_specification]
#[verifier::external_body]
pub struct ExIoError(std::io::Error);

/// Why a conversion failed.
#[derive(Debug)]
pub enum ConvertError {
    BinaryDecode(rbx_binary::DecodeError),
    InvalidFile,
    Io(&'static str, std::io::Error),
    XmlDecode(rbx_xml::DecodeError),
}

/// The two encodings of a place or model file.
#[derive(Debug, Clone, Copy, PartialEq, Eq, Structural)]
pub enum PlaceFormat {
    Xml,
    Binary,
}

/// Extensions of XML files: `rbxmx` and `rbxlx`, in any ASCII case.
pub open spec fn is_xml_extension(ext: Seq<char>) -> bool {
    eq_ignore_ascii_case(ext, "rbxmx"@) || eq_ignore_ascii_case(ext, "rbxlx"@)
}

/// Extensions of binary files: `rbxm` and `rbxl`, in any ASCII case.
pub open spec fn is_binary_extension(ext: Seq<char>) -> bool {
    eq_ignore_ascii_case(ext, "rbxm"@) || eq_ignore_ascii_case(ext, "rbxl"@)
}

/// The format that a file with this extension holds, if any.
pub open spec fn format_of_extension(ext: Option<Seq<char>>) -> Option<PlaceFormat> {
    match ext {
        Some(e) => if is_xml_extension(e) {
            Some(PlaceFormat::Xml)
        } else if is_binary_extension(e) {
            Some(PlaceFormat::Binary)
        } else {
            None
        },
        None => None,
    }
}

/// Whatever the extension: `rbxm` and `rbxl`, in any ASCII case, are read as
/// binary files, `rbxmx` and `rbxlx` as XML files, and nothing else is read.
pub proof fn lemma_formats_by_extension(ext: Seq<char>)
    ensures
        format_of_extension(Some(ext)) == Some(PlaceFormat::Binary) <==> (eq_ignore_ascii_case(
            ext,
            "rbxm"@,
        ) || eq_ignore_ascii_case(ext, "rbxl"@)),
        format_of_extension(Some(ext)) == Some(PlaceFormat::Xml) <==> (eq_ignore_ascii_case(
            ext,
            "rbxmx"@,
        ) || eq_ignore_ascii_case(ext, "rbxlx"@)),
        format_of_extension(Some(ext)) is None <==> !(eq_ignore_ascii_case(ext, "rbxm"@)
            || eq_ignore_ascii_case(ext, "rbxl"@) || eq_ignore_ascii_case(ext, "rbxmx"@)
            || eq_ignore_ascii_case(ext, "rbxlx"@)),
        format_of_extension(None) is None,
{
    reveal_strlit("rbxm");
    reveal_strlit("rbxl");
    reveal_strlit("rbxmx");
    reveal_strlit("rbxlx");
    assert("rbxm"@.len() == 4);
    assert("rbxl"@.len() == 4);
    assert("rbxmx"@.len() == 5);
    assert("rbxlx"@.len() == 5);
}

/// Chooses the decoder from the extension of `extension`, the extension of
/// the input file as `Path::extension` gives it.
pub fn format_for_extension(extension: Option<&str>) -> (format: Option<PlaceFormat>)
    ensures
        format == format_of_extension(
            match extension {
                Some(e) => Some(e@),
                None => None,
            },
        ),
        format == Some(PlaceFormat::Binary) <==> (extension matches Some(e) && (
        eq_ignore_ascii_case(e@, "rbxm"@) || eq_ignore_ascii_case(e@, "rbxl"@))),
        format == Some(PlaceFormat::Xml) <==> (extension matches Some(e) && (eq_ignore_ascii_case(
            e@,
            "rbxmx"@,
        ) || eq_ignore_ascii_case(e@, "rbxlx"@))),
{
    proof {
        match extension {
            Some(e) => lemma_formats_by_extension(e@),
            None => {},
        }
    }
    proof {
        reveal_strlit("rbxmx");
        reveal_strlit("rbxlx");
        reveal_strlit("rbxm");
        reveal_strlit("rbxl");
    }
    match extension {
        Some(e) => {
            if text_eq_ignore_ascii_case(e, "rbxmx") || text_eq_ignore_ascii_case(e, "rbxlx") {
                Some(PlaceFormat::Xml)
            } else if text_eq_ignore_ascii_case(e, "rbxm") || text_eq_ignore_ascii_case(
                e,
                "rbxl",
            ) {
                Some(PlaceFormat::Binary)
            } else {
                None
            }
        },
        None => None,
    }
}

/// The format of the file at `input_path`, judged by its extension; a file
/// with any other extension, or none, is refused with `InvalidFile`.
pub fn place_format(input_path: &str) -> (result: Result<PlaceFormat, ConvertError>)
    ensures
        match format_of_extension(path_extension(input_path@)) {
            Some(f) => result == Ok::<PlaceFormat, ConvertError>(f),
            None => result matches Err(ConvertError::InvalidFile),
        },
        result == Ok::<PlaceFormat, ConvertError>(PlaceFormat::Binary) <==> (path_extension(
            input_path@,
        ) matches Some(e) && (eq_ignore_ascii_case(e, "rbxm"@) || eq_ignore_ascii_case(e, "rbxl"@))),
        result == Ok::<PlaceFormat, ConvertError>(PlaceFormat::Xml) <==> (path_extension(
            input_path@,
        ) matches Some(e) && (eq_ignore_ascii_case(e, "rbxmx"@) || eq_ignore_ascii_case(
            e,
            "rbxlx"@,
        ))),
{
    proof {
        match path_extension(input_path@) {
            Some(e) => lemma_formats_by_extension(e),
            None => {},
        }
    }
    let ext = extension_of(input_path);
    let format = match &ext {
        Some(e) => format_for_extension(Some(e.as_str())),
        None => format_for_extension(None),
    };
    match format {
        Some(f) => Ok(f),
        None => Err(ConvertError::InvalidFile),
    }
}

/// What a decoder gave for a place file: `rbx_xml`'s result for an XML
/// file, `rbx_binary`'s for a binary one. The decoders read the file
/// themselves and panic on some malformed files, so they run with the
/// caller's file reading, not here.
#[derive(Debug)]
pub enum DecodedPlace {
    Xml(Result<WeakDom, rbx_xml::DecodeError>),
    Binary(Result<WeakDom, rbx_binary::DecodeError>),
}

/// The format whose decoder gave `decoded`.
pub open spec fn decoded_format(decoded: DecodedPlace) -> PlaceFormat {
    match decoded {
        DecodedPlace::Xml(_) => PlaceFormat::Xml,
        DecodedPlace::Binary(_) => PlaceFormat::Binary,
    }
}

/// The decoded tree, or the decoder's error as the error of that decoder.
pub fn decode_place(decoded: DecodedPlace) -> (result: Result<WeakDom, ConvertError>)
    ensures
        match decoded {
            DecodedPlace::Xml(Ok(tree)) => result == Ok::<WeakDom, ConvertError>(tree),
            DecodedPlace::Xml(Err(e)) => result == Err::<WeakDom, ConvertError>(
                ConvertError::XmlDecode(e),
            ),
            DecodedPlace::Binary(Ok(tree)) => result == Ok::<WeakDom, ConvertError>(tree),
            DecodedPlace::Binary(Err(e)) => result == Err::<WeakDom, ConvertError>(
                ConvertError::BinaryDecode(e),
            ),
        },
{
    match decoded {
        DecodedPlace::Xml(Ok(tree)) => Ok(tree),
        DecodedPlace::Xml(Err(error)) => Err(ConvertError::XmlDecode(error)),
        DecodedPlace::Binary(Ok(tree)) => Ok(tree),
        DecodedPlace::Binary(Err(error)) => Err(ConvertError::BinaryDecode(error)),
    }
}

/// The folder of the project made from `input_path`: the input's file stem
/// under `output_root`. The input must have a file stem.
pub fn output_project_path(input_path: &str, output_root: &str) -> (project: String)
    requires
        path_file_stem(input_path@) is Some,
    ensures
        project@ == path_join(output_root@, path_file_stem(input_path@)->0),
{
    let stem = file_stem_of(input_path);
    match stem {
        Some(s) => join_paths(output_root, s.as_str()),
        None => {
            assert(false);
            String::new()
        },
    }
}

/// As `output_project_path`, for any input: `None` where the input has no
/// file stem.
pub fn try_output_project_path(input_path: &str, output_root: &str) -> (project: Option<String>)
    ensures
        match path_file_stem(input_path@) {
            Some(stem) => project matches Some(p) && p@ == path_join(output_root@, stem),
            None => project is None,
        },
{
    let stem = file_stem_of(input_path);
    match stem {
        Some(_) => Some(output_project_path(input_path, output_root)),
        None => None,
    }
}

/// How a finished conversion answers: the project folder, unless the project
/// writer met an error, which is then returned as an `Io` error.
pub fn finish_conversion(project_path: String, filesystem: FileSystem) -> (result: Result<
    String,
    ConvertError,
>)
    ensures
        match filesystem.failure() {
            None => result == Ok::<String, ConvertError>(project_path),
            Some((doing_what, error)) => result == Err::<String, ConvertError>(
                ConvertError::Io(doing_what, error),
            ),
        },
{
    match filesystem.into_error() {
        None => Ok(project_path),
        Some((doing_what, error)) => Err(ConvertError::Io(doing_what, error)),
    }
}

/// The steps of a conversion that touch the disk themselves.
#[derive(Debug, Clone, Copy, PartialEq, Eq, Structural)]
pub enum ConvertStage {
    ReadPlaceFile,
    CreateProjectFolder,
}

/// What the converter was doing when a stage failed.
pub open spec fn stage_text(stage: ConvertStage) -> Seq<char> {
    match stage {
        ConvertStage::ReadPlaceFile => "read the place file"@,
        ConvertStage::CreateProjectFolder => "create the project folder"@,
    }
}

/// The error for a failure of `stage` with `error`.
pub fn stage_failed(stage: ConvertStage, error: std::io::Error) -> (failure: ConvertError)
    ensures
        failure matches ConvertError::Io(d, e) && d@ == stage_text(stage) && e == error,
{
    match stage {
        ConvertStage::ReadPlaceFile => ConvertError::Io("read the place file", error),
        ConvertStage::CreateProjectFolder => ConvertError::Io("create the project folder", error),
    }
}

/// What the caller of `conversion_step` reports back: the start, or how the
/// last action it was asked for went.
#[derive(Debug)]
pub enum ConversionEvent {
    /// The conversion starts.
    Begin,
    /// Reading and decoding the input ended so; the caller keeps the tree.
    Decoded(Result<(), ConvertError>),
    /// Making the project folder ended so.
    ProjectFolder(Result<(), std::io::Error>),
    /// The decoded tree was walked into this project writer, which was set
    /// up in the project folder and told that all instructions are in.
    Processed(FileSystem),
}

/// What `conversion_step` asks the caller to do next.
#[derive(Debug)]
pub enum ConversionAction {
    /// Read the input file and decode it (`place_format`, the decoder of its
    /// format on the file, then `decode_place`).
    ReadAndDecode,
    /// Make this project folder, with its parents.
    MakeProjectFolder(String),
    /// Set up a project writer in the project folder and walk the decoded
    /// tree into it.
    Process,
    /// The conversion is over, with this result.
    Finish(Result<String, ConvertError>),
}

/// The events after which the project folder is needed.
pub open spec fn needs_project_path(event: ConversionEvent) -> bool {
    ||| event matches ConversionEvent::Decoded(Ok(_))
    ||| event is Processed
}

/// `out` is what one step of the conversion of `input_path` into
/// `output_root` gives after `event`: the messages it reports and what it
/// asks for next.
pub open spec fn step_outcome(
    input_path: Seq<char>,
    output_root: Seq<char>,
    event: ConversionEvent,
    out: (Vec<&'static str>, ConversionAction),
) -> bool {
    match event {
        ConversionEvent::Begin => {
            &&& out.0@.len() == 2
            &&& out.0@[0]@ == "Opening place file"@
            &&& out.0@[1]@ == "Decoding place file, this is the longest part..."@
            &&& out.1 is ReadAndDecode
        },
        ConversionEvent::Decoded(Err(e)) => {
            &&& out.0@.len() == 0
            &&& out.1 == ConversionAction::Finish(Err(e))
        },
        ConversionEvent::Decoded(Ok(_)) => {
            &&& out.0@.len() == 0
            &&& out.1 matches ConversionAction::MakeProjectFolder(p) && p@ == path_join(
                output_root,
                path_file_stem(input_path)->0,
            )
        },
        ConversionEvent::ProjectFolder(Err(e)) => {
            &&& out.0@.len() == 0
            &&& out.1 matches ConversionAction::Finish(Err(ConvertError::Io(d, f))) && d@
                == stage_text(ConvertStage::CreateProjectFolder) && f == e
        },
        ConversionEvent::ProjectFolder(Ok(_)) => {
            &&& out.0@.len() == 1
            &&& out.0@[0]@ == "Starting processing, please wait a bit..."@
            &&& out.1 is Process
        },
        ConversionEvent::Processed(filesystem) => match filesystem.failure() {
            None => {
                &&& out.0@.len() == 1
                &&& out.0@[0]@ == "Done"@
                &&& out.1 matches ConversionAction::Finish(Ok(p)) && p@ == path_join(
                    output_root,
                    path_file_stem(input_path)->0,
                )
            },
            Some((d, e)) => {
                &&& out.0@.len() == 0
                &&& out.1 == ConversionAction::Finish(Err(ConvertError::Io(d, e)))
            },
        },
    }
}

/// Whatever the input and its extension: the project folder is asked for
/// only after the input decoded, and it is the input's file stem under the
/// output root; once that folder is made the next step is always to
/// process, never to finish; and a conversion finishes well only when a
/// writer with no failure has processed the tree, and then with that same
/// folder.
pub proof fn lemma_conversion_steps(
    input_path: Seq<char>,
    output_root: Seq<char>,
    event: ConversionEvent,
    out: (Vec<&'static str>, ConversionAction),
)
    requires
        step_outcome(input_path, output_root, event, out),
    ensures
        out.1 matches ConversionAction::MakeProjectFolder(p) ==> event matches ConversionEvent::Decoded(Ok(_))
            && p@ == path_join(output_root, path_file_stem(input_path)->0),
        event matches ConversionEvent::Decoded(Ok(_)) ==> out.1 is MakeProjectFolder,
        event matches ConversionEvent::ProjectFolder(Ok(_)) ==> out.1 is Process,
        out.1 is Process ==> event matches ConversionEvent::ProjectFolder(Ok(_)),
        out.1 matches ConversionAction::Finish(Ok(p)) ==> event matches ConversionEvent::Processed(fs)
            && fs.failure() is None && p@ == path_join(output_root, path_file_stem(input_path)->0),
{
}

/// One step of converting `input_path` into a project under `output_root`:
/// given what just happened, the progress messages to report, in order, and
/// what to do next. The project folder is asked for only once the input
/// decoded; a failed step ends the conversion with its error and reports
/// nothing; a conversion that ends well reports `Done`. The input must have a
/// file stem once the project folder is needed.
pub fn conversion_step(input_path: &str, output_root: &str, event: ConversionEvent) -> (out: (
    Vec<&'static str>,
    ConversionAction,
))
    requires
        needs_project_path(event) ==> path_file_stem(input_path@) is Some,
    ensures
        step_outcome(input_path@, output_root@, event, out),
        out.1 matches ConversionAction::MakeProjectFolder(p) ==> event matches ConversionEvent::Decoded(Ok(_))
            && p@ == path_join(output_root@, path_file_stem(input_path@)->0),
        event matches ConversionEvent::Decoded(Ok(_)) ==> out.1 is MakeProjectFolder,
        event matches ConversionEvent::ProjectFolder(Ok(_)) ==> out.1 is Process,
        out.1 is Process ==> event matches ConversionEvent::ProjectFolder(Ok(_)),
        out.1 matches ConversionAction::Finish(Ok(p)) ==> event matches ConversionEvent::Processed(fs)
            && fs.failure() is None && p@ == path_join(output_root@, path_file_stem(input_path@)->0),
{
    let mut messages: Vec<&'static str> = Vec::new();
    match event {
        ConversionEvent::Begin => {
            messages.push("Opening place file");
            messages.push("Decoding place file, this is the longest part...");
            (messages, ConversionAction::ReadAndDecode)
        },
        ConversionEvent::Decoded(Err(e)) => (messages, ConversionAction::Finish(Err(e))),
        ConversionEvent::Decoded(Ok(())) => {
            let project = output_project_path(input_path, output_root);
            (messages, ConversionAction::MakeProjectFolder(project))
        },
        ConversionEvent::ProjectFolder(Err(e)) => {
            let failure = stage_failed(ConvertStage::CreateProjectFolder, e);
            (messages, ConversionAction::Finish(Err(failure)))
        },
        ConversionEvent::ProjectFolder(Ok(())) => {
            messages.push("Starting processing, please wait a bit...");
            (messages, ConversionAction::Process)
        },
        ConversionEvent::Processed(filesystem) => {
            let project = output_project_path(input_path, output_root);
            let result = finish_conversion(project, filesystem);
            if result.is_ok() {
                messages.push("Done");
            }
            (messages, ConversionAction::Finish(result))
        },
    }
}

/// As `conversion_step`, for any input: `None` where the project folder is
/// needed and the input has no file stem.
pub fn try_conversion_step(input_path: &str, output_root: &str, event: ConversionEvent) -> (out:
    Option<(Vec<&'static str>, ConversionAction)>)
    ensures
        match out {
            None => needs_project_path(event) && path_file_stem(input_path@) is None,
            Some(o) => step_outcome(input_path@, output_root@, event, o),
        },
        out matches Some(o) ==> (o.1 matches ConversionAction::MakeProjectFolder(p) ==> event matches ConversionEvent::Decoded(Ok(_))
            && p@ == path_join(output_root@, path_file_stem(input_path@)->0)),
        out matches Some(o) ==> (o.1 matches ConversionAction::Finish(Ok(p)) ==> event matches ConversionEvent::Processed(fs)
            && fs.failure() is None && p@ == path_join(output_root@, path_file_stem(input_path@)->0)),
        out matches Some(o) ==> (event matches ConversionEvent::ProjectFolder(Ok(_)) ==> o.1 is Process),
        out matches Some(o) ==> (o.1 is Process ==> event matches ConversionEvent::ProjectFolder(Ok(_))),
{
    let needs = match &event {
        ConversionEvent::Decoded(Ok(_)) => true,
        ConversionEvent::Processed(_) => true,
        _ => false,
    };
    if needs {
        match file_stem_of(input_path) {
            None => return None,
            Some(_) => {},
        }
    }
    Some(conversion_step(input_path, output_root, event))
}

/// The start of the message of an `Io` error, which says what was being done.
pub open spec fn io_message_prefix(doing_what: Seq<char>) -> Seq<char> {
    "While attempting to "@ + doing_what + ", "@
}

impl ConvertError {
    /// The message shown for this error. It keeps the reason: the text that
    /// `to_string` gives for the underlying I/O or decode error.
    pub fn message(&self) -> (text: String)
        ensures
            match self {
                ConvertError::InvalidFile => text@
                    == "The file provided does not have a recognized file extension"@,
                ConvertError::Io(d, e) => exists|reason: String|
                    to_string_from_display_ensures::<std::io::Error>(e, reason) && text@
                        == io_message_prefix(d@) + reason@,
                ConvertError::XmlDecode(e) => exists|reason: String|
                    to_string_from_display_ensures::<rbx_xml::DecodeError>(e, reason) && text@
                        == "While attempting to decode the place file, at "@ + reason@
                        + " rbx_xml didn't know what to do"@,
                ConvertError::BinaryDecode(e) => exists|reason: String|
                    to_string_from_display_ensures::<rbx_binary::DecodeError>(e, reason) && text@
                        == "While attempting to decode the place file, at "@ + reason@
                        + " rbx_binary didn't know what to do"@,
            },
    {
        match self {
            ConvertError::InvalidFile => String::from_str(
                "The file provided does not have a recognized file extension",
            ),
            ConvertError::Io(doing_what, error) => {
                let detail = error.to_string();
                let mut text = String::from_str("While attempting to ");
                text.append(doing_what);
                text.append(", ");
                text.append(detail.as_str());
                assert(text@ == io_message_prefix(doing_what@) + detail@);
                text
            },
            ConvertError::XmlDecode(error) => {
                let detail = error.to_string();
                let mut text = String::from_str("While attempting to decode the place file, at ");
                text.append(detail.as_str());
                text.append(" rbx_xml didn't know what to do");
                assert(text@ == "While attempting to decode the place file, at "@ + detail@
                    + " rbx_xml didn't know what to do"@);
                text
            },
            ConvertError::BinaryDecode(error) => {
                let detail = error.to_string();
                let mut text = String::from_str("While attempting to decode the place file, at ");
                text.append(detail.as_str());
                text.append(" rbx_binary didn't know what to do");
                assert(text@ == "While attempting to decode the place file, at "@ + detail@
                    + " rbx_binary didn't know what to do"@);
                text
            },
        }
    }
}

} // verus!
