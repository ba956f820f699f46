//! The state of the converter window and how each event changes it: picking
//! an input file or an output folder, dropping files on the window,
//! starting a conversion, hearing from the conversion worker, and revealing
//! the result. Drawing the window, the dialogs, the worker thread and the
//! Finder call are the caller's.
use crate::converter::{format_of_extension, is_binary_extension, is_xml_extension};
use crate::paths::{eq_ignore_ascii_case, extension_of, path_extension, text_eq_ignore_ascii_case};
use vstd::prelude::*;

verus! {

/// The extensions of the files the window accepts.
pub open spec fn roblox_extension_texts() -> Seq<Seq<char>> {
    seq!["rbxlx"@, "rbxl"@, "rbxmx"@, "rbxm"@]
}

/// The extensions of the files the window accepts, for the file dialog.
pub fn roblox_extensions() -> (extensions: Vec<&'static str>)
    ensures
        extensions@.len() == 4,
        forall|i: int| 0 <= i < 4 ==> (#[trigger] extensions@[i])@ == roblox_extension_texts()[i],
{
    let mut extensions: Vec<&'static str> = Vec::new();
    extensions.push("rbxlx");
    extensions.push("rbxl");
    extensions.push("rbxmx");
    extensions.push("rbxm");
    extensions
}

/// An extension that the window accepts: one of the four, in any ASCII case.
pub open spec fn is_roblox_extension(ext: Seq<char>) -> bool {
    exists|i: int| 0 <= i < 4 && eq_ignore_ascii_case(ext, #[trigger] roblox_extension_texts()[i])
}

/// A path the window accepts as input: one whose extension is accepted.
pub open spec fn is_supported_path(path: Seq<char>) -> bool {
    match path_extension(path) {
        Some(ext) => is_roblox_extension(ext),
        None => false,
    }
}

/// The window accepts exactly the files that the converter knows how to
/// decode: a path is accepted if and only if its extension names a format.
pub proof fn lemma_accepted_inputs_are_decodable(path: Seq<char>)
    ensures
        is_supported_path(path) <==> format_of_extension(path_extension(path)) is Some,
{
    if let Some(ext) = path_extension(path) {
        let texts = roblox_extension_texts();
        assert(texts[0] == "rbxlx"@);
        assert(texts[1] == "rbxl"@);
        assert(texts[2] == "rbxmx"@);
        assert(texts[3] == "rbxm"@);
        if is_roblox_extension(ext) {
            let i = choose|i: int| 0 <= i < 4 && eq_ignore_ascii_case(ext, #[trigger] texts[i]);
            assert(is_xml_extension(ext) || is_binary_extension(ext));
        }
        if is_xml_extension(ext) || is_binary_extension(ext) {
            if eq_ignore_ascii_case(ext, "rbxlx"@) {
                assert(eq_ignore_ascii_case(ext, texts[0]));
            } else if eq_ignore_ascii_case(ext, "rbxl"@) {
                assert(eq_ignore_ascii_case(ext, texts[1]));
            } else if eq_ignore_ascii_case(ext, "rbxmx"@) {
                assert(eq_ignore_ascii_case(ext, texts[2]));
            } else {
                assert(eq_ignore_ascii_case(ext, texts[3]));
            }
        }
    }
}

/// Whether the window accepts a file with this extension.
pub fn is_supported_extension(extension: &str) -> (supported: bool)
    ensures
        supported == is_roblox_extension(extension@),
{
    let extensions = roblox_extensions();
    let mut i: usize = 0;
    while i < 4
        invariant
            i <= 4,
            extensions@.len() == 4,
            forall|k: int| 0 <= k < 4 ==> (#[trigger] extensions@[k])@ == roblox_extension_texts()[k],
            forall|k: int|
                0 <= k < i ==> !eq_ignore_ascii_case(extension@, #[trigger] roblox_extension_texts()[k]),
        decreases 4 - i,
    {
        if text_eq_ignore_ascii_case(extension, extensions[i]) {
            assert(eq_ignore_ascii_case(extension@, roblox_extension_texts()[i as int]));
            return true;
        }
        i = i + 1;
    }
    false
}

/// Whether the window accepts `path` as its input file.
pub fn is_supported_input_file(path: &str) -> (supported: bool)
    ensures
        supported == is_supported_path(path@),
{
    match extension_of(path) {
        Some(ext) => is_supported_extension(ext.as_str()),
        None => false,
    }
}

/// The text shown for an optional path: the path, or `Not selected`.
pub fn path_label(path: &Option<String>) -> (label: String)
    ensures
        label@ == match path {
            Some(p) => p@,
            None => "Not selected"@,
        },
{
    match path {
        Some(p) => p.clone(),
        None => String::from_str("Not selected"),
    }
}

/// A message from the conversion worker.
#[derive(Debug)]
pub enum WorkerMessage {
    Log(String),
    Finished(Result<String, String>),
}

/// What a look at the worker's channel found.
#[derive(Debug)]
pub enum WorkerPoll {
    Received(WorkerMessage),
    Empty,
    Disconnected,
}

/// What to do with the worker's channel after one look.
#[derive(Debug, Clone, Copy, PartialEq, Eq, Structural)]
pub enum DrainStep {
    /// Look again now.
    Continue,
    /// Nothing more for now: keep the channel and look on the next frame.
    Wait,
    /// The worker is done: drop the channel.
    Done,
}

/// How the attempt to reveal the result in Finder went.
#[derive(Debug)]
pub enum RevealOutcome {
    Revealed,
    /// The command ran and failed; the text of its exit status.
    FailedWithStatus(String),
    /// The command could not be run; the text of the error.
    CouldNotRun(String),
}

/// The input and output of a conversion to run.
#[derive(Debug)]
pub struct ConversionJob {
    pub input_path: String,
    pub output_root: String,
}

/// The state of the converter window.
#[derive(Debug)]
pub struct ConverterApp {
    pub input_path: Option<String>,
    pub output_root: Option<String>,
    pub logs: Vec<String>,
    pub status: String,
    pub result_path: Option<String>,
    pub converting: bool,
}

/// The message logged when a file of an unknown type is picked.
pub open spec fn unsupported_message(path: Seq<char>) -> Seq<char> {
    "Unsupported file type: "@ + path
}

/// `new` is the window `old` after `path` was offered as the input file:
/// an accepted file becomes the input with status `Ready`; any other clears
/// the input, sets status `Unsupported file type` and logs it. Either way the
/// result is no longer shown, and the output folder and whether a conversion
/// runs stay as they were.
pub open spec fn input_offered(old: ConverterApp, new: ConverterApp, path: String) -> bool {
    &&& new.result_path is None
    &&& new.output_root == old.output_root
    &&& new.converting == old.converting
    &&& if is_supported_path(path@) {
        &&& new.input_path == Some(path)
        &&& new.status@ == "Ready"@
        &&& new.logs@ == old.logs@
    } else {
        &&& new.input_path is None
        &&& new.status@ == "Unsupported file type"@
        &&& new.logs@.len() == old.logs@.len() + 1
        &&& new.logs@.take(old.logs@.len() as int) == old.logs@
        &&& new.logs@.last()@ == unsupported_message(path@)
    }
}

/// Offering a file as the input, accepted or not, never touches the output
/// folder or whether a conversion runs, and never leaves a result shown; the
/// file becomes the input exactly when it is accepted.
pub proof fn lemma_offering_input_keeps_output(
    old: ConverterApp,
    new: ConverterApp,
    path: String,
)
    requires
        input_offered(old, new, path),
    ensures
        new.output_root == old.output_root,
        new.converting == old.converting,
        new.result_path is None,
        is_supported_path(path@) <==> new.input_path == Some(path),
        !is_supported_path(path@) ==> new.input_path is None,
{
}

impl ConverterApp {
    /// While a conversion runs, no result is shown; and a result is shown
    /// only with status `Done`.
    pub open spec fn inv(&self) -> bool {
        &&& self.converting ==> self.result_path is None
        &&& self.result_path is Some ==> self.status@ == "Done"@
    }

    /// Takes `path` as the input file if its type is accepted; otherwise
    /// clears the input, says so in the status and logs it. Either way the
    /// previous result is no longer shown.
    pub fn set_input_path(&mut self, path: String)
        ensures
            input_offered(*old(self), *final(self), path),
            final(self).output_root == old(self).output_root,
            final(self).converting == old(self).converting,
            final(self).result_path is None,
            is_supported_path(path@) ==> final(self).input_path == Some(path),
            !is_supported_path(path@) ==> final(self).input_path is None,
            final(self).inv(),
    {
        if is_supported_input_file(path.as_str()) {
            self.input_path = Some(path);
            self.result_path = None;
            self.status = String::from_str("Ready");
        } else {
            self.input_path = None;
            self.result_path = None;
            self.status = String::from_str("Unsupported file type");
            let mut message = String::from_str("Unsupported file type: ");
            message.append(path.as_str());
            let ghost before = self.logs@;
            self.logs.push(message);
            assert(self.logs@.take(before.len() as int) =~= before);
        }
    }

    /// Handles what the input file dialog gave: a picked file is set as the
    /// input; a cancelled dialog changes nothing.
    pub fn choose_input_file(&mut self, picked: Option<String>)
        requires
            old(self).inv(),
        ensures
            final(self).inv(),
            match picked {
                None => *final(self) == *old(self),
                Some(path) => input_offered(*old(self), *final(self), path),
            },
            final(self).output_root == old(self).output_root,
            final(self).converting == old(self).converting,
    {
        if let Some(path) = picked {
            self.set_input_path(path);
        }
    }

    /// Handles what the output folder dialog gave: a picked folder becomes
    /// the output root, the previous result is no longer shown and the
    /// status is `Ready`; a cancelled dialog changes nothing.
    pub fn choose_output_folder(&mut self, picked: Option<String>)
        requires
            old(self).inv(),
        ensures
            final(self).inv(),
            match picked {
                None => *final(self) == *old(self),
                Some(path) => {
                    &&& final(self).output_root == Some(path)
                    &&& final(self).result_path is None
                    &&& final(self).status@ == "Ready"@
                    &&& final(self).input_path == old(self).input_path
                    &&& final(self).logs == old(self).logs
                    &&& final(self).converting == old(self).converting
                },
            },
    {
        if let Some(path) = picked {
            self.output_root = Some(path);
            self.result_path = None;
            self.status = String::from_str("Ready");
        }
    }

    /// The Convert button is enabled: both paths are chosen and no
    /// conversion runs.
    pub fn can_convert(&self) -> (enabled: bool)
        ensures
            enabled == (self.input_path is Some && self.output_root is Some && !self.converting),
    {
        self.input_path.is_some() && self.output_root.is_some() && !self.converting
    }

    /// Starts a conversion of the chosen input into the chosen output root:
    /// the log is cleared, no result is shown and the status is
    /// `Converting...`. Without both paths nothing happens.
    pub fn convert(&mut self) -> (job: Option<ConversionJob>)
        requires
            old(self).inv(),
        ensures
            final(self).inv(),
            match (old(self).input_path, old(self).output_root) {
                (Some(input), Some(output)) => {
                    &&& job matches Some(j) && j.input_path == input && j.output_root == output
                    &&& final(self).logs@.len() == 0
                    &&& final(self).result_path is None
                    &&& final(self).status@ == "Converting..."@
                    &&& final(self).converting
                    &&& final(self).input_path == old(self).input_path
                    &&& final(self).output_root == old(self).output_root
                },
                _ => job is None && *final(self) == *old(self),
            },
    {
        let input_path = match &self.input_path {
            Some(path) => path.clone(),
            None => return None,
        };
        let output_root = match &self.output_root {
            Some(path) => path.clone(),
            None => return None,
        };
        self.logs = Vec::new();
        self.result_path = None;
        self.status = String::from_str("Converting...");
        self.converting = true;
        Some(ConversionJob { input_path, output_root })
    }

    /// Takes in one look at the worker's channel. A log line is kept; the
    /// worker's end, or its loss, ends the conversion with status `Done` and
    /// the result, or status `Failed` and the reason logged.
    pub fn handle_worker_poll(&mut self, poll: WorkerPoll) -> (step: DrainStep)
        requires
            old(self).inv(),
        ensures
            final(self).inv(),
            final(self).input_path == old(self).input_path,
            final(self).output_root == old(self).output_root,
            match poll {
                WorkerPoll::Received(WorkerMessage::Log(line)) => {
                    &&& step == DrainStep::Continue
                    &&& final(self).logs@ == old(self).logs@.push(line)
                    &&& final(self).status == old(self).status
                    &&& final(self).result_path == old(self).result_path
                    &&& final(self).converting == old(self).converting
                },
                WorkerPoll::Received(WorkerMessage::Finished(Ok(path))) => {
                    &&& step == DrainStep::Done
                    &&& final(self).status@ == "Done"@
                    &&& final(self).result_path == Some(path)
                    &&& !final(self).converting
                    &&& final(self).logs == old(self).logs
                },
                WorkerPoll::Received(WorkerMessage::Finished(Err(reason))) => {
                    &&& step == DrainStep::Done
                    &&& final(self).status@ == "Failed"@
                    &&& final(self).logs@ == old(self).logs@.push(reason)
                    &&& final(self).result_path is None
                    &&& !final(self).converting
                },
                WorkerPoll::Empty => {
                    &&& step == DrainStep::Wait
                    &&& *final(self) == *old(self)
                },
                WorkerPoll::Disconnected => {
                    &&& step == DrainStep::Done
                    &&& final(self).status@ == "Failed"@
                    &&& final(self).logs@.len() == old(self).logs@.len() + 1
                    &&& final(self).logs@.drop_last() == old(self).logs@
                    &&& final(self).logs@.last()@ == "Conversion worker stopped unexpectedly"@
                    &&& final(self).result_path is None
                    &&& !final(self).converting
                },
            },
    {
        match poll {
            WorkerPoll::Received(WorkerMessage::Log(line)) => {
                self.logs.push(line);
                DrainStep::Continue
            },
            WorkerPoll::Received(WorkerMessage::Finished(Ok(path))) => {
                self.status = String::from_str("Done");
                self.result_path = Some(path);
                self.converting = false;
                DrainStep::Done
            },
            WorkerPoll::Received(WorkerMessage::Finished(Err(reason))) => {
                self.status = String::from_str("Failed");
                self.logs.push(reason);
                self.result_path = None;
                self.converting = false;
                DrainStep::Done
            },
            WorkerPoll::Empty => DrainStep::Wait,
            WorkerPoll::Disconnected => {
                self.status = String::from_str("Failed");
                let ghost before = self.logs@;
                self.logs.push(String::from_str("Conversion worker stopped unexpectedly"));
                assert(self.logs@.drop_last() =~= before);
                self.result_path = None;
                self.converting = false;
                DrainStep::Done
            },
        }
    }

    /// Takes in the files dropped on the window, each with its path if it
    /// has one: while no conversion runs, the first that has a path is
    /// handled as a picked input; the rest are ignored.
    pub fn handle_dropped_files(&mut self, dropped: Vec<Option<String>>)
        requires
            old(self).inv(),
        ensures
            final(self).inv(),
            old(self).converting ==> *final(self) == *old(self),
            final(self).output_root == old(self).output_root,
            final(self).converting == old(self).converting,
            !old(self).converting ==> (forall|i: int|
                0 <= i < dropped@.len() ==> dropped@[i] is None) ==> *final(self) == *old(self),
            !old(self).converting ==> forall|i: int|
                0 <= i < dropped@.len() && (#[trigger] dropped@[i]) is Some && (forall|k: int|
                    0 <= k < i ==> dropped@[k] is None) ==> input_offered(
                    *old(self),
                    *final(self),
                    dropped@[i]->0,
                ),
    {
        if self.converting {
            return;
        }
        let ghost files = dropped@;
        let mut rest = dropped;
        let total: usize = rest.len();
        let mut seen: usize = 0;
        while rest.len() > 0
            invariant
                seen + rest@.len() == files.len(),
                rest@ == files.skip(seen as int),
                forall|k: int| 0 <= k < seen ==> files[k] is None,
                *self == *old(self),
                !old(self).converting,
                old(self).inv(),
                files == dropped@,
                files.len() == total,
            decreases rest@.len(),
        {
            let file = rest.remove(0);
            assert(files[seen as int] == file);
            if let Some(path) = file {
                self.set_input_path(path);
                assert forall|i: int|
                    0 <= i < files.len() && (#[trigger] files[i]) is Some && (forall|k: int|
                        0 <= k < i ==> files[k] is None) implies i == seen by {
                    if i > seen {
                        assert(files[seen as int] is None);
                    }
                }
                return;
            }
            seen = seen + 1;
            assert(rest@ =~= files.skip(seen as int));
        }
    }

    /// Takes in how revealing the shown result went: a failure is logged.
    /// Without a result to reveal nothing happens.
    pub fn reveal_result(&mut self, outcome: RevealOutcome)
        requires
            old(self).inv(),
        ensures
            final(self).inv(),
            final(self).status == old(self).status,
            final(self).result_path == old(self).result_path,
            final(self).output_root == old(self).output_root,
            final(self).input_path == old(self).input_path,
            final(self).converting == old(self).converting,
            match (old(self).result_path, outcome) {
                (Some(_), RevealOutcome::FailedWithStatus(status)) => final(self).logs@
                    == old(self).logs@.push(final(self).logs@.last()) && final(self).logs@.last()@
                    == "Reveal in Finder failed with status: "@ + status@,
                (Some(_), RevealOutcome::CouldNotRun(error)) => final(self).logs@ == old(
                    self,
                ).logs@.push(final(self).logs@.last()) && final(self).logs@.last()@
                    == "Reveal in Finder failed: "@ + error@,
                _ => final(self).logs == old(self).logs,
            },
    {
        if self.result_path.is_none() {
            return;
        }
        match outcome {
            RevealOutcome::Revealed => {},
            RevealOutcome::FailedWithStatus(status) => {
                let mut line = String::from_str("Reveal in Finder failed with status: ");
                line.append(status.as_str());
                self.logs.push(line);
            },
            RevealOutcome::CouldNotRun(error) => {
                let mut line = String::from_str("Reveal in Finder failed: ");
                line.append(error.as_str());
                self.logs.push(line);
            },
        }
    }

    /// The status line: `Status: ` and the status.
    pub fn status_line(&self) -> (line: String)
        ensures
            line@ == "Status: "@ + self.status@,
    {
        let mut line = String::from_str("Status: ");
        line.append(self.status.as_str());
        line
    }

    /// The lines of the log panel: the log, or `No messages yet.` while it
    /// is empty.
    pub fn log_lines(&self) -> (lines: Vec<String>)
        ensures
            self.logs@.len() == 0 ==> lines@.len() == 1 && lines@[0]@ == "No messages yet."@,
            self.logs@.len() > 0 ==> lines@.len() == self.logs@.len() && forall|i: int|
                0 <= i < lines@.len() ==> (#[trigger] lines@[i])@ == self.logs@[i]@,
    {
        let mut lines: Vec<String> = Vec::new();
        if self.logs.len() == 0 {
            lines.push(String::from_str("No messages yet."));
            return lines;
        }
        let n: usize = self.logs.len();
        let mut i: usize = 0;
        while i < n
            invariant
                n == self.logs@.len(),
                i <= n,
                lines@.len() == i,
                forall|k: int| 0 <= k < i ==> (#[trigger] lines@[k])@ == self.logs@[k]@,
            decreases n - i,
        {
            lines.push(self.logs[i].clone());
            i = i + 1;
        }
        lines
    }
}

impl Default for ConverterApp {
    /// A window with nothing selected, status `Ready`.
    fn default() -> (app: ConverterApp)
        ensures
            app.input_path is None,
            app.output_root is None,
            app.logs@.len() == 0,
            app.status@ == "Ready"@,
            app.result_path is None,
            !app.converting,
            app.inv(),
    {
        ConverterApp {
            input_path: None,
            output_root: None,
            logs: Vec::new(),
            status: String::from_str("Ready"),
            result_path: None,
            converting: false,
        }
    }
}

} // verus!
