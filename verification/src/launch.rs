//! The command line: which arguments are accepted, and what they start.
use crate::error::{ErrorKind, FlutzError};
use crate::json::optional_text;
use crate::playback::backend::AudioBackend;
use crate::text::{eq_ignoring_ascii_case, ascii_lowered, text_eq, texts, to_ascii_lower};
use vstd::prelude::*;
use vstd::string::*;

verus! {

/// What a run of the program was asked to do.
#[derive(Debug)]
pub enum ParsedCommand {
    Gui,
    Headless,
    Help,
    DebugEnvironment,
    Verify(String),
    InspectDat(Option<String>),
    CheckPlayback(String),
}

/// The arguments of a run.
#[derive(Debug)]
pub struct ParsedArgs {
    pub command: Option<ParsedCommand>,
    pub data_dir: Option<String>,
    pub audio_backend: Option<AudioBackend>,
    pub debug_memory: bool,
    pub debug_latency: bool,
    pub debug_analyzer: bool,
    pub debug_render_errors: bool,
    pub startup_path: Option<String>,
}

/// The contents of a command.
pub ghost enum CommandView {
    Gui,
    Headless,
    Help,
    DebugEnvironment,
    Verify(Seq<char>),
    InspectDat(Option<Seq<char>>),
    CheckPlayback(Seq<char>),
}

/// The contents of arguments.
pub ghost struct ArgsView {
    pub command: Option<CommandView>,
    pub data_dir: Option<Seq<char>>,
    pub audio_backend: Option<AudioBackend>,
    pub debug_memory: bool,
    pub debug_latency: bool,
    pub debug_analyzer: bool,
    pub debug_render_errors: bool,
    pub startup_path: Option<Seq<char>>,
}

impl View for ParsedCommand {
    type V = CommandView;

    open spec fn view(&self) -> CommandView {
        match self {
            ParsedCommand::Gui => CommandView::Gui,
            ParsedCommand::Headless => CommandView::Headless,
            ParsedCommand::Help => CommandView::Help,
            ParsedCommand::DebugEnvironment => CommandView::DebugEnvironment,
            ParsedCommand::Verify(path) => CommandView::Verify(path@),
            ParsedCommand::InspectDat(path) => CommandView::InspectDat(optional_text(*path)),
            ParsedCommand::CheckPlayback(path) => CommandView::CheckPlayback(path@),
        }
    }
}

impl View for ParsedArgs {
    type V = ArgsView;

    open spec fn view(&self) -> ArgsView {
        ArgsView {
            command: match self.command {
                Some(command) => Some(command@),
                None => None,
            },
            data_dir: optional_text(self.data_dir),
            audio_backend: self.audio_backend,
            debug_memory: self.debug_memory,
            debug_latency: self.debug_latency,
            debug_analyzer: self.debug_analyzer,
            debug_render_errors: self.debug_render_errors,
            startup_path: optional_text(self.startup_path),
        }
    }
}

/// The folder that holds the data folder: the one of the program, or else the current one.
pub fn default_data_dir(exe_parent: Option<&str>, current: Option<&str>) -> (base: String)
    ensures
        base@ == (match exe_parent {
            Some(folder) => folder@,
            None => match current {
                Some(folder) => folder@,
                None => "."@,
            },
        }),
{
    match exe_parent {
        Some(folder) => folder.to_owned(),
        None => match current {
            Some(folder) => folder.to_owned(),
            None => ".".to_owned(),
        },
    }
}

/// No argument given.
pub open spec fn no_args() -> ArgsView {
    ArgsView {
        command: None,
        data_dir: None,
        audio_backend: None,
        debug_memory: false,
        debug_latency: false,
        debug_analyzer: false,
        debug_render_errors: false,
        startup_path: None,
    }
}

/// Why arguments are refused.
pub ghost enum ArgError {
    NoDataDir,
    NoBackend,
    NoVerifyPath,
    NoPlaybackPath,
    SecondCommand,
    SecondStartupFile,
    Unknown(Seq<char>),
}

/// The text printed by `--help`, for a default data folder.
pub open spec fn help_text(default_data_dir: Seq<char>) -> Seq<char> {
    HELP_HEAD@ + default_data_dir + HELP_TAIL@
}

/// The help text up to the default data folder.
pub const HELP_HEAD: &'static str = "flutzplayer\n\nGUI launch:\n  flutzplayer --gui [project.fmid|song.mid|playlist.fplist] [--data-dir <dat-directory>] [--audio-backend sdl3|wasapi] [--debug-memory] [--debug-latency] [--debug-analyzer] [--debug-render-errors]\n  flutzplayer [project.fmid|song.mid|playlist.fplist]\n\nHeadless/console launch:\n  flutzplayer --headless [--data-dir <dat-directory>]\n\nConsole diagnostics:\n  flutzplayer --verify <file.fmid|file.dat|file.mid>\n  flutzplayer --inspect-dat [file.dat|dat-directory]\n  flutzplayer --check-playback <file.fmid|file.mid> [--data-dir <dat-directory>] [--debug-render-errors]\n  flutzplayer --debug-env\n  flutzplayer --help\n\nData files default to a data folder beside the executable:\n  ";

/// The help text behind the default data folder.
pub const HELP_TAIL: &'static str = "\n\nUse --data-dir to point the player at a different DAT data folder. Use --audio-backend or FLUTZ_AUDIO_BACKEND to choose sdl3 or wasapi. Use --debug-memory to enable jemalloc/domain memory snapshots and session log output in debug builds. Use --debug-latency to write sparse latency JSONL in debug builds. Use --debug-analyzer to write spectrum analyzer JSONL under _local/analyzer-trace. Use --debug-render-errors to capture panic-safe render failure traces and MIDI SysEx interpretation detail under _local/render-error-trace in debug-friendly runs. Launch defaults: Explorer/no-terminal starts GUI; terminal/no-args prints this diagnostic surface; a bare project path opens the GUI directly; --headless always prints this diagnostic surface.";

/// The message of a refusal.
pub open spec fn arg_message(error: ArgError, default_data_dir: Seq<char>) -> Seq<char> {
    match error {
        ArgError::NoDataDir => "--data-dir requires a path"@,
        ArgError::NoBackend => "--audio-backend requires sdl3 or wasapi"@,
        ArgError::NoVerifyPath => "--verify requires a path"@,
        ArgError::NoPlaybackPath => "--check-playback requires a MIDI path"@,
        ArgError::SecondCommand => "only one startup command may be provided"@,
        ArgError::SecondStartupFile => "only one startup file may be provided"@,
        ArgError::Unknown(flag) => "unknown flutzplayer argument: "@ + flag + "\n\n"@ + help_text(
            default_data_dir,
        ),
    }
}

/// Whether an argument looks like a flag.
pub open spec fn is_flag(arg: Seq<char>) -> bool {
    arg.len() > 0 && arg[0] == '-'
}

impl ArgsView {
    /// The arguments with a command, of which there may be one.
    pub open spec fn with_command(self, command: CommandView) -> Result<ArgsView, ArgError> {
        if self.command is Some {
            Err(ArgError::SecondCommand)
        } else {
            Ok(ArgsView { command: Some(command), ..self })
        }
    }

    /// The arguments with a startup file, of which there may be one.
    pub open spec fn with_startup_path(self, path: Seq<char>) -> Result<ArgsView, ArgError> {
        if self.startup_path is Some {
            Err(ArgError::SecondStartupFile)
        } else {
            Ok(ArgsView { startup_path: Some(path), ..self })
        }
    }
}

/// The argument behind position `i`, if there is one.
pub open spec fn next_arg(args: Seq<Seq<char>>, i: int) -> Option<Seq<char>> {
    if i + 1 < args.len() {
        Some(args[i + 1])
    } else {
        None
    }
}

/// The path that follows `--inspect-dat`: the next argument unless it looks
/// like a flag.
pub open spec fn inspect_path(args: Seq<Seq<char>>, i: int) -> Option<Seq<char>> {
    match next_arg(args, i) {
        Some(value) => if is_flag(value) {
            None
        } else {
            Some(value)
        },
        None => None,
    }
}

/// What the argument at position `i` adds, and how many arguments it takes up.
pub open spec fn with_arg(args: Seq<Seq<char>>, i: int, parsed: ArgsView) -> Result<
    (ArgsView, int),
    ArgError,
> {
    let arg = args[i];
    if arg == "--data-dir"@ || arg == "--dat-dir"@ {
        match next_arg(args, i) {
            Some(value) => Ok((ArgsView { data_dir: Some(value), ..parsed }, 2)),
            None => Err(ArgError::NoDataDir),
        }
    } else if arg == "--audio-backend"@ {
        match next_arg(args, i) {
            Some(value) => match AudioBackend::named(value) {
                Some(backend) => Ok((ArgsView { audio_backend: Some(backend), ..parsed }, 2)),
                None => Err(ArgError::NoBackend),
            },
            None => Err(ArgError::NoBackend),
        }
    } else if arg == "--debug-memory"@ {
        Ok((ArgsView { debug_memory: true, ..parsed }, 1))
    } else if arg == "--debug-latency"@ {
        Ok((ArgsView { debug_latency: true, ..parsed }, 1))
    } else if arg == "--debug-analyzer"@ {
        Ok((ArgsView { debug_analyzer: true, ..parsed }, 1))
    } else if arg == "--debug-render-errors"@ {
        Ok((ArgsView { debug_render_errors: true, ..parsed }, 1))
    } else if arg == "--gui"@ {
        sized(parsed.with_command(CommandView::Gui), 1)
    } else if arg == "--headless"@ {
        sized(parsed.with_command(CommandView::Headless), 1)
    } else if arg == "--help"@ || arg == "-h"@ {
        sized(parsed.with_command(CommandView::Help), 1)
    } else if arg == "--debug-env"@ {
        sized(parsed.with_command(CommandView::DebugEnvironment), 1)
    } else if arg == "--verify"@ {
        match next_arg(args, i) {
            Some(value) => sized(parsed.with_command(CommandView::Verify(value)), 2),
            None => Err(ArgError::NoVerifyPath),
        }
    } else if arg == "--inspect-dat"@ {
        sized(
            parsed.with_command(CommandView::InspectDat(inspect_path(args, i))),
            if inspect_path(args, i) is Some {
                2
            } else {
                1
            },
        )
    } else if arg == "--check-playback"@ {
        match next_arg(args, i) {
            Some(value) => sized(parsed.with_command(CommandView::CheckPlayback(value)), 2),
            None => Err(ArgError::NoPlaybackPath),
        }
    } else if is_flag(arg) {
        Err(ArgError::Unknown(arg))
    } else {
        sized(parsed.with_startup_path(arg), 1)
    }
}

/// A result together with a number of arguments.
pub open spec fn sized(parsed: Result<ArgsView, ArgError>, width: int) -> Result<
    (ArgsView, int),
    ArgError,
> {
    match parsed {
        Ok(view) => Ok((view, width)),
        Err(error) => Err(error),
    }
}

/// The arguments from position `i` on, added to those before.
pub open spec fn args_from(args: Seq<Seq<char>>, i: int, parsed: ArgsView) -> Result<
    ArgsView,
    ArgError,
>
    decreases args.len() - i,
{
    if i >= args.len() {
        Ok(parsed)
    } else {
        match with_arg(args, i, parsed) {
            Ok((next, width)) => args_from(args, i + width, next),
            Err(error) => Err(error),
        }
    }
}

/// The text printed by `--help`, for a default data folder.
pub fn tool_help(default_data_dir: &str) -> (text: String)
    ensures
        text@ == help_text(default_data_dir@),
{
    let mut text = HELP_HEAD.to_owned();
    text.append(default_data_dir);
    text.append(HELP_TAIL);
    text
}

fn starts_like_flag(arg: &str) -> (flag: bool)
    ensures
        flag == is_flag(arg@),
{
    !arg.is_empty() && arg.get_char(0) == '-'
}

fn clone_arg(args: &[String], i: usize) -> (value: Option<String>)
    ensures
        optional_text(value) == (if i < args@.len() {
            Some(texts(args@)[i as int])
        } else {
            None
        }),
{
    if i < args.len() {
        Some(args[i].clone())
    } else {
        None
    }
}

fn invalid(message: &str) -> (error: FlutzError)
    ensures
        error@ == (ErrorKind::InvalidInput, message@),
{
    FlutzError::InvalidInput(message.to_owned())
}

impl ParsedArgs {
    fn empty() -> (parsed: ParsedArgs)
        ensures
            parsed@ == no_args(),
    {
        ParsedArgs {
            command: None,
            data_dir: None,
            audio_backend: None,
            debug_memory: false,
            debug_latency: false,
            debug_analyzer: false,
            debug_render_errors: false,
            startup_path: None,
        }
    }

    /// Sets the command, of which there may be one.
    pub fn set_command(&mut self, command: ParsedCommand) -> (set: Result<(), FlutzError>)
        ensures
            match old(self)@.with_command(command@) {
                Ok(view) => set is Ok && final(self)@ == view,
                Err(_) => set is Err && set->Err_0@ == (
                    ErrorKind::InvalidInput,
                    "only one startup command may be provided"@,
                ) && *final(self) == *old(self),
            },
    {
        if self.command.is_some() {
            return Err(invalid("only one startup command may be provided"));
        }
        self.command = Some(command);
        Ok(())
    }

    /// Sets the startup file, of which there may be one.
    pub fn set_startup_path(&mut self, path: String) -> (set: Result<(), FlutzError>)
        ensures
            match old(self)@.with_startup_path(path@) {
                Ok(view) => set is Ok && final(self)@ == view,
                Err(_) => set is Err && set->Err_0@ == (
                    ErrorKind::InvalidInput,
                    "only one startup file may be provided"@,
                ) && *final(self) == *old(self),
            },
    {
        if self.startup_path.is_some() {
            return Err(invalid("only one startup file may be provided"));
        }
        self.startup_path = Some(path);
        Ok(())
    }

    /// Parses the arguments. `default_data_dir` is shown where an argument is
    /// not known.
    pub fn parse(args: &[String], default_data_dir: &str) -> (parsed: Result<ParsedArgs, FlutzError>)
        ensures
            match args_from(texts(args@), 0, no_args()) {
                Ok(view) => parsed is Ok && parsed->Ok_0@ == view,
                Err(error) => parsed is Err && parsed->Err_0@ == (
                    ErrorKind::InvalidInput,
                    arg_message(error, default_data_dir@),
                ),
            },
    {
        let ghost all = texts(args@);
        let mut parsed = ParsedArgs::empty();
        let mut index: usize = 0;
        while index < args.len()
            invariant
                index <= args@.len(),
                all == texts(args@),
                args_from(all, 0, no_args()) == args_from(all, index as int, parsed@),
            decreases args@.len() - index,
        {
            let arg = args[index].as_str();
            assert(arg@ == all[index as int]);
            let ghost before = parsed@;
            let mut width: usize = 1;
            let next = clone_arg(args, index + 1);
            if text_eq(arg, "--data-dir") || text_eq(arg, "--dat-dir") {
                width = 2;
                match next {
                    Some(value) => {
                        parsed.data_dir = Some(value);
                    },
                    None => {
                        return Err(invalid("--data-dir requires a path"));
                    },
                }
            } else if text_eq(arg, "--audio-backend") {
                width = 2;
                match next {
                    Some(value) => match AudioBackend::parse(value.as_str()) {
                        Ok(backend) => {
                            parsed.audio_backend = Some(backend);
                        },
                        Err(error) => {
                            return Err(error);
                        },
                    },
                    None => {
                        return Err(invalid("--audio-backend requires sdl3 or wasapi"));
                    },
                }
            } else if text_eq(arg, "--debug-memory") {
                parsed.debug_memory = true;
            } else if text_eq(arg, "--debug-latency") {
                parsed.debug_latency = true;
            } else if text_eq(arg, "--debug-analyzer") {
                parsed.debug_analyzer = true;
            } else if text_eq(arg, "--debug-render-errors") {
                parsed.debug_render_errors = true;
            } else {
                let set = if text_eq(arg, "--gui") {
                    parsed.set_command(ParsedCommand::Gui)
                } else if text_eq(arg, "--headless") {
                    parsed.set_command(ParsedCommand::Headless)
                } else if text_eq(arg, "--help") || text_eq(arg, "-h") {
                    parsed.set_command(ParsedCommand::Help)
                } else if text_eq(arg, "--debug-env") {
                    parsed.set_command(ParsedCommand::DebugEnvironment)
                } else if text_eq(arg, "--verify") {
                    width = 2;
                    match next {
                        Some(value) => parsed.set_command(ParsedCommand::Verify(value)),
                        None => Err(invalid("--verify requires a path")),
                    }
                } else if text_eq(arg, "--inspect-dat") {
                    let path = match next {
                        Some(value) => if starts_like_flag(value.as_str()) {
                            None
                        } else {
                            Some(value)
                        },
                        None => None,
                    };
                    if path.is_some() {
                        width = 2;
                    }
                    parsed.set_command(ParsedCommand::InspectDat(path))
                } else if text_eq(arg, "--check-playback") {
                    width = 2;
                    match next {
                        Some(value) => parsed.set_command(ParsedCommand::CheckPlayback(value)),
                        None => Err(invalid("--check-playback requires a MIDI path")),
                    }
                } else if starts_like_flag(arg) {
                    let mut message = "unknown flutzplayer argument: ".to_owned();
                    message.append(arg);
                    message.append("\n\n");
                    message.append(tool_help(default_data_dir).as_str());
                    assert(message@ =~= arg_message(ArgError::Unknown(arg@), default_data_dir@));
                    Err(FlutzError::InvalidInput(message))
                } else {
                    parsed.set_startup_path(args[index].clone())
                };
                match set {
                    Ok(()) => {},
                    Err(error) => {
                        return Err(error);
                    },
                }
            }
            assert(with_arg(all, index as int, before) == Ok::<(ArgsView, int), ArgError>(
                (parsed@, width as int),
            ));
            index = index + width;
        }
        Ok(parsed)
    }
}

/// The command that is set first stands: what follows keeps it or is refused.
/// The same holds of the startup file.
pub proof fn first_command_and_file_stand(args: Seq<Seq<char>>, i: int, parsed: ArgsView)
    requires
        0 <= i <= args.len(),
    ensures
        match args_from(args, i, parsed) {
            Ok(after) => {
                &&& parsed.command is Some ==> after.command == parsed.command
                &&& parsed.startup_path is Some ==> after.startup_path == parsed.startup_path
                &&& parsed.debug_memory ==> after.debug_memory
                &&& parsed.debug_latency ==> after.debug_latency
                &&& parsed.debug_analyzer ==> after.debug_analyzer
                &&& parsed.debug_render_errors ==> after.debug_render_errors
            },
            Err(_) => true,
        },
    decreases args.len() - i,
{
    if i < args.len() {
        match with_arg(args, i, parsed) {
            Ok((next, width)) => {
                first_command_and_file_stand(args, i + width, next);
            },
            Err(_) => {},
        }
    }
}

/// The settings with which the user interface starts.
#[derive(Debug)]
pub struct GuiLaunch {
    pub data_dir: String,
    pub audio_backend: AudioBackend,
    pub debug_memory: bool,
    pub debug_latency: bool,
    pub debug_analyzer: bool,
    pub debug_render_errors: bool,
    pub launch_open_path: Option<String>,
}

/// A console tool and what it works on.
#[derive(Debug)]
pub enum ToolCommand {
    Help(String),
    DebugEnvironment(String),
    Verify(String),
    InspectDat(String),
    CheckPlayback { data_dir: String, midi_path: String, debug_render_errors: bool },
}

/// What a run starts.
#[derive(Debug)]
pub enum LaunchMode {
    Gui(GuiLaunch),
    Tool(ToolCommand),
}

/// The contents of a tool command.
pub ghost enum ToolView {
    Help(Seq<char>),
    DebugEnvironment(Seq<char>),
    Verify(Seq<char>),
    InspectDat(Seq<char>),
    CheckPlayback(Seq<char>, Seq<char>, bool),
}

/// The contents of the settings of the user interface.
pub ghost struct GuiView {
    pub data_dir: Seq<char>,
    pub audio_backend: AudioBackend,
    pub debug_memory: bool,
    pub debug_latency: bool,
    pub debug_analyzer: bool,
    pub debug_render_errors: bool,
    pub launch_open_path: Option<Seq<char>>,
}

/// The contents of a launch mode.
pub ghost enum LaunchView {
    Gui(GuiView),
    Tool(ToolView),
}

impl View for LaunchMode {
    type V = LaunchView;

    open spec fn view(&self) -> LaunchView {
        match self {
            LaunchMode::Gui(gui) => LaunchView::Gui(
                GuiView {
                    data_dir: gui.data_dir@,
                    audio_backend: gui.audio_backend,
                    debug_memory: gui.debug_memory,
                    debug_latency: gui.debug_latency,
                    debug_analyzer: gui.debug_analyzer,
                    debug_render_errors: gui.debug_render_errors,
                    launch_open_path: optional_text(gui.launch_open_path),
                },
            ),
            LaunchMode::Tool(tool) => LaunchView::Tool(
                match tool {
                    ToolCommand::Help(dir) => ToolView::Help(dir@),
                    ToolCommand::DebugEnvironment(dir) => ToolView::DebugEnvironment(dir@),
                    ToolCommand::Verify(path) => ToolView::Verify(path@),
                    ToolCommand::InspectDat(path) => ToolView::InspectDat(path@),
                    ToolCommand::CheckPlayback {
                        data_dir,
                        midi_path,
                        debug_render_errors,
                    } => ToolView::CheckPlayback(data_dir@, midi_path@, *debug_render_errors),
                },
            ),
        }
    }
}

/// The flag of a command that starts a tool.
pub open spec fn command_flag(command: CommandView) -> Seq<char> {
    match command {
        CommandView::Gui => "--gui"@,
        CommandView::Headless => "--headless"@,
        CommandView::Help => "--help"@,
        CommandView::DebugEnvironment => "--debug-env"@,
        CommandView::Verify(_) => "--verify"@,
        CommandView::InspectDat(_) => "--inspect-dat"@,
        CommandView::CheckPlayback(_) => "--check-playback"@,
    }
}

/// The data folder of a run.
pub open spec fn data_dir_of(args: ArgsView, default_data_dir: Seq<char>) -> Seq<char> {
    match args.data_dir {
        Some(dir) => dir,
        None => default_data_dir,
    }
}

/// The tool that a command starts.
pub open spec fn tool_of(args: ArgsView, command: CommandView, data_dir: Seq<char>) -> ToolView {
    match command {
        CommandView::DebugEnvironment => ToolView::DebugEnvironment(data_dir),
        CommandView::Verify(path) => ToolView::Verify(path),
        CommandView::InspectDat(path) => ToolView::InspectDat(
            match path {
                Some(path) => path,
                None => data_dir,
            },
        ),
        CommandView::CheckPlayback(path) => ToolView::CheckPlayback(
            data_dir,
            path,
            args.debug_render_errors,
        ),
        _ => ToolView::Help(data_dir),
    }
}

/// What a run starts: the user interface if it is asked for, if there is a
/// startup file, or if there is no command outside a terminal; else a tool, which
/// takes no startup file.
pub open spec fn launch_of(
    args: ArgsView,
    backend: AudioBackend,
    terminal: bool,
    default_data_dir: Seq<char>,
) -> Result<LaunchView, Seq<char>> {
    let data_dir = data_dir_of(args, default_data_dir);
    let gui = LaunchView::Gui(
        GuiView {
            data_dir,
            audio_backend: backend,
            debug_memory: args.debug_memory,
            debug_latency: args.debug_latency,
            debug_analyzer: args.debug_analyzer,
            debug_render_errors: args.debug_render_errors,
            launch_open_path: args.startup_path,
        },
    );
    match args.command {
        None => if args.startup_path is None && terminal {
            Ok(LaunchView::Tool(ToolView::Help(data_dir)))
        } else {
            Ok(gui)
        },
        Some(command) => if command is Gui {
            Ok(gui)
        } else {
            match args.startup_path {
                Some(path) => Err(
                    command_flag(command) + " does not accept a startup file: "@ + path,
                ),
                None => Ok(LaunchView::Tool(tool_of(args, command, data_dir))),
            }
        },
    }
}

/// The backend of a run: the one of the arguments, else the one of the
/// environment, else the default.
pub open spec fn backend_of(
    args: ArgsView,
    environment: Option<Seq<char>>,
) -> Option<AudioBackend> {
    match args.audio_backend {
        Some(backend) => Some(backend),
        None => match environment {
            None => Some(AudioBackend::Sdl3),
            Some(value) => AudioBackend::named(value),
        },
    }
}

/// Refuses a startup file for a command.
pub fn reject_startup_path(startup_path: &Option<String>, command: &str) -> (accepted: Result<
    (),
    FlutzError,
>)
    ensures
        match *startup_path {
            None => accepted is Ok,
            Some(path) => accepted is Err && accepted->Err_0@ == (
                ErrorKind::InvalidInput,
                command@ + " does not accept a startup file: "@ + path@,
            ),
        },
{
    match startup_path {
        Some(path) => {
            let mut message = command.to_owned();
            message.append(" does not accept a startup file: ");
            message.append(path.as_str());
            Err(FlutzError::InvalidInput(message))
        },
        None => Ok(()),
    }
}

/// The backend that the environment asks for, if it asks for one.
pub fn audio_backend_from_env(value: Option<&str>) -> (backend: Result<
    Option<AudioBackend>,
    FlutzError,
>)
    ensures
        match value {
            None => backend == Ok::<Option<AudioBackend>, FlutzError>(None),
            Some(text) => match AudioBackend::named(text@) {
                Some(named) => backend == Ok::<Option<AudioBackend>, FlutzError>(Some(named)),
                None => backend is Err && backend->Err_0@ == (
                    ErrorKind::InvalidInput,
                    "--audio-backend requires sdl3 or wasapi"@,
                ),
            },
        },
{
    match value {
        None => Ok(None),
        Some(text) => match AudioBackend::parse(text) {
            Ok(backend) => Ok(Some(backend)),
            Err(error) => Err(error),
        },
    }
}

impl LaunchMode {
    /// Decides what a run starts, from its arguments, whether it was launched
    /// from a terminal, the audio backend that the environment asks for and the
    /// default data folder.
    pub fn parse(
        args: &[String],
        launched_from_terminal: bool,
        backend_environment: Option<&str>,
        default_data_dir: &str,
    ) -> (mode: Result<LaunchMode, FlutzError>)
        ensures
            match args_from(texts(args@), 0, no_args()) {
                Err(error) => mode is Err && mode->Err_0@ == (
                    ErrorKind::InvalidInput,
                    arg_message(error, default_data_dir@),
                ),
                Ok(parsed) => match backend_of(
                    parsed,
                    match backend_environment {
                        Some(value) => Some(value@),
                        None => None,
                    },
                ) {
                    None => mode is Err && mode->Err_0@ == (
                        ErrorKind::InvalidInput,
                        "--audio-backend requires sdl3 or wasapi"@,
                    ),
                    Some(backend) => match launch_of(
                        parsed,
                        backend,
                        launched_from_terminal,
                        default_data_dir@,
                    ) {
                        Ok(launch) => mode is Ok && mode->Ok_0@ == launch,
                        Err(message) => mode is Err && mode->Err_0@ == (
                            ErrorKind::InvalidInput,
                            message,
                        ),
                    },
                },
            },
    {
        let parsed = match ParsedArgs::parse(args, default_data_dir) {
            Ok(parsed) => parsed,
            Err(error) => {
                return Err(error);
            },
        };
        let data_dir = match parsed.data_dir {
            Some(dir) => dir,
            None => default_data_dir.to_owned(),
        };
        let audio_backend = match parsed.audio_backend {
            Some(backend) => backend,
            None => match audio_backend_from_env(backend_environment) {
                Ok(backend) => backend.unwrap_or(AudioBackend::Sdl3),
                Err(error) => {
                    return Err(error);
                },
            },
        };
        let (flag, tool) = match parsed.command {
            None => {
                if parsed.startup_path.is_none() && launched_from_terminal {
                    return Ok(LaunchMode::Tool(ToolCommand::Help(data_dir)));
                }
                return Ok(
                    LaunchMode::Gui(
                        GuiLaunch {
                            data_dir,
                            audio_backend,
                            debug_memory: parsed.debug_memory,
                            debug_latency: parsed.debug_latency,
                            debug_analyzer: parsed.debug_analyzer,
                            debug_render_errors: parsed.debug_render_errors,
                            launch_open_path: parsed.startup_path,
                        },
                    ),
                );
            },
            Some(ParsedCommand::Gui) => {
                return Ok(
                    LaunchMode::Gui(
                        GuiLaunch {
                            data_dir,
                            audio_backend,
                            debug_memory: parsed.debug_memory,
                            debug_latency: parsed.debug_latency,
                            debug_analyzer: parsed.debug_analyzer,
                            debug_render_errors: parsed.debug_render_errors,
                            launch_open_path: parsed.startup_path,
                        },
                    ),
                );
            },
            Some(ParsedCommand::Headless) => ("--headless", ToolCommand::Help(data_dir)),
            Some(ParsedCommand::Help) => ("--help", ToolCommand::Help(data_dir)),
            Some(ParsedCommand::DebugEnvironment) => (
                "--debug-env",
                ToolCommand::DebugEnvironment(data_dir),
            ),
            Some(ParsedCommand::Verify(path)) => ("--verify", ToolCommand::Verify(path)),
            Some(ParsedCommand::InspectDat(path)) => (
                "--inspect-dat",
                ToolCommand::InspectDat(path.unwrap_or(data_dir)),
            ),
            Some(ParsedCommand::CheckPlayback(path)) => (
                "--check-playback",
                ToolCommand::CheckPlayback {
                    data_dir,
                    midi_path: path,
                    debug_render_errors: parsed.debug_render_errors,
                },
            ),
        };
        match reject_startup_path(&parsed.startup_path, flag) {
            Ok(()) => Ok(LaunchMode::Tool(tool)),
            Err(error) => Err(error),
        }
    }
}

/// A run with a startup file opens it in the user interface or is refused; it
/// never starts a tool.
pub proof fn startup_file_never_starts_a_tool(
    args: ArgsView,
    backend: AudioBackend,
    terminal: bool,
    default_data_dir: Seq<char>,
)
    requires
        args.startup_path is Some,
    ensures
        match launch_of(args, backend, terminal, default_data_dir) {
            Ok(LaunchView::Gui(gui)) => gui.launch_open_path == args.startup_path,
            Ok(LaunchView::Tool(_)) => false,
            Err(_) => true,
        },
{
}

/// Outside a terminal a run without arguments starts the user interface; inside
/// one it prints the help.
pub proof fn bare_run_depends_on_the_terminal(default_data_dir: Seq<char>, terminal: bool)
    ensures
        args_from(Seq::<Seq<char>>::empty(), 0, no_args()) == Ok::<ArgsView, ArgError>(no_args()),
        launch_of(no_args(), AudioBackend::Sdl3, true, default_data_dir) == Ok::<
            LaunchView,
            Seq<char>,
        >(LaunchView::Tool(ToolView::Help(default_data_dir))),
        launch_of(no_args(), AudioBackend::Sdl3, false, default_data_dir) is Ok,
        launch_of(no_args(), AudioBackend::Sdl3, false, default_data_dir)->Ok_0 is Gui,
{
}

/// Whether a program name is that of a shell or terminal.
pub open spec fn is_terminal_name(name: Seq<char>) -> bool {
    let lowered = ascii_lowered(name);
    ||| lowered == "cmd.exe"@
    ||| lowered == "powershell.exe"@
    ||| lowered == "pwsh.exe"@
    ||| lowered == "windowsterminal.exe"@
    ||| lowered == "wt.exe"@
    ||| lowered == "conhost.exe"@
    ||| lowered == "bash.exe"@
    ||| lowered == "wsl.exe"@
    ||| lowered == "nushell.exe"@
}

pub fn is_windows_terminal_parent(parent_exe_name: &str) -> (terminal: bool)
    ensures
        terminal == is_terminal_name(parent_exe_name@),
{
    let lowered = to_ascii_lower(parent_exe_name);
    let name = lowered.as_str();
    text_eq(name, "cmd.exe") || text_eq(name, "powershell.exe") || text_eq(name, "pwsh.exe")
        || text_eq(name, "windowsterminal.exe") || text_eq(name, "wt.exe") || text_eq(
        name,
        "conhost.exe",
    ) || text_eq(name, "bash.exe") || text_eq(name, "wsl.exe") || text_eq(name, "nushell.exe")
}

/// Whether a run on Windows was launched from a terminal: its output is one, and
/// its parent is a shell or, where that is unclear, other processes than its
/// parent share the console.
pub open spec fn windows_launch_is_terminal(
    stdio_terminal: bool,
    parent: Option<Seq<char>>,
    console_processes: Option<u32>,
) -> bool {
    stdio_terminal && match parent {
        Some(name) if ascii_lowered(name) == ascii_lowered("explorer.exe"@) => false,
        Some(name) if is_terminal_name(name) => true,
        _ => match console_processes {
            Some(count) => count > 2,
            None => stdio_terminal,
        },
    }
}

pub fn windows_launched_from_terminal(
    stdio_terminal: bool,
    parent: &Option<String>,
    console_processes: Option<u32>,
) -> (terminal: bool)
    ensures
        terminal == windows_launch_is_terminal(
            stdio_terminal,
            optional_text(*parent),
            console_processes,
        ),
{
    if !stdio_terminal {
        return false;
    }
    match parent {
        Some(name) => {
            if eq_ignoring_ascii_case(name.as_str(), "explorer.exe") {
                return false;
            }
            if is_windows_terminal_parent(name.as_str()) {
                return true;
            }
        },
        None => {},
    }
    match console_processes {
        Some(count) => count > 2,
        None => stdio_terminal,
    }
}

/// The text of UTF-16 code units: a pair of surrogates is one character, a
/// surrogate without its partner is the replacement character.
pub open spec fn utf16_text(units: Seq<u16>) -> Seq<char>
    decreases units.len(),
{
    if units.len() == 0 {
        Seq::empty()
    } else if units[0] < 0xD800 || units[0] > 0xDFFF {
        seq![units[0] as char] + utf16_text(units.skip(1))
    } else if units[0] < 0xDC00 && units.len() > 1 && 0xDC00 <= units[1] <= 0xDFFF {
        seq![((units[0] - 0xD800) * 0x400 + (units[1] - 0xDC00) + 0x1_0000) as char] + utf16_text(
            units.skip(2),
        )
    } else {
        seq!['\u{FFFD}'] + utf16_text(units.skip(1))
    }
}

/// Decodes UTF-16 with `String::from_utf16_lossy`.
///
/// Trusted: `String::from_utf16_lossy` decodes the units and puts U+FFFD in the
/// place of invalid data, which for UTF-16 are unpaired surrogates.
#[verifier::external_body]
fn decode_utf16(units: &[u16]) -> (text: String)
    ensures
        text@ == utf16_text(units@),
{
    String::from_utf16_lossy(units)
}

/// The units before the first zero.
pub open spec fn before_zero(units: Seq<u16>) -> Seq<u16>
    decreases units.len(),
{
    if units.len() == 0 || units[0] == 0 {
        Seq::empty()
    } else {
        seq![units[0]] + before_zero(units.skip(1))
    }
}

proof fn lemma_before_zero(units: Seq<u16>, end: int)
    requires
        0 <= end <= units.len(),
        forall|i: int| 0 <= i < end ==> units[i] != 0,
        end < units.len() ==> units[end] == 0,
    ensures
        before_zero(units) == units.take(end),
    decreases end,
{
    if end > 0 {
        lemma_before_zero(units.skip(1), end - 1);
        assert(before_zero(units) =~= units.take(end));
    } else {
        assert(before_zero(units) =~= units.take(end));
    }
}

/// The name in a buffer of UTF-16 units that ends at the first zero.
pub fn windows_utf16_name(buffer: &[u16]) -> (name: String)
    ensures
        name@ == utf16_text(before_zero(buffer@)),
{
    let mut end: usize = 0;
    while end < buffer.len() && buffer[end] != 0
        invariant
            end <= buffer@.len(),
            forall|i: int| 0 <= i < end ==> buffer@[i] != 0,
        decreases buffer@.len() - end,
    {
        end = end + 1;
    }
    proof {
        lemma_before_zero(buffer@, end as int);
        assert(buffer@.subrange(0, end as int) =~= buffer@.take(end as int));
    }
    decode_utf16(vstd::slice::slice_subrange(buffer, 0, end))
}

/// A process of the system: its number, that of the process that started it, and the
/// name of its program in UTF-16 units.
#[derive(Debug)]
pub struct ProcessEntry {
    pub id: u32,
    pub parent_id: u32,
    pub exe_name: Vec<u16>,
}

/// The first process with a number.
pub open spec fn first_process(processes: Seq<ProcessEntry>, id: u32) -> Option<int>
    decreases processes.len(),
{
    if processes.len() == 0 {
        None
    } else {
        match first_process(processes.drop_last(), id) {
            Some(i) => Some(i),
            None => if processes.last().id == id {
                Some(processes.len() - 1)
            } else {
                None
            },
        }
    }
}

proof fn lemma_first_process(processes: Seq<ProcessEntry>, id: u32, i: int)
    requires
        0 <= i < processes.len(),
        processes[i].id == id,
        forall|k: int| 0 <= k < i ==> (#[trigger] processes[k]).id != id,
    ensures
        first_process(processes, id) == Some(i),
    decreases processes.len(),
{
    if i == processes.len() - 1 {
        lemma_no_process(processes.drop_last(), id);
    } else {
        lemma_first_process(processes.drop_last(), id, i);
    }
}

proof fn lemma_no_process(processes: Seq<ProcessEntry>, id: u32)
    requires
        forall|k: int| 0 <= k < processes.len() ==> (#[trigger] processes[k]).id != id,
    ensures
        first_process(processes, id) is None,
    decreases processes.len(),
{
    if processes.len() > 0 {
        assert(processes.last().id != id);
        lemma_no_process(processes.drop_last(), id);
    }
}

fn find_process(processes: &[ProcessEntry], id: u32) -> (position: Option<usize>)
    ensures
        match position {
            Some(i) => i < processes@.len() && first_process(processes@, id) == Some(i as int),
            None => first_process(processes@, id) is None,
        },
{
    let mut i: usize = 0;
    while i < processes.len()
        invariant
            i <= processes@.len(),
            forall|k: int| 0 <= k < i ==> (#[trigger] processes@[k]).id != id,
        decreases processes@.len() - i,
    {
        if processes[i].id == id {
            proof {
                lemma_first_process(processes@, id, i as int);
            }
            return Some(i);
        }
        i = i + 1;
    }
    proof {
        lemma_no_process(processes@, id);
    }
    None
}

/// The name of the program that started a process, if both are listed.
pub fn windows_parent_process_name(processes: &[ProcessEntry], current: u32) -> (name: Option<String>)
    ensures
        match first_process(processes@, current) {
            Some(own) => match first_process(processes@, processes@[own].parent_id) {
                Some(parent) => name is Some && name->Some_0@ == utf16_text(
                    before_zero(processes@[parent].exe_name@),
                ),
                None => name is None,
            },
            None => name is None,
        },
{
    match find_process(processes, current) {
        Some(own) => match find_process(processes, processes[own].parent_id) {
            Some(parent) => Some(windows_utf16_name(processes[parent].exe_name.as_slice())),
            None => None,
        },
        None => None,
    }
}

/// Each flag sets what it is named after and leaves the rest, and those that need a value
/// take the next argument. `args[i]` is the flag.
pub proof fn flags_set_what_they_name(args: Seq<Seq<char>>, i: int, parsed: ArgsView)
    requires
        0 <= i < args.len(),
    ensures
        args[i] == "--debug-memory"@ ==> with_arg(args, i, parsed) == Ok::<
            (ArgsView, int),
            ArgError,
        >((ArgsView { debug_memory: true, ..parsed }, 1)),
        args[i] == "--debug-latency"@ ==> with_arg(args, i, parsed) == Ok::<
            (ArgsView, int),
            ArgError,
        >((ArgsView { debug_latency: true, ..parsed }, 1)),
        args[i] == "--debug-analyzer"@ ==> with_arg(args, i, parsed) == Ok::<
            (ArgsView, int),
            ArgError,
        >((ArgsView { debug_analyzer: true, ..parsed }, 1)),
        args[i] == "--debug-render-errors"@ ==> with_arg(args, i, parsed) == Ok::<
            (ArgsView, int),
            ArgError,
        >((ArgsView { debug_render_errors: true, ..parsed }, 1)),
        (args[i] == "--data-dir"@ || args[i] == "--dat-dir"@) && i + 1 < args.len() ==> with_arg(
            args,
            i,
            parsed,
        ) == Ok::<(ArgsView, int), ArgError>(
            (ArgsView { data_dir: Some(args[i + 1]), ..parsed }, 2),
        ),
        (args[i] == "--data-dir"@ || args[i] == "--audio-backend"@ || args[i] == "--verify"@
            || args[i] == "--check-playback"@) && i + 1 == args.len() ==> with_arg(
            args,
            i,
            parsed,
        ) is Err,
{
    lemma_flags_differ();
}

/// Each command stands for its tool: the first one counts, and a second one is refused.
pub proof fn commands_choose_their_tool(args: Seq<Seq<char>>, i: int, parsed: ArgsView)
    requires
        0 <= i < args.len(),
        parsed.command is None,
    ensures
        ({
            let after = with_arg(args, i, parsed);
            let command = after->Ok_0.0.command;
            &&& args[i] == "--gui"@ ==> after is Ok && command == Some(CommandView::Gui)
                && after->Ok_0.1 == 1
            &&& args[i] == "--headless"@ ==> after is Ok && command == Some(
                CommandView::Headless,
            ) && after->Ok_0.1 == 1
            &&& args[i] == "--help"@ || args[i] == "-h"@ ==> after is Ok && command == Some(
                CommandView::Help,
            ) && after->Ok_0.1 == 1
            &&& args[i] == "--debug-env"@ ==> after is Ok && command == Some(
                CommandView::DebugEnvironment,
            ) && after->Ok_0.1 == 1
            &&& args[i] == "--verify"@ && i + 1 < args.len() ==> after is Ok && command == Some(
                CommandView::Verify(args[i + 1]),
            ) && after->Ok_0.1 == 2
            &&& args[i] == "--check-playback"@ && i + 1 < args.len() ==> after is Ok && command
                == Some(CommandView::CheckPlayback(args[i + 1])) && after->Ok_0.1 == 2
            &&& args[i] == "--inspect-dat"@ && i + 1 < args.len() && args[i + 1].len() > 0
                && args[i + 1][0] != '-' ==> after is Ok && command == Some(
                CommandView::InspectDat(Some(args[i + 1])),
            ) && after->Ok_0.1 == 2
            &&& args[i] == "--inspect-dat"@ && (i + 1 == args.len() || (args[i + 1].len() > 0
                && args[i + 1][0] == '-')) ==> after is Ok && command == Some(
                CommandView::InspectDat(None),
            ) && after->Ok_0.1 == 1
            &&& args[i].len() > 0 && args[i][0] != '-' && parsed.startup_path is None
                ==> after is Ok && after->Ok_0.0.startup_path == Some(args[i]) && command is None
                && after->Ok_0.1 == 1
        }),
{
    lemma_flags_differ();
}

proof fn lemma_flags_differ()
    ensures
        "--data-dir"@.len() == 10 && "--dat-dir"@.len() == 9 && "--audio-backend"@.len() == 15,
        "--debug-memory"@.len() == 14 && "--debug-latency"@.len() == 15,
        "--debug-analyzer"@.len() == 16 && "--debug-render-errors"@.len() == 21,
        "--gui"@.len() == 5 && "--headless"@.len() == 10 && "--help"@.len() == 6,
        "-h"@.len() == 2 && "--debug-env"@.len() == 11 && "--verify"@.len() == 8,
        "--inspect-dat"@.len() == 13 && "--check-playback"@.len() == 16,
        "--data-dir"@[2] == 'd' && "--headless"@[2] == 'h',
        "--audio-backend"@[2] == 'a' && "--debug-latency"@[2] == 'd',
        "--debug-analyzer"@[2] == 'd' && "--check-playback"@[2] == 'c',
        "--data-dir"@[0] == '-' && "--dat-dir"@[0] == '-' && "--audio-backend"@[0] == '-',
        "--debug-memory"@[0] == '-' && "--debug-latency"@[0] == '-',
        "--debug-analyzer"@[0] == '-' && "--debug-render-errors"@[0] == '-',
        "--gui"@[0] == '-' && "--headless"@[0] == '-' && "--help"@[0] == '-',
        "-h"@[0] == '-' && "--debug-env"@[0] == '-' && "--verify"@[0] == '-',
        "--inspect-dat"@[0] == '-' && "--check-playback"@[0] == '-',
{
    reveal_strlit("--data-dir");
    reveal_strlit("--dat-dir");
    reveal_strlit("--audio-backend");
    reveal_strlit("--debug-memory");
    reveal_strlit("--debug-latency");
    reveal_strlit("--debug-analyzer");
    reveal_strlit("--debug-render-errors");
    reveal_strlit("--gui");
    reveal_strlit("--headless");
    reveal_strlit("--help");
    reveal_strlit("-h");
    reveal_strlit("--debug-env");
    reveal_strlit("--verify");
    reveal_strlit("--inspect-dat");
    reveal_strlit("--check-playback");
}

/// The user interface starts with what was asked for: its data folder or the default one,
/// its backend, its debug switches and its file. A tool starts with its own argument and
/// with the data folder.
pub proof fn runs_start_with_what_was_asked_for(
    args: ArgsView,
    backend: AudioBackend,
    terminal: bool,
    default_data_dir: Seq<char>,
)
    ensures
        ({
            let launch = launch_of(args, backend, terminal, default_data_dir);
            let data_dir = if args.data_dir is Some {
                args.data_dir->Some_0
            } else {
                default_data_dir
            };
            &&& launch is Ok && launch->Ok_0 is Gui ==> {
                let gui = launch->Ok_0->Gui_0;
                &&& gui.data_dir == data_dir
                &&& gui.audio_backend == backend
                &&& gui.debug_memory == args.debug_memory
                &&& gui.debug_latency == args.debug_latency
                &&& gui.debug_analyzer == args.debug_analyzer
                &&& gui.debug_render_errors == args.debug_render_errors
                &&& gui.launch_open_path == args.startup_path
            }
            &&& args.command == Some(CommandView::Gui) ==> launch is Ok && launch->Ok_0 is Gui
            &&& args.startup_path is None ==> match args.command {
                Some(CommandView::Verify(path)) => launch is Ok && launch->Ok_0
                    == LaunchView::Tool(ToolView::Verify(path)),
                Some(CommandView::InspectDat(Some(path))) => launch is Ok && launch->Ok_0
                    == LaunchView::Tool(ToolView::InspectDat(path)),
                Some(CommandView::InspectDat(None)) => launch is Ok && launch->Ok_0
                    == LaunchView::Tool(ToolView::InspectDat(data_dir)),
                Some(CommandView::CheckPlayback(path)) => launch is Ok && launch->Ok_0
                    == LaunchView::Tool(
                    ToolView::CheckPlayback(data_dir, path, args.debug_render_errors),
                ),
                Some(CommandView::DebugEnvironment) => launch is Ok && launch->Ok_0
                    == LaunchView::Tool(ToolView::DebugEnvironment(data_dir)),
                Some(CommandView::Help) => launch is Ok && launch->Ok_0 == LaunchView::Tool(
                    ToolView::Help(data_dir),
                ),
                Some(CommandView::Headless) => launch is Ok && launch->Ok_0 == LaunchView::Tool(
                    ToolView::Help(data_dir),
                ),
                _ => launch is Ok,
            }
            &&& args.startup_path is Some && args.command is Some && args.command != Some(
                CommandView::Gui,
            ) ==> launch is Err
        }),
{
}

/// The backend on the command line comes before that of the environment, and SDL3 is taken
/// where neither says anything. One that is not known is refused.
pub proof fn the_command_line_chooses_the_backend(args: ArgsView, environment: Option<Seq<char>>)
    ensures
        args.audio_backend is Some ==> backend_of(args, environment) == args.audio_backend,
        args.audio_backend is None && environment is None ==> backend_of(args, environment)
            == Some(AudioBackend::Sdl3),
        args.audio_backend is None && environment is Some ==> backend_of(args, environment)
            == AudioBackend::named(environment->Some_0),
{
}

/// On Windows a run whose output is no terminal was not launched from one; otherwise the
/// desktop says no and a shell says yes, and where the parent is neither, more than two
/// processes on the console say yes.
pub proof fn windows_launches_are_told_apart(
    parent: Option<Seq<char>>,
    console_processes: Option<u32>,
)
    ensures
        !windows_launch_is_terminal(false, parent, console_processes),
        parent is Some && ascii_lowered(parent->Some_0) == "explorer.exe"@
            ==> !windows_launch_is_terminal(true, parent, console_processes),
        parent is Some && (ascii_lowered(parent->Some_0) == "cmd.exe"@ || ascii_lowered(
            parent->Some_0,
        ) == "powershell.exe"@ || ascii_lowered(parent->Some_0) == "pwsh.exe"@ || ascii_lowered(
            parent->Some_0,
        ) == "windowsterminal.exe"@ || ascii_lowered(parent->Some_0) == "bash.exe"@)
            ==> windows_launch_is_terminal(true, parent, console_processes),
        parent is None && console_processes is Some ==> windows_launch_is_terminal(
            true,
            parent,
            console_processes,
        ) == (console_processes->Some_0 > 2),
        parent is None && console_processes is None ==> windows_launch_is_terminal(
            true,
            parent,
            console_processes,
        ),
{
    reveal_strlit("explorer.exe");
    reveal_strlit("cmd.exe");
    reveal_strlit("powershell.exe");
    reveal_strlit("pwsh.exe");
    reveal_strlit("windowsterminal.exe");
    reveal_strlit("bash.exe");
    assert(ascii_lowered("explorer.exe"@) =~= "explorer.exe"@);
}

/// A name in a buffer ends before its first zero.
pub proof fn names_end_before_a_zero(units: Seq<u16>)
    ensures
        before_zero(units).len() <= units.len(),
        before_zero(units) == units.take(before_zero(units).len() as int),
        before_zero(units).len() < units.len() ==> units[before_zero(units).len() as int] == 0,
        forall|i: int| 0 <= i < before_zero(units).len() ==> (#[trigger] units[i]) != 0,
    decreases units.len(),
{
    if units.len() > 0 && units[0] != 0 {
        let rest = units.skip(1);
        names_end_before_a_zero(rest);
        let found = before_zero(units);
        assert(found =~= units.take(found.len() as int)) by {
            assert forall|i: int| 0 < i < found.len() implies found[i] == units[i] by {
                assert(before_zero(rest)[i - 1] == rest[i - 1]);
            }
        }
        assert forall|i: int| 0 <= i < found.len() implies (#[trigger] units[i]) != 0 by {
            if i > 0 {
                assert(rest[i - 1] == units[i]);
            }
        }
        if found.len() < units.len() {
            assert(rest[found.len() - 1] == units[found.len() as int]);
        }
    } else {
        assert(before_zero(units) =~= units.take(0));
    }
}

/// Names are decoded from UTF-16: a unit stands for itself, two surrogates for one character
/// beyond the first 65536, and a surrogate alone for the replacement character.
pub proof fn units_are_decoded_one_by_one(first: u16, second: u16, rest: Seq<u16>)
    ensures
        utf16_text(Seq::empty()) == Seq::<char>::empty(),
        first < 0xD800 || first >= 0xE000 ==> utf16_text(seq![first] + rest) == seq![
            first as char,
        ] + utf16_text(rest),
        0xD800 <= first < 0xDC00 && 0xDC00 <= second < 0xE000 ==> utf16_text(
            seq![first, second] + rest,
        ) == seq![(0x1_0000 + (first - 0xD800) * 1024 + (second - 0xDC00)) as char] + utf16_text(
            rest,
        ),
        0xDC00 <= first < 0xE000 ==> utf16_text(seq![first] + rest) == seq!['\u{FFFD}']
            + utf16_text(rest),
        0xD800 <= first < 0xDC00 && !(0xDC00 <= second < 0xE000) ==> utf16_text(
            seq![first, second] + rest,
        ) == seq!['\u{FFFD}'] + utf16_text(seq![second] + rest),
{
    assert((seq![first] + rest).skip(1) =~= rest);
    assert((seq![first, second] + rest).skip(2) =~= rest);
    assert((seq![first, second] + rest).skip(1) =~= seq![second] + rest);
}

/// A process is found by its number, the first one of that number.
pub proof fn processes_are_found_by_number(processes: Seq<ProcessEntry>, id: u32)
    ensures
        match first_process(processes, id) {
            Some(i) => {
                &&& 0 <= i < processes.len()
                &&& processes[i].id == id
                &&& forall|k: int| 0 <= k < i ==> (#[trigger] processes[k]).id != id
            },
            None => forall|k: int| 0 <= k < processes.len() ==> (#[trigger] processes[k]).id != id,
        },
    decreases processes.len(),
{
    if processes.len() > 0 {
        let shorter = processes.drop_last();
        processes_are_found_by_number(shorter, id);
        assert forall|k: int| 0 <= k < shorter.len() implies (#[trigger] processes[k])
            == shorter[k] by {
        }
    }
}

} // verus!
