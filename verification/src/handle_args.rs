//! The command line: which file to open, which delimiter to use and how to
//! run, and the models that the editor starts with. Reading the file is
//! left to the caller.

use vstd::prelude::*;
use crate::app_state_model::{start_state, AppStateModel};
use crate::csv_model::{empty_model, load_outcome, CsvDelimiter, CsvModel, FileRead};
use crate::text::same_text;
use crate::utils_model::RunningMode;

verus! {

/// What the command line asked for.
#[derive(Debug)]
pub struct StartOptions {
    pub filename: Option<String>,
    pub delimiter: Option<CsvDelimiter>,
    pub running_mode: RunningMode,
}

/// What a `StartOptions` stands for.
pub ghost struct StartOptionsView {
    pub filename: Option<Seq<char>>,
    pub delimiter: Option<CsvDelimiter>,
    pub running_mode: RunningMode,
}

impl View for StartOptions {
    type V = StartOptionsView;

    open spec fn view(&self) -> StartOptionsView {
        StartOptionsView {
            filename: match self.filename {
                Some(name) => Some(name@),
                None => None,
            },
            delimiter: self.delimiter,
            running_mode: self.running_mode,
        }
    }
}

/// The delimiter that `arg` names, in its short or its long form.
pub open spec fn delimiter_flag(arg: Seq<char>) -> Option<CsvDelimiter> {
    if arg == "-c"@ || arg == "--comma"@ {
        Some(CsvDelimiter::Comma)
    } else if arg == "-t"@ || arg == "--tab"@ {
        Some(CsvDelimiter::Tab)
    } else if arg == "-sc"@ || arg == "--semicolon"@ {
        Some(CsvDelimiter::Semicolon)
    } else if arg == "-s"@ || arg == "--space"@ {
        Some(CsvDelimiter::Space)
    } else {
        None
    }
}

/// The options after the first `n` arguments were looked at, each in turn.
/// A file flag takes the argument after it as the name, or takes the name
/// away where it is the last argument; that argument is then looked at like
/// any other. Of several flags of one kind the last one counts.
pub open spec fn options_after(args: Seq<Seq<char>>, n: nat) -> StartOptionsView
    decreases n,
{
    if n == 0 {
        StartOptionsView { filename: None, delimiter: None, running_mode: RunningMode::Normal }
    } else {
        let before = options_after(args, (n - 1) as nat);
        let arg = args[n - 1];
        if arg == "-f"@ || arg == "--filename"@ {
            StartOptionsView {
                filename: if n < args.len() {
                    Some(args[n as int])
                } else {
                    None
                },
                ..before
            }
        } else if delimiter_flag(arg) is Some {
            StartOptionsView { delimiter: delimiter_flag(arg), ..before }
        } else if arg == "-d"@ || arg == "--debug"@ {
            StartOptionsView { running_mode: RunningMode::Debug, ..before }
        } else if arg == "-h"@ || arg == "--help"@ {
            StartOptionsView { running_mode: RunningMode::Help, ..before }
        } else {
            before
        }
    }
}

/// The delimiter that `arg` names, if it names one.
pub fn read_delimiter_flag(arg: &str) -> (delimiter: Option<CsvDelimiter>)
    ensures
        delimiter == delimiter_flag(arg@),
{
    if same_text(arg, "-c") || same_text(arg, "--comma") {
        Some(CsvDelimiter::Comma)
    } else if same_text(arg, "-t") || same_text(arg, "--tab") {
        Some(CsvDelimiter::Tab)
    } else if same_text(arg, "-sc") || same_text(arg, "--semicolon") {
        Some(CsvDelimiter::Semicolon)
    } else if same_text(arg, "-s") || same_text(arg, "--space") {
        Some(CsvDelimiter::Space)
    } else {
        None
    }
}

/// Reads the command line.
pub fn handle_input_args(args: &Vec<String>) -> (options: StartOptions)
    ensures
        options@ == options_after(args.deep_view(), args.len() as nat),
{
    let mut options = StartOptions {
        filename: None,
        delimiter: None,
        running_mode: RunningMode::Normal,
    };
    let mut index: usize = 0;
    while index < args.len()
        invariant
            index <= args.len(),
            options@ == options_after(args.deep_view(), index as nat),
        decreases args.len() - index,
    {
        let arg = args[index].as_str();
        assert(arg@ == args.deep_view()[index as int]);
        if same_text(arg, "-f") || same_text(arg, "--filename") {
            if index + 1 < args.len() {
                options.filename = Some(args[index + 1].clone());
                assert(args[index + 1]@ == args.deep_view()[index + 1]);
            } else {
                options.filename = None;
            }
        } else {
            let delimiter = read_delimiter_flag(arg);
            if delimiter.is_some() {
                options.delimiter = delimiter;
            } else if same_text(arg, "-d") || same_text(arg, "--debug") {
                options.running_mode = RunningMode::Debug;
            } else if same_text(arg, "-h") || same_text(arg, "--help") {
                options.running_mode = RunningMode::Help;
            }
        }
        index += 1;
    }
    options
}

/// The delimiter to work with: the one asked for, else the comma.
pub open spec fn chosen_delimiter(delimiter: Option<CsvDelimiter>) -> CsvDelimiter {
    match delimiter {
        Some(d) => d,
        None => CsvDelimiter::Comma,
    }
}

/// What is said when the file cannot be loaded.
pub open spec fn load_failure_message(delimiter_given: bool) -> Seq<char> {
    if delimiter_given {
        "Error - Unable to load CSV with defined delimiter."@
    } else {
        "Error - Unable to load CSV"@
    }
}

/// The two models the editor starts with. Where a file was named, `file`
/// is what came of reading it, and the grid is loaded from it with the
/// chosen delimiter; a failure to load is told in words. Where no file was
/// named, `file` is passed over and the grid is empty.
pub fn build_models(options: StartOptions, file: FileRead) -> (res: Result<
    (CsvModel, AppStateModel),
    &'static str,
>)
    ensures
        match options@.filename {
            Some(name) => match load_outcome(name, file, chosen_delimiter(options.delimiter)) {
                Ok(model) => res is Ok && res->Ok_0.0@ == model && res->Ok_0.1@ == start_state(
                    options.running_mode,
                ),
                Err(_) => res is Err && res->Err_0@ == load_failure_message(
                    options.delimiter is Some,
                ),
            },
            None => res is Ok && res->Ok_0.0@ == empty_model(chosen_delimiter(options.delimiter))
                && res->Ok_0.1@ == start_state(options.running_mode),
        },
{
    let delimiter = match options.delimiter {
        Some(d) => d,
        None => CsvDelimiter::Comma,
    };
    let app_data = match options.filename {
        Some(fname) => match CsvModel::load_file(fname, file, &delimiter) {
            Ok(app) => app,
            Err(_) => {
                if options.delimiter.is_some() {
                    return Err("Error - Unable to load CSV with defined delimiter.");
                } else {
                    return Err("Error - Unable to load CSV");
                }
            },
        },
        None => CsvModel::default_with_delimiter(&delimiter),
    };
    Ok((app_data, AppStateModel::from_running_mode(&options.running_mode)))
}

} // verus!
