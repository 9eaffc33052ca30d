use vstd::prelude::*;
use vstd::string::*;
use crate::args::{UsageError, opt_text};

verus! {

/// Why a run ends with exit status 1.
#[derive(Debug, Clone, PartialEq, Eq)]
pub enum Failure {
    Usage(UsageError),
    /// Standard input could not be read; the reader's message.
    ReadInput(String),
    /// The configuration file could not be read or parsed: its path and the
    /// underlying message.
    LoadConfig(String, String),
    /// The engine refused the text; its message.
    Format(String),
}

pub open spec fn message_spec(f: Failure) -> Seq<char> {
    match f {
        Failure::Usage(UsageError::MissingPath) => "Error: --config-file requires a path argument"@,
        Failure::Usage(UsageError::Unknown(a)) => "Unknown argument: "@ + a@,
        Failure::ReadInput(d) => "Error reading from stdin: "@ + d@,
        Failure::LoadConfig(p, d) => "Error loading config file '"@ + p@ + "': "@ + d@,
        Failure::Format(d) => "Error formatting code: "@ + d@,
    }
}

impl Failure {
    /// The one-line message for standard error.
    pub fn message(&self) -> (r: String)
        ensures
            r@ == message_spec(*self),
    {
        match self {
            Failure::Usage(UsageError::MissingPath) => String::from_str(
                "Error: --config-file requires a path argument",
            ),
            Failure::Usage(UsageError::Unknown(a)) => {
                let mut s = String::from_str("Unknown argument: ");
                s.append(a.as_str());
                s
            },
            Failure::ReadInput(d) => {
                let mut s = String::from_str("Error reading from stdin: ");
                s.append(d.as_str());
                s
            },
            Failure::LoadConfig(p, d) => {
                let mut s = String::from_str("Error loading config file '");
                s.append(p.as_str());
                s.append("': ");
                s.append(d.as_str());
                s
            },
            Failure::Format(d) => {
                let mut s = String::from_str("Error formatting code: ");
                s.append(d.as_str());
                s
            },
        }
    }

    /// An unknown flag is followed by the usage text.
    pub fn shows_usage(&self) -> (r: bool)
        ensures
            r == (*self is Usage && self->Usage_0 is Unknown),
    {
        match self {
            Failure::Usage(UsageError::Unknown(_)) => true,
            _ => false,
        }
    }
}

/// What is printed for an engine outcome: the new text, or the source as it was when
/// nothing changed.
pub open spec fn printed(source: Seq<char>, outcome: Option<Seq<char>>) -> Seq<char> {
    match outcome {
        Some(t) => t,
        None => source,
    }
}

/// Turns the engine's outcome into the text for standard output, or the
/// failure to report.
pub fn reply_for(source: String, outcome: Result<Option<String>, String>) -> (r: Result<
    String,
    Failure,
>)
    ensures
        match outcome {
            Ok(o) => r is Ok && r->Ok_0@ == printed(source@, opt_text(o)),
            Err(e) => r == Err::<String, Failure>(Failure::Format(e)),
        },
{
    match outcome {
        Ok(Some(t)) => Ok(t),
        Ok(None) => Ok(source),
        Err(e) => Err(Failure::Format(e)),
    }
}

pub open spec fn usage_spec(program: Seq<char>) -> Seq<char> {
    "Usage: "@ + program + " [OPTIONS] [<code>]\n\n"@
        + "Format JavaScript/TypeScript code. Reads from stdin if no code argument provided.\n\n"@
        + "OPTIONS:\n"@ + "  -c, --config-file <PATH>    Load configuration from dprint.json file\n"@
        + "  -h, --help                  Show this help message\n\n"@ + "Examples:\n"@ + "  "@
        + program + " 'if(x)console.log(\"hi\");'\n"@ + "  cat file.js | "@ + program
        + " --config-file dprint.json\n"@ + "  "@ + program
        + " --config-file dprint.json < input.js > output.js\n"@
}

/// The usage text, naming the program as it was invoked.
pub fn usage_text(program: &str) -> (r: String)
    ensures
        r@ == usage_spec(program@),
{
    let mut s = String::from_str("Usage: ");
    s.append(program);
    s.append(" [OPTIONS] [<code>]\n\n");
    s.append("Format JavaScript/TypeScript code. Reads from stdin if no code argument provided.\n\n");
    s.append("OPTIONS:\n");
    s.append("  -c, --config-file <PATH>    Load configuration from dprint.json file\n");
    s.append("  -h, --help                  Show this help message\n\n");
    s.append("Examples:\n");
    s.append("  ");
    s.append(program);
    s.append(" 'if(x)console.log(\"hi\");'\n");
    s.append("  cat file.js | ");
    s.append(program);
    s.append(" --config-file dprint.json\n");
    s.append("  ");
    s.append(program);
    s.append(" --config-file dprint.json < input.js > output.js\n");
    s
}

} // verus!
