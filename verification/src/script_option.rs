//! How a script takes its input and how it is started.

use vstd::prelude::*;

verus! {

/// The shape of a run's image input.
#[derive(Debug, Clone, Copy, PartialEq, Eq, Structural)]
pub enum ImageInput {
    /// One input file.
    SingleFile,
    /// Two input files.
    TwoFiles,
}

impl ImageInput {
    /// The number of input files.
    pub open spec fn files(self) -> nat {
        match self {
            ImageInput::SingleFile => 1,
            ImageInput::TwoFiles => 2,
        }
    }

    /// The number of input files.
    pub fn file_count(self) -> (n: usize)
        ensures
            n == self.files(),
    {
        match self {
            ImageInput::SingleFile => 1,
            ImageInput::TwoFiles => 2,
        }
    }
}

/// How a script is started.
#[derive(Debug, Clone, PartialEq, Eq)]
pub enum ScriptOption {
    /// The script is the executable.
    DirectExecute,
    /// The script is handed to an interpreter: the interpreter's path, or
    /// `None` for the platform's default name, looked up on the search path.
    PyExecute(Option<String>),
}

/// The interpreter's default name on Windows.
pub const WINDOWS_PYTHON: &'static str = "python.exe";

/// The interpreter's default name elsewhere.
pub const PYTHON: &'static str = "python";

/// The default name of the interpreter on a platform.
pub open spec fn default_interpreter(windows: bool) -> Seq<char> {
    if windows {
        WINDOWS_PYTHON@
    } else {
        PYTHON@
    }
}

impl ScriptOption {
    /// Whether the script is handed to an interpreter.
    pub open spec fn is_interpreted(self) -> bool {
        self is PyExecute
    }

    /// The executable of a run of `script`: the script itself, or the
    /// interpreter.
    pub open spec fn program(self, script: Seq<char>, windows: bool) -> Seq<char> {
        match self {
            ScriptOption::DirectExecute => script,
            ScriptOption::PyExecute(Some(path)) => path@,
            ScriptOption::PyExecute(None) => default_interpreter(windows),
        }
    }

    /// Whether the script is handed to an interpreter.
    pub fn interpreted(&self) -> (yes: bool)
        ensures
            yes == self.is_interpreted(),
    {
        match self {
            ScriptOption::DirectExecute => false,
            ScriptOption::PyExecute(_) => true,
        }
    }

    /// The executable of a run of `script`.
    pub fn executable(&self, script: &str, windows: bool) -> (program: String)
        ensures
            program@ == self.program(script@, windows),
    {
        match self {
            ScriptOption::DirectExecute => script.to_owned(),
            ScriptOption::PyExecute(Some(path)) => path.clone(),
            ScriptOption::PyExecute(None) => {
                if windows {
                    WINDOWS_PYTHON.to_owned()
                } else {
                    PYTHON.to_owned()
                }
            },
        }
    }
}

} // verus!
