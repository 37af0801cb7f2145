use vstd::prelude::*;
use vstd::string::StringExecFns;

verus! {

/// The input name that stands for standard input.
pub open spec fn stdin_name() -> Seq<char> {
    seq!['-']
}

/// Why a configuration was refused.
#[derive(Debug, Clone, Copy, PartialEq, Eq, Structural)]
pub enum ConfigError {
    /// Numbering of all lines and numbering of non-blank lines were both asked for.
    ConflictingNumbering,
}

/// What a configuration holds, as plain values.
pub struct ConfigModel {
    pub files: Seq<Seq<char>>,
    pub number_lines: bool,
    pub number_nonblank_lines: bool,
    pub show_ends: bool,
}

impl ConfigModel {
    /// At least one input, and at most one numbering mode.
    pub open spec fn wf(self) -> bool {
        &&& self.files.len() > 0
        &&& !(self.number_lines && self.number_nonblank_lines)
    }
}

/// The settings of one run: the inputs in order and the three flags.
pub struct Config {
    files: Vec<String>,
    number_lines: bool,
    number_nonblank_lines: bool,
    show_ends: bool,
}

impl View for Config {
    type V = ConfigModel;

    closed spec fn view(&self) -> ConfigModel {
        ConfigModel {
            files: self.files@.map_values(|f: String| f@),
            number_lines: self.number_lines,
            number_nonblank_lines: self.number_nonblank_lines,
            show_ends: self.show_ends,
        }
    }
}

/// The inputs that a run reads when it is given `files`: those names in order,
/// or standard input alone when there are none.
pub open spec fn resolved_inputs(files: Seq<Seq<char>>) -> Seq<Seq<char>> {
    if files.len() == 0 {
        seq![stdin_name()]
    } else {
        files
    }
}

impl Config {
    #[verifier::type_invariant]
    pub open spec fn inv(&self) -> bool {
        self@.wf()
    }

    /// Builds the configuration of a run. Asking for both numbering modes is
    /// refused; with no input names, standard input is read.
    pub fn new(files: Vec<String>, number_lines: bool, number_nonblank_lines: bool, show_ends: bool)
        -> (r: Result<Config, ConfigError>)
        ensures
            r is Err <==> number_lines && number_nonblank_lines,
            r is Err ==> r == Err::<Config, ConfigError>(ConfigError::ConflictingNumbering),
            r matches Ok(c) ==> {
                &&& c@.files == resolved_inputs(files@.map_values(|f: String| f@))
                &&& c@.number_lines == number_lines
                &&& c@.number_nonblank_lines == number_nonblank_lines
                &&& c@.show_ends == show_ends
                &&& c@.wf()
            },
    {
        if number_lines && number_nonblank_lines {
            return Err(ConfigError::ConflictingNumbering);
        }
        let files = if files.len() == 0 {
            let mut v: Vec<String> = Vec::new();
            proof {
                reveal_strlit("-");
                assert("-"@ =~= stdin_name());
            }
            v.push(String::from_str("-"));
            assert(v@.map_values(|f: String| f@) =~= seq![stdin_name()]);
            v
        } else {
            files
        };
        Ok(Config { files, number_lines, number_nonblank_lines, show_ends })
    }

    /// The input names, in the order they are read.
    pub fn files(&self) -> (r: &Vec<String>)
        ensures
            r@.map_values(|f: String| f@) == self@.files,
    {
        &self.files
    }

    /// Whether every line is numbered.
    pub fn number_lines(&self) -> (r: bool)
        ensures
            r == self@.number_lines,
    {
        self.number_lines
    }

    /// Whether non-blank lines are numbered.
    pub fn number_nonblank_lines(&self) -> (r: bool)
        ensures
            r == self@.number_nonblank_lines,
    {
        self.number_nonblank_lines
    }

    /// Whether each line ends with a visible `$`.
    pub fn show_ends(&self) -> (r: bool)
        ensures
            r == self@.show_ends,
    {
        self.show_ends
    }
}

/// Whether `name` stands for standard input rather than a path.
pub fn is_stdin(name: &String) -> (r: bool)
    ensures
        r == (name@ == stdin_name()),
{
    proof {
        reveal_strlit("-");
        assert("-"@ =~= stdin_name());
    }
    let dash = String::from_str("-");
    name.eq(&dash)
}

} // verus!
