//! What the command line asks for.

use vstd::prelude::*;
use vstd::string::*;

use crate::shim::process::TaskParams;
use crate::text::{decimal, decimal_digits};

verus! {

/// User and group that a program runs for.
pub const DEFAULT_GUEST_UID: u16 = 1000;

pub const DEFAULT_GUEST_GID: u16 = 1000;

/// The command line.
#[derive(Debug)]
pub struct CliArgs {
    /// The program and its arguments.
    pub program_and_arguments: Vec<String>,
    /// Variables for the program, each a name, an equals sign and a value.
    pub environment_variables: Vec<String>,
    /// Whether the program gets the variables of the host as well.
    pub forward_environment_variables: bool,
    /// Whether options that may change are allowed.
    pub unstable: bool,
    /// An archive of files for the program.
    pub initial_files: Option<String>,
    /// Whether the program itself is in the archive.
    pub program_from_tar: bool,
}

/// Why a program cannot be run.
#[derive(Clone, Copy, Debug, PartialEq, Eq, Structural)]
pub enum RunError {
    MissingProgram,
    RelativeGuestPath,
    NoAncestors,
    /// The program itself is where a directory has to be.
    TmpIsNoDirectory,
    /// A string holds a zero byte, the first at this place.
    InteriorNul(usize),
    /// An option needs one that is not there.
    MissingOption,
}

impl RunError {
    /// The error in words.
    pub open spec fn text(self) -> Seq<char> {
        match self {
            RunError::MissingProgram => "missing program path"@,
            RunError::RelativeGuestPath => "--program-from-tar requires an absolute guest path"@,
            RunError::NoAncestors => "program path has no ancestors"@,
            RunError::TmpIsNoDirectory => "/tmp has to be a directory"@,
            RunError::InteriorNul(at) => "nul byte found in provided data at position: "@
                + decimal_digits(at as nat),
            RunError::MissingOption => "a required option was not provided"@,
        }
    }

    /// The error in words.
    pub fn message(self) -> (message: String)
        ensures
            message@ == self.text(),
    {
        match self {
            RunError::MissingProgram => String::from_str("missing program path"),
            RunError::RelativeGuestPath => String::from_str(
                "--program-from-tar requires an absolute guest path",
            ),
            RunError::NoAncestors => String::from_str("program path has no ancestors"),
            RunError::TmpIsNoDirectory => String::from_str("/tmp has to be a directory"),
            RunError::InteriorNul(at) => {
                let mut text = String::from_str("nul byte found in provided data at position: ");
                text.append(decimal(at as u64).as_str());
                text
            },
            RunError::MissingOption => String::from_str("a required option was not provided"),
        }
    }
}

/// Where the program is.
#[derive(Clone, Copy, Debug, PartialEq, Eq, Structural)]
pub enum ProgramSource {
    /// In the archive, at the path as it is given.
    Tar,
    /// On the host, at the path as the host understands it.
    Host,
}

impl CliArgs {
    /// Whether options that need others have them.
    pub open spec fn is_consistent(self) -> bool {
        &&& self.initial_files is Some ==> self.unstable
        &&& self.program_from_tar ==> self.unstable && self.initial_files is Some
    }

    /// The error where an option needs one that is not there.
    pub fn check_options(&self) -> (error: Option<RunError>)
        ensures
            error == if self.is_consistent() {
                None
            } else {
                Some(RunError::MissingOption)
            },
    {
        if (self.initial_files.is_some() && !self.unstable) || (self.program_from_tar && !(
        self.unstable && self.initial_files.is_some())) {
            Some(RunError::MissingOption)
        } else {
            None
        }
    }

    /// Where the program is, unless the command line does not say so.
    pub open spec fn source(self) -> Result<ProgramSource, RunError> {
        if self.program_and_arguments@.len() == 0 {
            Err(RunError::MissingProgram)
        } else if !self.program_from_tar {
            Ok(ProgramSource::Host)
        } else if self.program_and_arguments@[0]@.len() > 0
            && self.program_and_arguments@[0]@[0] == '/' {
            Ok(ProgramSource::Tar)
        } else {
            Err(RunError::RelativeGuestPath)
        }
    }

    /// Where the program is, unless the command line does not say so.
    pub fn program_source(&self) -> (source: Result<ProgramSource, RunError>)
        ensures
            source == self.source(),
    {
        if self.program_and_arguments.len() == 0 {
            return Err(RunError::MissingProgram);
        }
        if !self.program_from_tar {
            return Ok(ProgramSource::Host);
        }
        let program = self.program_and_arguments[0].as_str();
        if program.unicode_len() > 0 && program.get_char(0) == '/' {
            Ok(ProgramSource::Tar)
        } else {
            Err(RunError::RelativeGuestPath)
        }
    }

    /// The variables that the program gets: those of the command line, then, if
    /// it asks for them, those of the host.
    pub open spec fn env(self, host: Seq<(String, String)>) -> Seq<Seq<char>> {
        let own = self.environment_variables@.map_values(|s: String| s@);
        if self.forward_environment_variables {
            own + host.map_values(|v: (String, String)| v.0@ + "="@ + v.1@)
        } else {
            own
        }
    }

    /// The variables that the program gets.
    pub fn environment(&self, host: &Vec<(String, String)>) -> (variables: Vec<String>)
        ensures
            variables@.map_values(|s: String| s@) == self.env(host@),
    {
        let mut variables: Vec<String> = Vec::new();
        let ghost view = |s: String| s@;
        let mut i: usize = 0;
        while i < self.environment_variables.len()
            invariant
                i <= self.environment_variables.len(),
                variables@.len() == i,
                forall|k: int|
                    0 <= k < i ==> (#[trigger] variables@[k])@ == self.environment_variables@[k]@,
            decreases self.environment_variables.len() - i,
        {
            variables.push(self.environment_variables[i].clone());
            i += 1;
        }
        if self.forward_environment_variables {
            let mut j: usize = 0;
            while j < host.len()
                invariant
                    j <= host.len(),
                    i == self.environment_variables@.len(),
                    variables@.len() == i + j,
                    forall|k: int|
                        0 <= k < i ==> (#[trigger] variables@[k])@
                            == self.environment_variables@[k]@,
                    forall|k: int|
                        i <= k < i + j ==> (#[trigger] variables@[k])@ == host@[k - i].0@ + "="@
                            + host@[k - i].1@,
                decreases host.len() - j,
            {
                let mut variable = host[j].0.clone();
                variable.append("=");
                variable.append(host[j].1.as_str());
                variables.push(variable);
                j += 1;
            }
        }
        assert(variables@.map_values(|s: String| s@) =~= self.env(host@));
        variables
    }
}

/// Whether a file with the extension is an archive.
pub open spec fn is_tar(extension: Option<&str>) -> bool {
    extension matches Some(e) && e@ == "tar"@
}

/// What is said of a file that is not an archive.
pub open spec fn refusal_of(path: Seq<char>) -> Seq<char> {
    "Expected a .tar file, found "@ + path
}

/// What is said of a file that is not an archive, by its extension; nothing of
/// one that is.
pub fn tar_refusal(path: &str, extension: Option<&str>) -> (refusal: Option<String>)
    ensures
        refusal is None == is_tar(extension),
        refusal matches Some(message) ==> message@ == refusal_of(path@),
{
    if let Some(e) = extension {
        if String::from_str(e).eq(&String::from_str("tar")) {
            return None;
        }
    }
    let mut message = String::from_str("Expected a .tar file, found ");
    message.append(path);
    Some(message)
}

/// Whether the first zero byte is at this place.
pub open spec fn is_first_nul(bytes: Seq<u8>, at: int) -> bool {
    &&& 0 <= at < bytes.len()
    &&& bytes[at] == 0
    &&& forall|k: int| 0 <= k < at ==> bytes[k] != 0
}

/// The bytes of a string with a zero byte behind them, unless it holds one.
pub fn c_string(value: &str) -> (bytes: Result<Vec<u8>, RunError>)
    ensures
        bytes is Ok == !value.spec_bytes().contains(0u8),
        bytes matches Ok(b) ==> b@ == value.spec_bytes().push(0u8),
        bytes matches Err(e) ==> (e matches RunError::InteriorNul(at) && is_first_nul(
            value.spec_bytes(),
            at as int,
        )),
{
    let raw = value.as_bytes();
    let mut bytes: Vec<u8> = Vec::new();
    let mut i: usize = 0;
    while i < raw.len()
        invariant
            i <= raw.len(),
            raw@ == value.spec_bytes(),
            bytes@ == raw@.take(i as int),
            forall|k: int| 0 <= k < i ==> raw@[k] != 0,
        decreases raw.len() - i,
    {
        let b: u8 = raw[i];
        if b == 0 {
            assert(raw@[i as int] == 0u8);
            return Err(RunError::InteriorNul(i));
        }
        bytes.push(b);
        i += 1;
        assert(bytes@ =~= raw@.take(i as int));
    }
    assert(raw@.take(i as int) =~= raw@);
    bytes.push(0);
    Ok(bytes)
}

/// Who the program runs for.
pub fn task_params() -> (params: TaskParams)
    ensures
        params == (TaskParams { pid: 1, ppid: 0, uid: 1000, euid: 1000, gid: 1000, egid: 1000 }),
{
    TaskParams {
        pid: 1,
        ppid: 0,
        uid: DEFAULT_GUEST_UID as u32,
        euid: DEFAULT_GUEST_UID as u32,
        gid: DEFAULT_GUEST_GID as u32,
        egid: DEFAULT_GUEST_GID as u32,
    }
}

/// A program that is in the archive is named by a path from the root; one on the
/// host may be named in any way. A command line without a program has none.
pub proof fn programs_are_where_the_command_line_says(args: CliArgs)
    ensures
        args.source() is Err <==> args.program_and_arguments@.len() == 0 || (args.program_from_tar
            && (args.program_and_arguments@[0]@.len() == 0 || args.program_and_arguments@[0]@[0]
            != '/')),
        args.source() matches Ok(source) ==> (source is Tar <==> args.program_from_tar),
        args.source() matches Err(e) ==> (e == RunError::MissingProgram
            <==> args.program_and_arguments@.len() == 0),
        args.source() matches Err(e) ==> e == RunError::MissingProgram || e
            == RunError::RelativeGuestPath,
{
}

/// A program gets each variable of the command line as it is, and each one of the
/// host as its name, an equals sign and its value, if the command line asks for
/// those. None is lost, and there are no others.
pub proof fn variables_are_passed_on(args: CliArgs, host: Seq<(String, String)>, i: int, j: int)
    ensures
        0 <= i < args.environment_variables@.len() ==> args.env(host)[i]
            == args.environment_variables@[i]@,
        args.forward_environment_variables && 0 <= j < host.len() ==> args.env(
            host,
        )[args.environment_variables@.len() + j] == host[j].0@.push('=') + host[j].1@,
        args.env(host).len() == args.environment_variables@.len() + if
        args.forward_environment_variables {
            host.len()
        } else {
            0
        },
{
    reveal_strlit("=");
    if args.forward_environment_variables && 0 <= j < host.len() {
        assert(args.env(host)[args.environment_variables@.len() + j] =~= host[j].0@.push('=')
            + host[j].1@);
    }
}

/// Options that may change are not taken up by accident: neither the archive nor
/// a program in it is used without consent, and no program is sought in an
/// archive that is not there.
pub proof fn unstable_options_need_consent(args: CliArgs)
    ensures
        args.is_consistent() && !args.unstable ==> args.initial_files is None
            && !args.program_from_tar,
        args.is_consistent() && args.program_from_tar ==> args.initial_files is Some,
        args.unstable && !args.program_from_tar ==> args.is_consistent(),
        args.initial_files is None && !args.program_from_tar ==> args.is_consistent(),
        args.unstable && args.initial_files is Some ==> args.is_consistent(),
{
}

} // verus!
