//! What a program is started with.

use vstd::prelude::*;
use vstd::utf8::*;

use crate::runner::command::{
    c_string, is_first_nul, is_tar, refusal_of, tar_refusal, task_params, CliArgs, ProgramSource,
    RunError,
};
use crate::runner::files::{
    initial_entries, is_layout_of, layout_error, HostNode, InitialEntry,
};
use crate::shim::process::TaskParams;

verus! {

/// What a program is started with.
#[derive(Debug)]
pub struct Launch {
    /// The files that it finds in memory.
    pub entries: Vec<InitialEntry>,
    /// Its arguments and variables, each with a zero byte behind it.
    pub argv: Vec<Vec<u8>>,
    pub envp: Vec<Vec<u8>>,
    /// Who it runs for.
    pub params: TaskParams,
}

/// Where the first zero byte is, counted in the first of the strings that holds
/// one; `None` where none does.
pub open spec fn first_nul(values: Seq<Seq<char>>) -> Option<usize>
    decreases values.len(),
{
    if values.len() == 0 {
        None
    } else {
        let bytes = encode_utf8(values[0]);
        if bytes.contains(0u8) {
            Some((choose|at: int| is_first_nul(bytes, at)) as usize)
        } else {
            first_nul(values.drop_first())
        }
    }
}

/// The place of the first zero byte is where the first string that holds one
/// has it.
proof fn first_nul_is_at(values: Seq<Seq<char>>, i: int, at: usize)
    requires
        0 <= i < values.len(),
        forall|k: int| 0 <= k < i ==> !encode_utf8(#[trigger] values[k]).contains(0u8),
        is_first_nul(encode_utf8(values[i]), at as int),
    ensures
        first_nul(values) == Some(at),
    decreases i,
{
    let bytes = encode_utf8(values[0]);
    if i == 0 {
        assert(bytes[at as int] == 0u8);
        assert(bytes.contains(0u8));
        let chosen = choose|at: int| is_first_nul(bytes, at);
        assert(is_first_nul(bytes, chosen));
        assert(chosen == at);
    } else {
        assert forall|k: int| 0 <= k < i - 1 implies !encode_utf8(
            #[trigger] values.drop_first()[k],
        ).contains(0u8) by {
            assert(values.drop_first()[k] == values[k + 1]);
        }
        first_nul_is_at(values.drop_first(), i - 1, at);
    }
}

/// Strings without a zero byte have no place of a first one.
proof fn no_first_nul(values: Seq<Seq<char>>)
    requires
        forall|k: int| 0 <= k < values.len() ==> !encode_utf8(#[trigger] values[k]).contains(0u8),
    ensures
        first_nul(values) is None,
    decreases values.len(),
{
    if values.len() > 0 {
        assert forall|k: int| 0 <= k < values.drop_first().len() implies !encode_utf8(
            #[trigger] values.drop_first()[k],
        ).contains(0u8) by {
            assert(values.drop_first()[k] == values[k + 1]);
        }
        no_first_nul(values.drop_first());
    }
}

/// Whether these are the bytes of the strings, each with a zero byte behind it.
pub open spec fn are_c_strings(bytes: Seq<Vec<u8>>, values: Seq<Seq<char>>) -> bool {
    &&& bytes.len() == values.len()
    &&& forall|i: int|
        0 <= i < bytes.len() ==> (#[trigger] bytes[i])@ == encode_utf8(values[i]).push(0u8)
}

/// What the strings say.
pub open spec fn texts(values: Seq<String>) -> Seq<Seq<char>> {
    values.map_values(|s: String| s@)
}

fn c_strings(values: &Vec<String>) -> (bytes: Result<Vec<Vec<u8>>, RunError>)
    ensures
        match bytes {
            Ok(b) => first_nul(texts(values@)) is None && are_c_strings(b@, texts(values@)),
            Err(e) => e matches RunError::InteriorNul(at) && first_nul(texts(values@)) == Some(at),
        },
{
    let ghost all = texts(values@);
    let mut bytes: Vec<Vec<u8>> = Vec::new();
    let mut i: usize = 0;
    while i < values.len()
        invariant
            i <= values.len(),
            all == texts(values@),
            bytes@.len() == i,
            forall|k: int| 0 <= k < i ==> !encode_utf8(#[trigger] all[k]).contains(0u8),
            forall|k: int|
                0 <= k < i ==> (#[trigger] bytes@[k])@ == encode_utf8(all[k]).push(0u8),
        decreases values.len() - i,
    {
        assert(all[i as int] == values@[i as int]@);
        match c_string(values[i].as_str()) {
            Ok(b) => {
                bytes.push(b);
            },
            Err(e) => {
                proof {
                    if let RunError::InteriorNul(at) = e {
                        first_nul_is_at(all, i as int, at);
                    }
                }
                return Err(e);
            },
        }
        i += 1;
    }
    proof {
        no_first_nul(all);
    }
    Ok(bytes)
}

/// Why a program cannot be started.
#[derive(Debug, PartialEq, Eq)]
pub enum LaunchError {
    Run(RunError),
    /// The file that is to hold the initial files is not an archive, in words.
    NotATar(String),
}

/// What a `LaunchError` says.
pub enum LaunchFault {
    Run(RunError),
    NotATar(Seq<char>),
}

impl View for LaunchError {
    type V = LaunchFault;

    open spec fn view(&self) -> LaunchFault {
        match self {
            LaunchError::Run(e) => LaunchFault::Run(*e),
            LaunchError::NotATar(words) => LaunchFault::NotATar(words@),
        }
    }
}

impl LaunchError {
    /// The error in words.
    pub fn message(&self) -> (message: String)
        ensures
            message@ == match self@ {
                LaunchFault::Run(e) => e.text(),
                LaunchFault::NotATar(words) => words,
            },
    {
        match self {
            LaunchError::Run(e) => e.message(),
            LaunchError::NotATar(words) => words.clone(),
        }
    }
}

/// Why a program cannot be started, if it cannot: the command line does not say
/// where it is, its initial files are not in an archive, there is no place for
/// it among the files, or one of its arguments or variables holds a zero byte.
pub open spec fn launch_error(
    args: CliArgs,
    nodes: Seq<HostNode>,
    tar_extension: Option<&str>,
    host: Seq<(String, String)>,
) -> Option<LaunchFault> {
    match args.source() {
        Err(e) => Some(LaunchFault::Run(e)),
        Ok(source) => if args.initial_files is Some && !is_tar(tar_extension) {
            Some(LaunchFault::NotATar(refusal_of(args.initial_files->0@)))
        } else {
            match layout_error(nodes, source is Host) {
                Some(e) => Some(LaunchFault::Run(e)),
                None => match (
                    first_nul(texts(args.program_and_arguments@)),
                    first_nul(args.env(host)),
                ) {
                    (Some(at), _) => Some(LaunchFault::Run(RunError::InteriorNul(at))),
                    (None, Some(at)) => Some(LaunchFault::Run(RunError::InteriorNul(at))),
                    (None, None) => None,
                },
            }
        },
    }
}

/// What the program of the command line is started with. If it is on the host,
/// `nodes` are the directories on the way to it and the program itself, and
/// `program` are its bytes; both are of no account if it is in the archive. The
/// file with the archive has the extension, and `host` are the variables of the
/// host.
pub fn run(
    args: &CliArgs,
    nodes: Vec<HostNode>,
    program: Vec<u8>,
    tar_extension: Option<&str>,
    host: &Vec<(String, String)>,
) -> (launch: Result<Launch, LaunchError>)
    ensures
        match launch {
            Err(e) => launch_error(*args, nodes@, tar_extension, host@) == Some(e@),
            Ok(l) => {
                &&& launch_error(*args, nodes@, tar_extension, host@) is None
                &&& is_layout_of(
                    l.entries@,
                    nodes@,
                    if args.source() == Ok::<ProgramSource, RunError>(ProgramSource::Host) {
                        Some(program@)
                    } else {
                        None
                    },
                )
                &&& are_c_strings(l.argv@, texts(args.program_and_arguments@))
                &&& are_c_strings(l.envp@, args.env(host@))
                &&& l.params == (TaskParams {
                    pid: 1,
                    ppid: 0,
                    uid: 1000,
                    euid: 1000,
                    gid: 1000,
                    egid: 1000,
                })
            },
        },
{
    let program = match args.program_source() {
        Ok(ProgramSource::Host) => Some(program),
        Ok(ProgramSource::Tar) => None,
        Err(e) => {
            return Err(LaunchError::Run(e));
        },
    };
    if let Some(path) = &args.initial_files {
        if let Some(words) = tar_refusal(path.as_str(), tar_extension) {
            return Err(LaunchError::NotATar(words));
        }
    }
    let entries = match initial_entries(nodes, program) {
        Ok(entries) => entries,
        Err(e) => {
            return Err(LaunchError::Run(e));
        },
    };
    let argv = match c_strings(&args.program_and_arguments) {
        Ok(argv) => argv,
        Err(e) => {
            return Err(LaunchError::Run(e));
        },
    };
    let variables = args.environment(host);
    let envp = match c_strings(&variables) {
        Ok(envp) => envp,
        Err(e) => {
            return Err(LaunchError::Run(e));
        },
    };
    Ok(Launch { entries, argv, envp, params: task_params() })
}

/// Strings are taken for what they are up to their end: where none is refused,
/// none holds a zero byte, and the one that is refused is the first that does.
pub proof fn zero_bytes_are_refused(values: Seq<Seq<char>>, i: int)
    requires
        0 <= i < values.len(),
    ensures
        first_nul(values) is None ==> !encode_utf8(values[i]).contains(0u8),
        encode_utf8(values[i]).contains(0u8) ==> first_nul(values) is Some,
    decreases values.len(),
{
    if i > 0 {
        assert(values.drop_first()[i - 1] == values[i]);
        zero_bytes_are_refused(values.drop_first(), i - 1);
    }
}

/// The place of a zero byte that is reported is where the first string that holds
/// one has its first.
pub proof fn zero_bytes_are_reported_where_they_are(values: Seq<Seq<char>>) -> (i: int)
    requires
        first_nul(values) is Some,
        forall|k: int| 0 <= k < values.len() ==> encode_utf8(#[trigger] values[k]).len()
            <= usize::MAX,
    ensures
        0 <= i < values.len(),
        encode_utf8(values[i])[first_nul(values)->0 as int] == 0,
        first_nul(values)->0 < encode_utf8(values[i]).len(),
        forall|k: int| 0 <= k < first_nul(values)->0 ==> encode_utf8(values[i])[k] != 0,
        forall|k: int| 0 <= k < i ==> !encode_utf8(#[trigger] values[k]).contains(0u8),
    decreases values.len(),
{
    let bytes = encode_utf8(values[0]);
    if bytes.contains(0u8) {
        let z = choose|z: int| 0 <= z < bytes.len() && bytes[z] == 0u8;
        let at = lowest_nul(bytes, z);
        let chosen = choose|at: int| is_first_nul(bytes, at);
        assert(is_first_nul(bytes, chosen));
        0
    } else {
        assert forall|k: int| 0 <= k < values.drop_first().len() implies encode_utf8(
            #[trigger] values.drop_first()[k],
        ).len() <= usize::MAX by {
            assert(values.drop_first()[k] == values[k + 1]);
        }
        let i = zero_bytes_are_reported_where_they_are(values.drop_first());
        assert(values.drop_first()[i] == values[i + 1]);
        assert forall|k: int| 0 <= k < i + 1 implies !encode_utf8(
            #[trigger] values[k],
        ).contains(0u8) by {
            if k > 0 {
                assert(values.drop_first()[k - 1] == values[k]);
            }
        }
        i + 1
    }
}

/// Where there is a zero byte, there is a first one.
proof fn lowest_nul(bytes: Seq<u8>, z: int) -> (at: int)
    requires
        0 <= z < bytes.len(),
        bytes[z] == 0,
    ensures
        is_first_nul(bytes, at),
    decreases z,
{
    if exists|k: int| 0 <= k < z && bytes[k] == 0 {
        let k = choose|k: int| 0 <= k < z && bytes[k] == 0;
        lowest_nul(bytes, k)
    } else {
        z
    }
}

/// A program is started only where the command line names one, its initial files
/// are in an archive, and none of its arguments and variables holds a zero byte.
pub proof fn programs_are_started_as_asked_for(
    args: CliArgs,
    nodes: Seq<HostNode>,
    tar_extension: Option<&str>,
    host: Seq<(String, String)>,
    i: int,
)
    requires
        launch_error(args, nodes, tar_extension, host) is None,
    ensures
        args.program_and_arguments@.len() > 0,
        args.initial_files is Some ==> (tar_extension matches Some(e) && e@ == "tar"@),
        args.program_from_tar ==> args.program_and_arguments@[0]@[0] == '/',
        !args.program_from_tar ==> nodes.len() > 0,
        0 <= i < args.program_and_arguments@.len() ==> !encode_utf8(
            args.program_and_arguments@[i]@,
        ).contains(0u8),
        0 <= i < args.env(host).len() ==> !encode_utf8(args.env(host)[i]).contains(0u8),
{
    if 0 <= i < args.program_and_arguments@.len() {
        zero_bytes_are_refused(texts(args.program_and_arguments@), i);
    }
    if 0 <= i < args.env(host).len() {
        zero_bytes_are_refused(args.env(host), i);
    }
}

} // verus!
