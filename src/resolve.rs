//! Choosing the one buffer that an invocation counts.
//!
//! Precedence: a positional source names a file, whose contents are the
//! buffer; else, where standard input is piped, what it holds; else there is
//! no input. The environment is handed in as three capabilities (the probe
//! for piped input, the reader of standard input, the reader of files), so
//! that the policy is independent of any real process state.
use vstd::prelude::*;

verus! {

/// Parsed command-line options.
#[derive(Debug)]
pub struct RWCArgs {
    /// Count number of lines.
    pub lines: bool,
    /// Count number of whitespace-delimited words.
    pub words: bool,
    /// Count number of characters.
    pub chars: bool,
    /// Count number of bytes.
    pub bytes: bool,
    /// Path of the file to read from.
    pub source: Option<String>,
}

/// Why no buffer could be resolved.
#[derive(Debug, PartialEq, Eq)]
pub enum ResolveError {
    /// No source argument was given and standard input is not piped.
    NoInput,
    /// The named file could not be read or decoded as text; the reader's
    /// own description.
    FileRead(String),
}

/// The result of resolution, given what the file reader returned.
pub open spec fn file_outcome(read: Result<String, String>) -> Result<String, ResolveError> {
    match read {
        Ok(contents) => Ok(contents),
        Err(message) => Err(ResolveError::FileRead(message)),
    }
}

impl ResolveError {
    /// The user-visible description of the error.
    pub fn message(&self) -> (r: String)
        ensures
            r@ == match self {
                ResolveError::NoInput => "No source or file path provided"@,
                ResolveError::FileRead(m) => m@,
            },
    {
        match self {
            ResolveError::NoInput => String::from_str("No source or file path provided"),
            ResolveError::FileRead(m) => m.clone(),
        }
    }
}

/// `lines` joined with one newline between each two.
pub open spec fn join_lines(lines: Seq<Seq<char>>) -> Seq<char>
    decreases lines.len(),
{
    if lines.len() == 0 {
        Seq::empty()
    } else if lines.len() == 1 {
        lines[0]
    } else {
        join_lines(lines.drop_last()) + seq!['\n'] + lines.last()
    }
}

/// The buffer made of the lines read from standard input: joined with
/// newlines, and one more newline at the end whether or not the input ended
/// in one, so that the last line always counts as terminated.
pub fn join_stdin_lines(lines: &Vec<String>) -> (r: String)
    ensures
        r@ == join_lines(lines.deep_view()) + seq!['\n'],
{
    proof {
        reveal_strlit("\n");
        assert("\n"@ =~= seq!['\n']);
    }
    let mut acc = String::new();
    let mut i: usize = 0;
    while i < lines.len()
        invariant
            i <= lines.len(),
            acc@ == join_lines(lines.deep_view().take(i as int)),
            "\n"@ == seq!['\n'],
        decreases lines.len() - i,
    {
        let ghost before = lines.deep_view().take(i as int);
        let ghost after = lines.deep_view().take(i + 1);
        if i > 0 {
            acc.append("\n");
        }
        acc.append(lines[i].as_str());
        proof {
            assert(lines.deep_view()[i as int] == lines[i as int]@);
            assert(after.drop_last() =~= before);
            assert(after.last() == lines[i as int]@);
            assert(acc@ =~= join_lines(after));
        }
        i = i + 1;
    }
    proof {
        assert(lines.deep_view().take(lines.len() as int) =~= lines.deep_view());
    }
    acc.append("\n");
    acc
}

/// Resolves the buffer to count from the options and the environment.
///
/// A source argument is read as a file path, and its contents, or the
/// reader's error, decide the result. Without one, the probe is asked
/// whether standard input is piped: if so, what the stdin reader returns is
/// the buffer, otherwise resolution fails with `NoInput`. Each capability is
/// called at most once, and only where the policy reaches it.
pub fn get_buffer_from_args<P, S, F>(
    args: &RWCArgs,
    data_in_stdin: P,
    read_from_stdin: S,
    read_file_contents: F,
) -> (r: Result<String, ResolveError>) where
    P: Fn() -> bool,
    S: Fn() -> String,
    F: Fn(&String) -> Result<String, String>,

    requires
        data_in_stdin.requires(()),
        read_from_stdin.requires(()),
        forall|p: String| read_file_contents.requires((&p,)),
    ensures
        args.source is Some ==> exists|read: Result<String, String>|
            #![trigger file_outcome(read)]
            read_file_contents.ensures((&args.source->0,), read) && r == file_outcome(read),
        args.source is None ==> exists|piped: bool|
            #![trigger data_in_stdin.ensures((), piped)]
            data_in_stdin.ensures((), piped) && if piped {
                exists|s: String| read_from_stdin.ensures((), s) && r == Ok::<String, ResolveError>(s)
            } else {
                r == Err::<String, ResolveError>(ResolveError::NoInput)
            },
{
    match &args.source {
        Some(path) => {
            let read = read_file_contents(path);
            let ghost returned = read;
            let result = match read {
                Ok(contents) => Ok(contents),
                Err(message) => Err(ResolveError::FileRead(message)),
            };
            assert(result == file_outcome(returned));
            result
        },
        None => {
            let piped = data_in_stdin();
            if piped {
                let s = read_from_stdin();
                Ok(s)
            } else {
                Err(ResolveError::NoInput)
            }
        },
    }
}

} // verus!
