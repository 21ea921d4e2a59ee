//! The command line: one program image and an optional debug switch.

use vstd::prelude::*;
use vstd::string::StringExecFns;

verus! {

/// What the command line asks for.
pub struct CliArgs {
    /// Whether the state is to be dumped after every cycle.
    pub print_debug: bool,
    /// The path of the program image.
    pub filename: String,
}

/// Why a command line is refused.
#[derive(Clone, Copy, Debug)]
pub enum UsageError {
    /// An argument that is neither the debug switch nor the one file.
    UnexpectedArgument,
    /// No file is named.
    MissingFile,
}

impl UsageError {
    /// The lines that tell the user what is wrong and how the program is
    /// called.
    pub open spec fn message_text(self) -> Seq<char> {
        match self {
            UsageError::UnexpectedArgument => "Usage: ruscv [-debug] <file>"@,
            UsageError::MissingFile => "Error: ruscv requires exactly one binary input file\n"@
                + "Usage: ruscv [-debug] <file>"@,
        }
    }

    /// Writes the lines that tell the user what is wrong and how the program
    /// is called.
    pub fn message(&self) -> (text: String)
        ensures
            text@ == self.message_text(),
    {
        match self {
            UsageError::UnexpectedArgument => String::from_str("Usage: ruscv [-debug] <file>"),
            UsageError::MissingFile => {
                let mut text = String::from_str(
                    "Error: ruscv requires exactly one binary input file\n",
                );
                text.append("Usage: ruscv [-debug] <file>");
                text
            },
        }
    }
}

/// What the first `count` arguments ask for, as the debug switch and the
/// file named so far, or nothing when one of them is out of place. The debug
/// switch may come any number of times; any other argument names the file,
/// and a second one is out of place.
pub open spec fn scanned(args: Seq<Seq<char>>, count: nat) -> Option<(bool, Seq<char>)>
    decreases count,
{
    if count == 0 {
        Some((false, Seq::empty()))
    } else {
        match scanned(args, (count - 1) as nat) {
            None => None,
            Some((print_debug, filename)) => {
                let arg = args[count - 1];
                if arg == "-debug"@ {
                    Some((true, filename))
                } else if filename.len() == 0 {
                    Some((print_debug, arg))
                } else {
                    None
                }
            },
        }
    }
}

/// Whether the arguments are accepted, and why not.
pub open spec fn usage(args: Seq<Seq<char>>) -> Result<(bool, Seq<char>), UsageError> {
    match scanned(args, args.len()) {
        None => Err(UsageError::UnexpectedArgument),
        Some((print_debug, filename)) => if filename.len() == 0 {
            Err(UsageError::MissingFile)
        } else {
            Ok((print_debug, filename))
        },
    }
}

/// Once an argument is out of place, the command line stays refused.
pub proof fn lemma_scanned_stays_refused(args: Seq<Seq<char>>, count: nat, more: nat)
    requires
        scanned(args, count).is_none(),
        count <= more,
    ensures
        scanned(args, more).is_none(),
    decreases more,
{
    if count < more {
        lemma_scanned_stays_refused(args, count, (more - 1) as nat);
    }
}

impl CliArgs {
    pub fn new() -> (cli_args: CliArgs)
        ensures
            !cli_args.print_debug,
            cli_args.filename@ == Seq::<char>::empty(),
    {
        CliArgs { print_debug: false, filename: String::new() }
    }

    /// Reads the arguments that follow the program's name.
    pub fn parse(args: Vec<String>) -> (parsed: Result<CliArgs, UsageError>)
        ensures
            match usage(args.deep_view()) {
                Ok((print_debug, filename)) => parsed matches Ok(cli_args)
                    && cli_args.print_debug == print_debug && cli_args.filename@ == filename,
                Err(e) => parsed == Err::<CliArgs, UsageError>(e),
            },
    {
        let mut cli_args = CliArgs::new();
        let debug_switch = String::from_str("-debug");
        let mut i: usize = 0;
        while i < args.len()
            invariant
                i <= args.len(),
                debug_switch@ == "-debug"@,
                scanned(args.deep_view(), i as nat) == Some(
                    (cli_args.print_debug, cli_args.filename@),
                ),
            decreases args.len() - i,
        {
            assert(args.deep_view()[i as int] == args@[i as int]@);
            if args[i] == debug_switch {
                cli_args.print_debug = true;
            } else if cli_args.filename.as_str().is_empty() {
                cli_args.filename = args[i].clone();
            } else {
                proof {
                    lemma_scanned_stays_refused(
                        args.deep_view(),
                        (i + 1) as nat,
                        args.deep_view().len(),
                    );
                }
                return Err(UsageError::UnexpectedArgument);
            }
            i += 1;
        }
        if cli_args.filename.as_str().is_empty() {
            return Err(UsageError::MissingFile);
        }
        Ok(cli_args)
    }
}

} // verus!
