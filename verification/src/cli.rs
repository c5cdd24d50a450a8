//! The command line of the editors: `--project-path` and a directory.

use vstd::prelude::*;

verus! {

/// The flag that precedes the project's directory on the command line.
pub const PROJECT_PATH_FLAG: &'static str = "--project-path";

/// The directory named by the arguments from position `from` on: the
/// argument behind the first `--project-path`, or `.` where the flag is
/// missing or stands last.
pub open spec fn project_path_from(args: Seq<Seq<char>>, from: int) -> Seq<char>
    decreases args.len() - from,
{
    if from < 0 || from >= args.len() {
        "."@
    } else if args[from] == "--project-path"@ {
        if from + 1 < args.len() {
            args[from + 1]
        } else {
            "."@
        }
    } else {
        project_path_from(args, from + 1)
    }
}

/// What a list of arguments holds.
pub open spec fn arg_texts(args: Seq<String>) -> Seq<Seq<char>> {
    args.map_values(|arg: String| arg@)
}

/// The project directory that a command line names.
pub fn project_path(args: &Vec<String>) -> (path: String)
    ensures
        path@ == project_path_from(arg_texts(args@), 0),
{
    let flag = String::from_str(PROJECT_PATH_FLAG);
    let mut i: usize = 0;
    while i < args.len()
        invariant
            i <= args.len(),
            flag@ == "--project-path"@,
            project_path_from(arg_texts(args@), i as int) == project_path_from(
                arg_texts(args@),
                0,
            ),
        decreases args.len() - i,
    {
        assert(arg_texts(args@)[i as int] == args@[i as int]@);
        if args[i] == flag {
            if i + 1 < args.len() {
                assert(arg_texts(args@)[i + 1] == args@[i + 1]@);
                return args[i + 1].clone();
            } else {
                return String::from_str(".");
            }
        }
        i += 1;
    }
    String::from_str(".")
}

} // verus!
