//! Choosing the run mode from command-line arguments, and the fixed
//! diagnostic messages.

use vstd::prelude::*;
use vstd::string::StringExecFns;

verus! {

/// What one invocation does, decided from its arguments.
#[derive(Debug)]
pub enum Mode {
    /// Print the program name and version; no report.
    Version,
    /// Print the usage message; no report.
    Usage,
    /// Report every repository the registry lists.
    All,
    /// Report the one named repository.
    Single(String),
}

/// Whether some argument equals `flag`.
pub open spec fn contains_arg(args: Seq<String>, flag: Seq<char>) -> bool {
    exists|i: int| 0 <= i < args.len() && args[i]@ == flag
}

/// Whether some element of `args` equals `flag`.
fn contains_string(args: &Vec<String>, flag: &String) -> (r: bool)
    ensures
        r == contains_arg(args@, flag@),
{
    let n = args.len();
    let mut i: usize = 0;
    while i < n
        invariant
            n == args@.len(),
            i <= n,
            forall|j: int| 0 <= j < i ==> args@[j]@ != flag@,
        decreases n - i,
    {
        if args[i].eq(flag) {
            return true;
        }
        i = i + 1;
    }
    false
}

/// Decides the run mode from the argument list (program name first, as
/// the process receives it). A `--version` flag anywhere wins; then an
/// `--all` flag anywhere; a bare program name asks for usage; anything
/// else names the repository in the first argument.
pub fn parse_mode(args: &Vec<String>) -> (m: Mode)
    ensures
        contains_arg(args@, "--version"@) ==> m is Version,
        !contains_arg(args@, "--version"@) && contains_arg(args@, "--all"@) ==> m is All,
        !contains_arg(args@, "--version"@) && !contains_arg(args@, "--all"@) && args@.len() < 2
            ==> m is Usage,
        !contains_arg(args@, "--version"@) && !contains_arg(args@, "--all"@) && args@.len() >= 2
            ==> (m matches Mode::Single(name) && name@ == args@[1]@),
{
    let version_flag = String::from_str("--version");
    if contains_string(args, &version_flag) {
        return Mode::Version;
    }
    let all_flag = String::from_str("--all");
    if contains_string(args, &all_flag) {
        return Mode::All;
    }
    if args.len() < 2 {
        return Mode::Usage;
    }
    Mode::Single(args[1].clone())
}

/// The usage message for a run with too few arguments, naming the
/// program as invoked.
pub fn usage_message(program: &String) -> (msg: String)
    ensures
        msg@ == "Usage: "@ + program@ + " [--all | <repository_name> | --version]"@,
{
    let mut msg = String::from_str("Usage: ");
    msg.append(program.as_str());
    msg.append(" [--all | <repository_name> | --version]");
    proof {
        assert(msg@ =~= "Usage: "@ + program@ + " [--all | <repository_name> | --version]"@);
    }
    msg
}

/// The version message: the program as invoked and its version.
pub fn version_message(program: &String, version: &String) -> (msg: String)
    ensures
        msg@ == program@ + " version v"@ + version@,
{
    let mut msg = program.clone();
    msg.append(" version v");
    msg.append(version.as_str());
    proof {
        assert(msg@ =~= program@ + " version v"@ + version@);
    }
    msg
}

/// The diagnostic for a repository listed without a name; that one
/// repository is skipped and the run goes on.
pub fn missing_name_message() -> (msg: String)
    ensures
        msg@ == "Repository name not found"@,
{
    String::from_str("Repository name not found")
}

/// The diagnostic for a failure while listing the images of the named
/// repository; the run stops after it.
pub fn images_error_message(repository: &String, error: &String) -> (msg: String)
    ensures
        msg@ == "Error listing images for repository '"@ + repository@ + "': "@ + error@,
{
    let mut msg = String::from_str("Error listing images for repository '");
    msg.append(repository.as_str());
    msg.append("': ");
    msg.append(error.as_str());
    proof {
        assert(msg@ =~= "Error listing images for repository '"@ + repository@ + "': "@
            + error@);
    }
    msg
}

/// The diagnostic for a failure while listing the repositories
/// themselves; the run stops after it.
pub fn repositories_error_message(error: &String) -> (msg: String)
    ensures
        msg@ == "Error describing repositories: "@ + error@,
{
    let mut msg = String::from_str("Error describing repositories: ");
    msg.append(error.as_str());
    proof {
        assert(msg@ =~= "Error describing repositories: "@ + error@);
    }
    msg
}

/// The diagnostic the entry point adds when the walk over all
/// repositories has failed.
pub fn all_error_message(error: &String) -> (msg: String)
    ensures
        msg@ == "Error listing all repositories: "@ + error@,
{
    let mut msg = String::from_str("Error listing all repositories: ");
    msg.append(error.as_str());
    proof {
        assert(msg@ =~= "Error listing all repositories: "@ + error@);
    }
    msg
}

/// The repository names kept from a listing, in order; a listed
/// repository without a name contributes nothing.
pub open spec fn named_text(repos: Seq<Option<String>>) -> Seq<Seq<char>>
    decreases repos.len(),
{
    if repos.len() == 0 {
        Seq::<Seq<char>>::empty()
    } else {
        named_text(repos.drop_last()) + (match repos.last() {
            Some(name) => seq![name@],
            None => Seq::<Seq<char>>::empty(),
        })
    }
}

/// The views of a sequence of names.
pub open spec fn names_text(names: Seq<String>) -> Seq<Seq<char>> {
    names.map_values(|name: String| name@)
}

/// Keeps the names of the listed repositories that have one, in listing
/// order: the repositories the all-repositories walk visits.
pub fn repository_names(repos: &Vec<Option<String>>) -> (names: Vec<String>)
    ensures
        names_text(names@) == named_text(repos@),
{
    let mut names: Vec<String> = Vec::new();
    let n = repos.len();
    let mut i: usize = 0;
    proof {
        assert(names_text(names@) =~= named_text(repos@.take(0)));
    }
    while i < n
        invariant
            n == repos@.len(),
            i <= n,
            names_text(names@) == named_text(repos@.take(i as int)),
        decreases n - i,
    {
        let ghost prev = names@;
        match &repos[i] {
            Some(name) => {
                names.push(name.clone());
                proof {
                    assert(names_text(names@) =~= names_text(prev) + seq![repos@[i as int]->Some_0@]);
                }
            },
            None => {
            },
        }
        proof {
            assert(repos@.take(i as int + 1).drop_last() =~= repos@.take(i as int));
            assert(repos@.take(i as int + 1).last() == repos@[i as int]);
            assert(names_text(names@) =~= named_text(repos@.take(i as int + 1)));
        }
        i = i + 1;
    }
    proof {
        assert(repos@.take(n as int) =~= repos@);
    }
    names
}

} // verus!
