//! Routing of one invocation. The entry point parses the command line; the
//! decision what that parse means — run `init`, render help, print usage, or
//! resolve the argument text as an alias — is made here, as a function of
//! plain values.
use vstd::prelude::*;
use vstd::string::StringExecFns;

verus! {

/// The built-in subcommands.
#[derive(Clone, Copy, Debug, PartialEq, Eq, Structural)]
pub enum SecondCommandGroup {
    /// Create the default configuration file if it is absent.
    Init,
}

/// Where one invocation goes.
pub enum Route {
    /// Run the initializer.
    Init,
    /// Render the help text of the configuration.
    Help,
    /// Print the built-in usage text.
    Usage,
    /// Resolve the joined argument text as an alias and dispatch it.
    Alias(String),
}

/// The arguments joined with the given separator between them.
pub open spec fn joined_with(args: Seq<Seq<char>>, sep: Seq<char>) -> Seq<char>
    decreases args.len(),
{
    if args.len() == 0 {
        Seq::empty()
    } else if args.len() == 1 {
        args[0]
    } else {
        joined_with(args.drop_last(), sep) + sep + args.last()
    }
}

/// Joins the arguments with the given separator between them.
pub fn join_args(args: &Vec<String>, sep: &str) -> (r: String)
    ensures
        r@ == joined_with(args.deep_view(), sep@),
{
    let mut out = String::new();
    let mut i: usize = 0;
    while i < args.len()
        invariant
            0 <= i <= args@.len(),
            out@ == joined_with(args.deep_view().take(i as int), sep@),
        decreases args@.len() - i,
    {
        if i > 0 {
            out.append(sep);
        }
        out.append(args[i].as_str());
        proof {
            let views = args.deep_view();
            assert(views.take(i as int + 1).drop_last() =~= views.take(i as int));
            assert(views.take(i as int + 1).last() == views[i as int]);
            assert(out@ =~= joined_with(views.take(i as int + 1), sep@));
        }
        i += 1;
    }
    proof {
        assert(args.deep_view().take(args@.len() as int) =~= args.deep_view());
    }
    out
}

/// Decides where an invocation goes. `parsed` is the outcome of argument
/// parsing: `Some(second)` when the command line parsed, with its optional
/// subcommand, and `None` when it did not. A parse failure whose arguments
/// concatenate to exactly `help` asks for the usage text; any other parse
/// failure is an alias invocation, the arguments rejoined with single spaces.
pub fn route(parsed: Option<Option<SecondCommandGroup>>, args: &Vec<String>) -> (r: Route)
    ensures
        (parsed matches Some(second) ==> match second {
            Option::Some(SecondCommandGroup::Init) => r is Init,
            Option::None => r is Help,
        }),
        parsed is None ==> {
            if joined_with(args.deep_view(), Seq::empty()) == "help"@ {
                r is Usage
            } else {
                r matches Route::Alias(a) && a@ == joined_with(args.deep_view(), " "@)
            }
        },
{
    match parsed {
        Some(second) => match second {
            Some(SecondCommandGroup::Init) => Route::Init,
            None => Route::Help,
        },
        None => {
            let concatenated = join_args(args, "");
            proof {
                reveal_strlit("");
                assert(""@ =~= Seq::<char>::empty());
            }
            if concatenated == String::from_str("help") {
                Route::Usage
            } else {
                Route::Alias(join_args(args, " "))
            }
        },
    }
}

} // verus!
