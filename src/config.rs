use vstd::prelude::*;

verus! {

/// What a run counts and where its input comes from.
///
/// An empty `file_path` stands for standard input. `option` is the mode token
/// as given; `"*"` is the mode that counts lines, words and bytes together.
#[derive(Debug, PartialEq)]
pub struct Config {
    pub file_path: String,
    pub option: String,
}

/// The argument list holds more than a program name and two arguments (or not
/// even a program name).
#[derive(Debug)]
pub struct TooManyArgumentsError;

impl TooManyArgumentsError {
    /// The message shown to the user.
    pub fn message(&self) -> (r: String)
        ensures
            r@ == "too many arguments"@,
    {
        "too many arguments".to_string()
    }
}

/// The token that selects the mode counting lines, words and bytes together.
pub open spec fn aggregate_token() -> Seq<char> {
    seq!['*']
}

/// Whether an argument is a mode selector rather than a path.
pub open spec fn is_flag(arg: Seq<char>) -> bool {
    arg.len() > 0 && arg[0] == '-'
}

/// The `(file_path, option)` pair that an argument list resolves to, or `None`
/// where there are too many arguments.
pub open spec fn resolve(args: Seq<Seq<char>>) -> Option<(Seq<char>, Seq<char>)> {
    if args.len() == 1 {
        Some((Seq::empty(), aggregate_token()))
    } else if args.len() == 2 {
        if is_flag(args[1]) {
            Some((Seq::empty(), args[1]))
        } else {
            Some((args[1], aggregate_token()))
        }
    } else if args.len() == 3 {
        Some((args[2], args[1]))
    } else {
        None
    }
}

/// Building depends on the argument list alone: two configurations built from
/// the same list hold the same path and the same option.
pub proof fn lemma_build_is_deterministic(args: Seq<Seq<char>>, c1: Config, c2: Config)
    requires
        resolve(args) == Some((c1.file_path@, c1.option@)),
        resolve(args) == Some((c2.file_path@, c2.option@)),
    ensures
        c1.file_path@ == c2.file_path@,
        c1.option@ == c2.option@,
{
}

/// Whether `s` begins with `'-'`.
fn starts_with_dash(s: &str) -> (r: bool)
    ensures
        r == is_flag(s@),
{
    let mut it = s.chars();
    match it.next() {
        Some(c) => c == '-',
        None => false,
    }
}

fn aggregate_option() -> (r: String)
    ensures
        r@ == aggregate_token(),
{
    proof {
        reveal_strlit("*");
    }
    "*".to_string()
}

impl Config {
    /// Resolves the argument list, program name first, into a configuration.
    pub fn build(args: Vec<String>) -> (r: Result<Config, TooManyArgumentsError>)
        ensures
            match r {
                Ok(c) => resolve(args.deep_view()) == Some((c.file_path@, c.option@)),
                Err(_) => resolve(args.deep_view()) is None,
            },
    {
        let ghost a = args.deep_view();
        if args.len() == 1 {
            Ok(Config { file_path: String::new(), option: aggregate_option() })
        } else if args.len() == 2 {
            let arg = args[1].clone();
            assert(arg@ == a[1]);
            if starts_with_dash(arg.as_str()) {
                Ok(Config { file_path: String::new(), option: arg })
            } else {
                Ok(Config { file_path: arg, option: aggregate_option() })
            }
        } else if args.len() == 3 {
            let file_path = args[2].clone();
            let option = args[1].clone();
            assert(file_path@ == a[2] && option@ == a[1]);
            Ok(Config { file_path, option })
        } else {
            Err(TooManyArgumentsError)
        }
    }
}

} // verus!
