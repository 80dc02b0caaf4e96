use vstd::prelude::*;

verus! {

/// What an `upload` command asks for.
pub struct Arguments {
    pub apikey: String,
    pub url: String,
    pub file: String,
}

/// The lowercase form of a text, as std's Unicode case mapping gives it.
pub uninterp spec fn lower_of(s: Seq<char>) -> Seq<char>;

/// Relies on str::to_lowercase: the lowercase form of the text, which depends
/// on its characters alone.
#[verifier::external_body]
fn lowercase(s: &str) -> (r: String)
    ensures
        r@ == lower_of(s@),
{
    s.to_lowercase()
}

/// The command line as texts, the program's name first.
pub open spec fn args_view(args: Seq<String>) -> Seq<Seq<char>> {
    args.map_values(|a: String| a@)
}

/// What a command line asks for, given the lowercase form of its first word:
/// `upload` with an API key, a URL and a file; a usage request (an empty
/// error: no words, or `--help`); or an error message.
pub open spec fn args_outcome(args: Seq<Seq<char>>, command: Seq<char>) -> Result<
    (Seq<char>, Seq<char>, Seq<char>),
    Seq<char>,
> {
    if args.len() <= 1 {
        Err(Seq::empty())
    } else if command == "upload"@ {
        if args.len() < 5 {
            Err("Too few arguments"@)
        } else {
            Ok((args[2], args[3], args[4]))
        }
    } else if command == "--help"@ {
        Err(Seq::empty())
    } else {
        Err("Invalid command: "@ + args[1])
    }
}

pub open spec fn parsed_view(r: Result<Arguments, String>) -> Result<
    (Seq<char>, Seq<char>, Seq<char>),
    Seq<char>,
> {
    match r {
        Ok(a) => Ok((a.apikey@, a.url@, a.file@)),
        Err(e) => Err(e@),
    }
}

/// Reads a command line whose first word, in lowercase, is `command`.
pub fn interpret_args(args: &Vec<String>, command: &str) -> (r: Result<Arguments, String>)
    ensures
        parsed_view(r) == args_outcome(args_view(args@), command@),
{
    proof {
        reveal_strlit("Invalid command: ");
    }
    if args.len() <= 1 {
        return Err(String::new());
    }
    let command = String::from_str(command);
    if command == String::from_str("upload") {
        if args.len() < 5 {
            return Err(String::from_str("Too few arguments"));
        }
        return Ok(
            Arguments {
                apikey: args[2].clone(),
                url: args[3].clone(),
                file: args[4].clone(),
            },
        );
    } else if command == String::from_str("--help") {
        return Err(String::new());
    }
    let mut message = String::from_str("Invalid command: ");
    message.append(args[1].as_str());
    assert(message@ =~= "Invalid command: "@ + args_view(args@)[1]);
    Err(message)
}

/// Reads a command line, the program's name first: `upload <apikey> <url> <file>`
/// (the command word in any case), or `--help`, or nothing.
pub fn parse_args(args: &Vec<String>) -> (r: Result<Arguments, String>)
    ensures
        args@.len() <= 1 ==> parsed_view(r) == Err::<(Seq<char>, Seq<char>, Seq<char>), Seq<char>>(Seq::empty()),
        args@.len() > 1 ==> parsed_view(r) == args_outcome(args_view(args@), lower_of(args@[1]@)),
{
    if args.len() <= 1 {
        return Err(String::new());
    }
    let command = lowercase(args[1].as_str());
    interpret_args(args, command.as_str())
}

} // verus!
