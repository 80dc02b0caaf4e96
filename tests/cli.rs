use resumable_upload::cli::{interpret_args, parse_args};

fn words(ws: &[&str]) -> Vec<String> {
    ws.iter().map(|w| w.to_string()).collect()
}

#[test]
fn upload_command_gives_arguments() {
    let args = parse_args(&words(&["prog", "upload", "key", "http://h", "f.bin"])).unwrap();
    assert_eq!(args.apikey, "key");
    assert_eq!(args.url, "http://h");
    assert_eq!(args.file, "f.bin");
}

#[test]
fn command_word_in_any_case() {
    let args = parse_args(&words(&["prog", "UpLoad", "k", "u", "f"])).unwrap();
    assert_eq!(args.file, "f");
    assert_eq!(parse_args(&words(&["prog", "--HELP"])).err().unwrap(), "");
}

#[test]
fn too_few_arguments() {
    let r = parse_args(&words(&["prog", "upload", "k", "u"]));
    assert_eq!(r.err().unwrap(), "Too few arguments");
}

#[test]
fn no_arguments_or_help_asks_for_usage() {
    assert_eq!(parse_args(&words(&["prog"])).err().unwrap(), "");
    assert_eq!(parse_args(&words(&[])).err().unwrap(), "");
    assert_eq!(parse_args(&words(&["prog", "--help"])).err().unwrap(), "");
}

#[test]
fn unknown_command_is_named() {
    let r = parse_args(&words(&["prog", "Download", "x"]));
    assert_eq!(r.err().unwrap(), "Invalid command: Download");
}

#[test]
fn interpret_uses_given_lowercase_word() {
    let args = words(&["prog", "UPLOAD", "k", "u", "f"]);
    assert!(interpret_args(&args, "upload").is_ok());
    assert_eq!(interpret_args(&args, "UPLOAD").err().unwrap(), "Invalid command: UPLOAD");
}
