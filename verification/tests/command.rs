use local_gateway::command::{validate, Rejection};
use local_gateway::policy::{
    char_is_forbidden, contains_forbidden, is_authorized_program, subcommand_is_allowed,
    AUTHORIZED_PROGRAM, FORBIDDEN_CHARACTERS,
};

fn args(words: &[&str]) -> Vec<String> {
    words.iter().map(|w| w.to_string()).collect()
}

#[test]
fn policy_constants() {
    assert_eq!(AUTHORIZED_PROGRAM, "ollama");
    assert_eq!(FORBIDDEN_CHARACTERS, "&;|<>()`$");
}

#[test]
fn forbidden_characters_are_the_nine_metacharacters() {
    for code in 0u32..=0x10FFFFu32 {
        if let Some(c) = char::from_u32(code) {
            assert_eq!(char_is_forbidden(c), FORBIDDEN_CHARACTERS.contains(c), "U+{:04X}", code);
        }
    }
}

#[test]
fn contains_forbidden_finds_a_metacharacter_anywhere() {
    assert!(!contains_forbidden(""));
    assert!(!contains_forbidden("ollama list"));
    assert!(!contains_forbidden("quotes \" ' and stars * are no metacharacters here"));
    assert!(contains_forbidden("&"));
    assert!(contains_forbidden("ollama list;"));
    assert!(contains_forbidden("$ollama list"));
    assert!(contains_forbidden("ollama `id` list"));
}

#[test]
fn only_the_exact_program_name_is_authorized() {
    assert!(is_authorized_program("ollama"));
    assert!(!is_authorized_program("Ollama"));
    assert!(!is_authorized_program("ollama2"));
    assert!(!is_authorized_program("/usr/local/bin/ollama"));
    assert!(!is_authorized_program(""));
}

#[test]
fn every_listed_subcommand_is_allowed() {
    let listed: Vec<&str> = vec![
        "serve", "create", "show", "run", "stop", "pull", "push", "list", "ps", "cp", "rm",
        "help", "--version", "--help",
    ];
    for name in listed {
        assert!(subcommand_is_allowed(name), "{}", name);
        assert_eq!(validate(&format!("ollama {}", name)), Ok(args(&[name])));
    }
}

#[test]
fn other_subcommands_are_not_allowed() {
    let others: Vec<&str> = vec!["bogus", "", "List", "serve ", "-v", "--versio", "--version2", "exec"];
    for name in others {
        assert!(!subcommand_is_allowed(name), "{:?}", name);
    }
}

#[test]
fn forbidden_character_is_unauthorized() {
    for c in "&;|<>()`$".chars() {
        assert_eq!(validate(&format!("ollama list {}", c)), Err(Rejection::UnauthorizedCommand));
        assert_eq!(validate(&format!("{}", c)), Err(Rejection::UnauthorizedCommand));
        assert_eq!(validate(&format!("ollama li{}st", c)), Err(Rejection::UnauthorizedCommand));
        assert_eq!(validate(&format!(" {} ", c)), Err(Rejection::UnauthorizedCommand));
    }
    assert_eq!(validate("ollama list; rm -rf /"), Err(Rejection::UnauthorizedCommand));
    assert_eq!(validate("ollama run $(whoami)"), Err(Rejection::UnauthorizedCommand));
}

#[test]
fn other_program_is_unauthorized() {
    assert_eq!(validate("ls"), Err(Rejection::UnauthorizedCommand));
    assert_eq!(validate("rm -rf /"), Err(Rejection::UnauthorizedCommand));
    assert_eq!(validate("Ollama list"), Err(Rejection::UnauthorizedCommand));
    assert_eq!(validate("/usr/local/bin/ollama list"), Err(Rejection::UnauthorizedCommand));
    assert_eq!(validate("list ollama"), Err(Rejection::UnauthorizedCommand));
}

#[test]
fn list_is_launched_with_one_argument() {
    assert_eq!(validate("ollama list"), Ok(args(&["list"])));
}

#[test]
fn later_arguments_are_passed_as_they_stand() {
    assert_eq!(
        validate("ollama run llama3 \"hello there\" * ~ \\n %PATH% #x"),
        Ok(args(&["run", "llama3", "\"hello", "there\"", "*", "~", "\\n", "%PATH%", "#x"]))
    );
    assert_eq!(validate("ollama list --help bogus"), Ok(args(&["list", "--help", "bogus"])));
}

#[test]
fn bogus_subcommand_is_unauthorized() {
    assert_eq!(validate("ollama bogus"), Err(Rejection::UnauthorizedCommand));
    assert_eq!(validate("ollama LIST"), Err(Rejection::UnauthorizedCommand));
    assert_eq!(validate("ollama bogus list"), Err(Rejection::UnauthorizedCommand));
}

#[test]
fn program_alone_is_launched_without_arguments() {
    assert_eq!(validate("ollama"), Ok(Vec::<String>::new()));
    assert_eq!(validate("  ollama \t"), Ok(Vec::<String>::new()));
}

#[test]
fn no_words_is_an_empty_command() {
    assert_eq!(validate(""), Err(Rejection::EmptyCommand));
    assert_eq!(validate("   "), Err(Rejection::EmptyCommand));
    assert_eq!(validate("\t\n"), Err(Rejection::EmptyCommand));
}

#[test]
fn any_whitespace_separates_the_words() {
    assert_eq!(validate("ollama\tlist"), Ok(args(&["list"])));
    assert_eq!(validate("\n ollama \u{3000} pull\u{A0}llama3 \r\n"), Ok(args(&["pull", "llama3"])));
}

#[test]
fn accepted_arguments_are_plain_words() {
    let accepted: Vec<&str> = vec![
        "ollama run llama3 why is the sky blue?",
        "  ollama\tpull\u{3000}llama3:8b  ",
        "ollama create mymodel -f ./Modelfile",
        "ollama --version",
    ];
    for cmd in accepted {
        let arguments = validate(cmd).unwrap();
        let words: Vec<&str> = cmd.split_whitespace().collect();
        assert_eq!(arguments, args(&words[1..]));
        for argument in arguments {
            assert!(!argument.is_empty());
            assert!(!argument.chars().any(|c| c.is_whitespace() || "&;|<>()`$".contains(c)));
        }
    }
}
