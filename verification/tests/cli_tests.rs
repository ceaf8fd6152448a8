use helix_agent::cli::{classify_line, fact_line, parse_command, seed_samples, thread_line, Command, LineAction};
use helix_agent::db::Fact;

fn args(a: &[&str]) -> Vec<String> {
    a.iter().map(|s| s.to_string()).collect()
}

#[test]
fn commands() {
    assert!(matches!(parse_command(&args(&[])), Command::Chat));
    assert!(matches!(parse_command(&args(&["seed", "extra"])), Command::Seed));
    assert!(matches!(parse_command(&args(&["ask", "what", "language?"])), Command::Ask(q) if q == "what language?"));
    assert!(matches!(parse_command(&args(&["ask"])), Command::AskUsage));
    assert!(matches!(parse_command(&args(&["ask", " ", ""])), Command::AskUsage));
    assert!(matches!(parse_command(&args(&["thread"])), Command::Thread(0)));
    assert!(matches!(parse_command(&args(&["thread", "12"])), Command::Thread(12)));
    assert!(matches!(parse_command(&args(&["thread", "-3", "x"])), Command::Thread(-3)));
    assert!(matches!(parse_command(&args(&["thread", "abc"])), Command::Thread(0)));
    assert!(matches!(parse_command(&args(&["facts"])), Command::Facts(n) if n == "user"));
    assert!(matches!(parse_command(&args(&["facts", "my", "cat"])), Command::Facts(n) if n == "my cat"));
    assert!(matches!(parse_command(&args(&["help"])), Command::Unknown(c) if c == "help"));
}

#[test]
fn prompt_lines() {
    assert!(matches!(classify_line("   \n"), LineAction::Skip));
    assert!(matches!(classify_line("quit\n"), LineAction::Quit));
    assert!(matches!(classify_line("  exit "), LineAction::Quit));
    assert!(matches!(classify_line(":q"), LineAction::Quit));
    assert!(matches!(classify_line("Quit"), LineAction::Message(m) if m == "Quit"));
    assert!(matches!(classify_line("  hello there \r\n"), LineAction::Message(m) if m == "hello there"));
}

#[test]
fn listing_lines() {
    assert_eq!(thread_line(1, "user", "a\nb"), "  1. (user) a b");
    assert_eq!(thread_line(10, "assistant", "x"), "  10. (assistant) x");
    let f = Fact { predicate: "OWNS".to_string(), object: "a cat named tuna".to_string() };
    assert_eq!(fact_line("user", &f), "  user --OWNS--> a cat named tuna");
}

#[test]
fn seed_texts() {
    let s = seed_samples();
    assert_eq!(s.len(), 5);
    assert_eq!(s[0], "My favorite programming language is Rust.");
    assert_eq!(s[4], "My cat's name is Tuna and she sleeps on my keyboard.");
}
