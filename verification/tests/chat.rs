use parlab::chat::{
    chat_message, greet, is_announcement, is_taken_reply, leave_announcement, should_relay,
    should_send,
    Greeting, Registry,
};

#[test]
fn first_user_joins() {
    let mut users = Registry::new();
    match greet(&mut users, "  alice \n") {
        Greeting::Joined { nickname, reply, announcement } => {
            assert_eq!(nickname, "alice");
            assert_eq!(reply, "OK\n");
            assert_eq!(announcement, "*** alice joined the chat ***\n");
        }
        Greeting::Taken { .. } => panic!("alice should be admitted"),
    }
    assert!(users.contains(&"alice".to_string()));
}

#[test]
fn taken_nickname_is_refused() {
    let mut users = Registry::new();
    greet(&mut users, "bob\n");
    match greet(&mut users, "bob\r\n") {
        Greeting::Taken { reply } => assert_eq!(reply, "TAKEN\n"),
        Greeting::Joined { .. } => panic!("bob is already in the chat"),
    }
}

#[test]
fn leaving_frees_the_nickname() {
    let mut users = Registry::new();
    assert!(users.register("carol".to_string()));
    assert!(!users.register("carol".to_string()));
    users.unregister(&"carol".to_string());
    assert!(!users.contains(&"carol".to_string()));
    assert!(users.register("carol".to_string()));
    users.unregister(&"nobody".to_string());
    assert!(users.contains(&"carol".to_string()));
}

#[test]
fn messages_are_formatted() {
    assert_eq!(chat_message(&"dave".to_string(), &"hi all\n".to_string()), "dave: hi all\n");
    assert_eq!(leave_announcement(&"dave".to_string()), "*** dave left the chat ***\n");
}

#[test]
fn client_reads_the_reply() {
    assert!(is_taken_reply("TAKEN\n"));
    assert!(is_taken_reply("  TAKEN "));
    assert!(!is_taken_reply("OK\n"));
    assert!(!is_taken_reply("TAKENX\n"));
}

#[test]
fn client_tells_announcements_apart() {
    assert!(is_announcement("*** eve joined the chat ***\n"));
    assert!(!is_announcement("eve: *** hi\n"));
    assert!(!is_announcement("**"));
}

#[test]
fn client_sends_only_non_blank_input() {
    assert!(should_send("hello\n"));
    assert!(!should_send("   \n"));
    assert!(!should_send(""));
}

#[test]
fn unicode_white_space_is_trimmed_from_nicknames() {
    let mut users = Registry::new();
    match greet(&mut users, "\u{3000}\u{a0}frank\u{2028}\u{85}\t\n") {
        Greeting::Joined { nickname, .. } => assert_eq!(nickname, "frank"),
        Greeting::Taken { .. } => panic!("frank should be admitted"),
    }
    assert!(is_taken_reply("\u{2003}TAKEN\u{202f}"));
    assert!(!should_send("\u{1680}\u{205f}\u{200a}"));
    assert!(should_send("\u{200b}"));
}

#[test]
fn lines_go_to_every_connection_but_the_sender() {
    assert!(should_relay(1, 2));
    assert!(!should_relay(7, 7));
}
