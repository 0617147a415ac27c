use stubborn_sink::options::{configuration, handle_options, Conf, Invocation};

fn args(list: &[&str]) -> Vec<String> {
    list.iter().map(|s| s.to_string()).collect()
}

fn usage() -> String {
    let mut text = String::new();
    text.push_str("Usage: relay FILE [options]\n");
    text.push_str("\n");
    text.push_str("Options:\n");
    text.push_str("    -l, --listen PORT   port on where listening\n");
    text.push_str("    -d, --destination ADDRESS:PORT\n");
    text.push_str("                        remote address on where sends data\n");
    text.push_str("    -h, --help          print this help menu\n");
    text
}

fn conf(listen_on: &str, connect_to: &str) -> Conf {
    Conf { listen_on: listen_on.to_string(), connect_to: connect_to.to_string() }
}

#[test]
fn both_addresses_give_a_configuration() {
    let got = handle_options(&args(&["relay", "-l", "0.0.0.0:12345", "-d", "127.0.0.1:8765"]));
    assert_eq!(got, Invocation::Run(conf("0.0.0.0:12345", "127.0.0.1:8765")));
}

#[test]
fn long_names_and_any_order() {
    let got = handle_options(&args(&[
        "relay",
        "--destination=127.0.0.1:8765",
        "--listen",
        "0.0.0.0:12345",
    ]));
    assert_eq!(got, Invocation::Run(conf("0.0.0.0:12345", "127.0.0.1:8765")));
}

#[test]
fn value_glued_to_the_short_name() {
    let got = handle_options(&args(&["relay", "-l 0.0.0.0:12345", "-d127.0.0.1:8765"]));
    assert_eq!(got, Invocation::Run(conf(" 0.0.0.0:12345", "127.0.0.1:8765")));
}

#[test]
fn help_shows_usage() {
    assert_eq!(handle_options(&args(&["relay", "-h"])), Invocation::Usage(usage()));
    assert_eq!(handle_options(&args(&["relay", "--help"])), Invocation::Usage(usage()));
}

#[test]
fn help_wins_over_a_full_configuration() {
    let got = handle_options(&args(&["relay", "-l", "a:1", "-d", "b:2", "-h"]));
    assert_eq!(got, Invocation::Usage(usage()));
}

#[test]
fn missing_address_shows_usage() {
    assert_eq!(handle_options(&args(&["relay"])), Invocation::Usage(usage()));
    assert_eq!(handle_options(&args(&["relay", "-l", "a:1"])), Invocation::Usage(usage()));
    assert_eq!(handle_options(&args(&["relay", "-d", "b:2"])), Invocation::Usage(usage()));
}

#[test]
fn usage_names_the_program() {
    match handle_options(&args(&["/usr/bin/other"])) {
        Invocation::Usage(text) => {
            assert!(text.starts_with("Usage: /usr/bin/other FILE [options]\n\nOptions:\n"))
        }
        other => panic!("expected usage, got {:?}", other),
    }
}

#[test]
fn unknown_option_is_refused() {
    let got = handle_options(&args(&["relay", "--bogus"]));
    assert_eq!(
        got,
        Invocation::Refused {
            reason: "Unrecognized option: 'bogus'".to_string(),
            usage: usage(),
        }
    );
}

#[test]
fn option_without_its_value_is_refused() {
    let got = handle_options(&args(&["relay", "-d", "b:2", "-l"]));
    assert_eq!(
        got,
        Invocation::Refused {
            reason: "Argument to option 'l' missing".to_string(),
            usage: usage(),
        }
    );
}

#[test]
fn option_given_twice_is_refused() {
    let got = handle_options(&args(&["relay", "-l", "a:1", "-l", "a:2", "-d", "b:2"]));
    assert_eq!(
        got,
        Invocation::Refused {
            reason: "Option 'listen' given more than once".to_string(),
            usage: usage(),
        }
    );
}

#[test]
fn value_for_help_is_refused() {
    let got = handle_options(&args(&["relay", "--help=yes"]));
    assert_eq!(
        got,
        Invocation::Refused {
            reason: "Option 'help' does not take an argument".to_string(),
            usage: usage(),
        }
    );
}

#[test]
fn free_arguments_are_ignored() {
    let got = handle_options(&args(&["relay", "file", "-l", "a:1", "more", "-d", "b:2"]));
    assert_eq!(got, Invocation::Run(conf("a:1", "b:2")));
}

#[test]
fn the_program_name_is_no_option() {
    let got = handle_options(&args(&["-h", "-l", "a:1", "-d", "b:2"]));
    assert_eq!(got, Invocation::Run(conf("a:1", "b:2")));
}

#[test]
fn configuration_needs_both_and_no_help() {
    let l = || Some("a:1".to_string());
    let d = || Some("b:2".to_string());
    assert_eq!(configuration(false, l(), d()), Some(conf("a:1", "b:2")));
    assert_eq!(configuration(true, l(), d()), None);
    assert_eq!(configuration(false, None, d()), None);
    assert_eq!(configuration(false, l(), None), None);
    assert_eq!(configuration(false, None, None), None);
    assert_eq!(configuration(true, None, None), None);
}
