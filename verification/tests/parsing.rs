use sbsrf_update::parse::{ascii_fields, grep, parse_i32, split_str, str_find, trim_str};
use sbsrf_update::weasel::Weasel;

#[test]
fn find_locates_first_occurrence() {
    assert_eq!(str_find("abcabc", "bc"), Some(1));
    assert_eq!(str_find("abcabc", "zz"), None);
    assert_eq!(str_find("abc", ""), Some(0));
}

#[test]
fn split_cuts_at_every_separator() {
    let parts = split_str("a\r\nb\r\nc", "\r\n");
    assert_eq!(parts, vec!["a".to_string(), "b".to_string(), "c".to_string()]);
    let whole = split_str("abc", "\r\n");
    assert_eq!(whole, vec!["abc".to_string()]);
    let edges = split_str("\r\nx\r\n", "\r\n");
    assert_eq!(edges, vec!["".to_string(), "x".to_string(), "".to_string()]);
}

#[test]
fn fields_are_maximal_nonspace_runs() {
    let fields = ascii_fields("  one\t two  three ");
    assert_eq!(
        fields,
        vec!["one".to_string(), "two".to_string(), "three".to_string()]
    );
    assert!(ascii_fields("   ").is_empty());
    assert_eq!(ascii_fields("solo"), vec!["solo".to_string()]);
}

#[test]
fn trim_removes_surrounding_whitespace() {
    assert_eq!(trim_str("  x y \r\n").as_str(), "x y");
    assert_eq!(trim_str("").as_str(), "");
    assert_eq!(trim_str(" \t ").as_str(), "");
    assert_eq!(trim_str("plain").as_str(), "plain");
}

#[test]
fn parse_reads_signed_decimals() {
    assert_eq!(parse_i32("7528"), 7528);
    assert_eq!(parse_i32("-1"), -1);
    assert_eq!(parse_i32("0"), 0);
    assert_eq!(parse_i32("2147483647"), 2147483647);
    assert_eq!(parse_i32("-2147483648"), i32::MIN);
}

#[test]
fn parse_rejects_malformed_or_overflowing_input() {
    assert_eq!(parse_i32(""), -1);
    assert_eq!(parse_i32("-"), -1);
    assert_eq!(parse_i32("12a"), -1);
    assert_eq!(parse_i32("2147483648"), -1);
    assert_eq!(parse_i32("-2147483649"), -1);
    assert_eq!(parse_i32("99999999999999999999"), -1);
}

#[test]
fn grep_trims_hits_and_reports_misses() {
    match grep("  /Library/Squirrel \n", "Squirrel") {
        Ok(s) => assert_eq!(s.as_str(), "/Library/Squirrel"),
        Err(_) => panic!("expected a hit"),
    }
    match grep("   \n", "Squirrel") {
        Ok(_) => panic!("expected a miss"),
        Err(e) => assert_eq!(e.message().as_str(), "Squirrel not found"),
    }
}

#[test]
fn weasel_pid_is_read_from_the_process_table() {
    let output = "\r\nName                        PID Session\r\n=========== ======== =======\r\nWeaselServer.exe              7528 Console                    1     10,068 K\r\n";
    assert_eq!(Weasel::get_weasel_server_pid(output), 7528);
}

#[test]
fn weasel_pid_defaults_when_the_server_is_absent() {
    assert_eq!(Weasel::get_weasel_server_pid("no such process"), -1);
    assert_eq!(Weasel::get_weasel_server_pid(""), -1);
    assert_eq!(
        Weasel::get_weasel_server_pid("WeaselServer.exe"),
        -1,
    );
}

#[test]
fn weasel_exe_is_read_from_the_second_line() {
    let output = "ExecutablePath\r\nC:\\weasel\\WeaselServer.exe  \r\n\r\n";
    assert_eq!(
        Weasel::get_weasel_exe(output).unwrap().as_str(),
        "C:\\weasel\\WeaselServer.exe"
    );
    assert!(Weasel::get_weasel_exe("one line only").is_none());
}
