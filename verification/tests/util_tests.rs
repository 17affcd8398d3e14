use dockstack::config::default_with_directory;
use dockstack::ports::PortScanner;
use dockstack::strutil::{split_char, splitn_char, str_eq, strip_trailing_cr, trim, u16_to_string, u64_to_string};
use dockstack::util::{format_bytes, truncate_string};

#[test]
fn decimal_rendering() {
    assert_eq!(u64_to_string(0), "0");
    assert_eq!(u64_to_string(7), "7");
    assert_eq!(u64_to_string(65535), "65535");
    assert_eq!(u64_to_string(18446744073709551615), "18446744073709551615");
    assert_eq!(u16_to_string(5432), "5432");
}

#[test]
fn bytes_below_one_kib_are_plain() {
    assert_eq!(format_bytes(0), "0 B");
    assert_eq!(format_bytes(512), "512 B");
    assert_eq!(format_bytes(1023), "1023 B");
}

#[test]
fn bytes_scaled_to_one_decimal() {
    assert_eq!(format_bytes(1024), "1.0 KB");
    assert_eq!(format_bytes(1536), "1.5 KB");
    assert_eq!(format_bytes(1126), "1.1 KB");
    assert_eq!(format_bytes(2047), "2.0 KB");
    assert_eq!(format_bytes(1024 * 1024), "1.0 MB");
    assert_eq!(format_bytes(5 * 1024 * 1024 * 1024 + 512 * 1024 * 1024), "5.5 GB");
}

#[test]
fn truncate_keeps_short_strings() {
    assert_eq!(truncate_string("short", 10), "short");
    assert_eq!(truncate_string("exactly ten", 11), "exactly ten");
}

#[test]
fn truncate_appends_ellipsis() {
    assert_eq!(truncate_string("a very long name", 10), "a very ...");
    assert_eq!(truncate_string("abcdef", 5), "ab...");
    assert_eq!(truncate_string("abcd", 3), "...");
}

#[test]
fn string_helpers() {
    assert!(str_eq("same", "same"));
    assert!(!str_eq("same", "sane"));
    assert!(!str_eq("same", "sam"));
    assert_eq!(trim("  x y \t\n"), "x y");
    assert_eq!(trim(" \n "), "");
    assert_eq!(strip_trailing_cr("line\r"), "line");
    assert_eq!(strip_trailing_cr("line"), "line");
}

#[test]
fn split_on_delimiter() {
    assert_eq!(split_char("a|b||c", '|'), vec!["a", "b", "", "c"]);
    assert_eq!(split_char("", '|'), vec![""]);
    assert_eq!(split_char("abc", '|'), vec!["abc"]);
    assert_eq!(splitn_char("a|b|c|d", '|', 2), vec!["a", "b|c|d"]);
    assert_eq!(splitn_char("a|b", '|', 6), vec!["a", "b"]);
}

fn scanner_with_busy(busy_ports: &[u16]) -> PortScanner {
    let mut busy = vec![false; 65536];
    let mut names = vec![String::new(); 65536];
    for &p in busy_ports {
        busy[p as usize] = true;
        names[p as usize] = format!("proc-{}", p);
    }
    PortScanner::new(busy, names)
}

#[test]
fn scan_reports_busy_ports_with_process() {
    let scanner = scanner_with_busy(&[80, 5432]);
    let infos = scanner.scan_ports(&vec![80, 81, 5432]);
    assert_eq!(infos.len(), 3);
    assert!(infos[0].in_use);
    assert_eq!(infos[0].process, "proc-80");
    assert!(!infos[1].in_use);
    assert_eq!(infos[1].process, "");
    assert!(infos[2].in_use);
}

#[test]
fn find_available_skips_busy_run() {
    let scanner = scanner_with_busy(&[8080, 8081, 8082]);
    assert_eq!(scanner.find_available_port(8080), 8083);
    assert_eq!(scanner.find_available_port(9000), 9000);
}

#[test]
fn find_available_falls_back_to_start() {
    let mut busy = vec![true; 65536];
    busy[100] = false;
    let scanner = PortScanner::new(busy, vec![String::new(); 65536]);
    // Everything from 200 up is busy: the start port comes back unchanged.
    assert_eq!(scanner.find_available_port(200), 200);
    assert_eq!(scanner.find_available_port(50), 100);
}

#[test]
fn suggest_keeps_free_port() {
    let scanner = scanner_with_busy(&[3306]);
    assert_eq!(scanner.suggest_port(3307), (true, 3307));
    assert_eq!(scanner.suggest_port(3306), (false, 3307));
}

#[test]
fn common_ports_scanned_in_order() {
    let scanner = scanner_with_busy(&[443]);
    let infos = scanner.get_common_ports();
    let ports: Vec<u16> = infos.iter().map(|i| i.port).collect();
    assert_eq!(ports, vec![80, 443, 3306, 5432, 6379, 8080, 8081, 8082, 8083, 9000]);
    assert!(infos[1].in_use);
    assert!(!infos[0].in_use);
}

#[test]
fn project_ports_scanned_for_enabled_services() {
    let mut p = default_with_directory("/tmp/x");
    for entry in p.services.iter_mut() {
        if entry.0 == "mysql" || entry.0 == "adminer" {
            entry.1.enabled = true;
        }
    }
    let scanner = scanner_with_busy(&[3306]);
    let infos = scanner.scan_project_ports(&p.services);
    assert_eq!(infos.len(), 2);
    let mysql = infos.iter().find(|i| i.port == 3306).unwrap();
    assert!(mysql.in_use);
    let adminer = infos.iter().find(|i| i.port == 8083).unwrap();
    assert!(!adminer.in_use);
}
