use python_plugin::catalog::{
    parse_catalog, parse_line, select_entry, unique_versions, PrecompiledEntry,
};
use python_plugin::versions::{clone_texts, is_named_build, parse_definitions};

fn entry(version: &str, tag: &str, filename: &str) -> PrecompiledEntry {
    PrecompiledEntry {
        version: version.to_string(),
        tag: tag.to_string(),
        filename: filename.to_string(),
    }
}

const GNU: &str = "x86_64_v3-unknown-linux-gnu";

#[test]
fn parse_line_reads_version_tag_and_name() {
    let line = "cpython-3.12.0+20231002-x86_64_v3-unknown-linux-gnu-install_only.tar.gz";
    assert_eq!(parse_line(line), Some(entry("3.12.0", "20231002", line)));
    assert_eq!(parse_line("cpython-3.8.16+1"), Some(entry("3.8.16", "1", "cpython-3.8.16+1")));
    assert_eq!(
        parse_line("cpython-10.20.30+42rest"),
        Some(entry("10.20.30", "42", "cpython-10.20.30+42rest"))
    );
}

#[test]
fn parse_line_refuses_other_lines() {
    for line in [
        "",
        "cpython-",
        "python-3.12.0+1",
        " cpython-3.12.0+1",
        "cpython-3.12+1",
        "cpython-3.12.0",
        "cpython-3.12.0+",
        "cpython-3.12.0+x",
        "cpython-3..0+1",
        "cpython-.12.0+1",
        "cpython-3.12.0-1",
        "cpython-3.12.0.1+1",
        "cpython-a.b.c+1",
        "xcpython-3.12.0+1",
    ] {
        assert_eq!(parse_line(line), None, "{line:?}");
    }
}

#[test]
fn parse_catalog_keeps_the_platform_s_lines_in_feed_order() {
    let raw = "cpython-3.11.5+20230826-x86_64_v3-unknown-linux-gnu-install_only.tar.gz\n\
               cpython-3.11.5+20230826-aarch64-apple-darwin-install_only.tar.gz\n\
               not an archive x86_64_v3-unknown-linux-gnu\n\
               cpython-3.12.0+20231002-x86_64_v3-unknown-linux-gnu-install_only.tar.gz\r\n\
               cpython-3.12.0+20231002-x86_64_v3-unknown-linux-musl-install_only.tar.gz\n";
    let catalog = parse_catalog(raw, GNU);
    assert_eq!(
        catalog,
        vec![
            entry(
                "3.11.5",
                "20230826",
                "cpython-3.11.5+20230826-x86_64_v3-unknown-linux-gnu-install_only.tar.gz"
            ),
            entry(
                "3.12.0",
                "20231002",
                "cpython-3.12.0+20231002-x86_64_v3-unknown-linux-gnu-install_only.tar.gz"
            ),
        ]
    );
    assert_eq!(parse_catalog("", GNU), vec![]);
    assert_eq!(parse_catalog(raw, "riscv64-unknown-linux-gnu"), vec![]);
}

#[test]
fn select_picks_the_last_entry_of_the_version() {
    let catalog = vec![
        entry("3.12.0", "20230826", "a"),
        entry("3.11.5", "20230826", "b"),
        entry("3.12.0", "20231002", "c"),
        entry("3.11.5", "20231002", "d"),
    ];
    assert_eq!(select_entry(&catalog, "3.12.0"), Some(&catalog[2]));
    assert_eq!(select_entry(&catalog, "3.11.5"), Some(&catalog[3]));
    assert_eq!(select_entry(&catalog, "3.10.0"), None);
    assert_eq!(select_entry(&vec![], "3.12.0"), None);
}

#[test]
fn select_is_the_same_on_every_call() {
    let catalog = vec![
        entry("3.12.0", "1", "a"),
        entry("3.12.0", "2", "b"),
        entry("3.12.0", "3", "c"),
    ];
    let first = select_entry(&catalog, "3.12.0").cloned();
    for _ in 0..10 {
        assert_eq!(select_entry(&catalog, "3.12.0").cloned(), first);
    }
    assert_eq!(first, Some(entry("3.12.0", "3", "c")));
}

#[test]
fn entry_url_is_built_from_tag_and_name() {
    let e = entry("3.12.0", "20231002", "cpython-3.12.0+20231002-x.tar.gz");
    assert_eq!(
        e.url(),
        "https://github.com/indygreg/python-build-standalone/releases/download/20231002/cpython-3.12.0+20231002-x.tar.gz"
    );
}

#[test]
fn unique_versions_names_each_version_once() {
    let catalog = vec![
        entry("3.12.0", "1", "a"),
        entry("3.11.5", "1", "b"),
        entry("3.12.0", "2", "c"),
        entry("3.10.13", "2", "d"),
        entry("3.11.5", "2", "e"),
        entry("3.12.0", "3", "f"),
    ];
    assert_eq!(unique_versions(&catalog), vec!["3.12.0", "3.11.5", "3.10.13"]);
    assert_eq!(unique_versions(&vec![]), Vec::<String>::new());
}

#[test]
fn definitions_list_numbered_versions_first() {
    let output = "2.7.18\nactivepython-3.6.0\n3.11.4\nanaconda3-2023.03\n3.12.0\npypy3.9-7.3.11";
    assert_eq!(
        parse_definitions(output),
        vec![
            "2.7.18",
            "3.11.4",
            "3.12.0",
            "activepython-3.6.0",
            "anaconda3-2023.03",
            "pypy3.9-7.3.11"
        ]
    );
}

#[test]
fn definitions_keep_the_order_within_each_group() {
    let output = "zeta\n9.0\nalpha\n1.0\n\n5.5";
    assert_eq!(parse_definitions(output), vec!["9.0", "1.0", "5.5", "zeta", "alpha", ""]);
    assert_eq!(parse_definitions(""), vec![""]);
    assert_eq!(parse_definitions("3.8.0"), vec!["3.8.0"]);
    assert_eq!(parse_definitions("b\na"), vec!["b", "a"]);
}

#[test]
fn definitions_are_a_stable_partition() {
    let output = "x1\n1x\ny2\n2y\n3z\nz3\n0\n-";
    let input: Vec<String> = output.split('\n').map(|s| s.to_string()).collect();
    let out = parse_definitions(output);
    let led = |s: &String| s.chars().next().map_or(false, |c| c.is_ascii_digit());
    let first_named = out.iter().position(|s| !led(s)).unwrap();
    assert!(out[..first_named].iter().all(led));
    assert!(out[first_named..].iter().all(|s| !led(s)));
    let in_led: Vec<&String> = input.iter().filter(|s| led(s)).collect();
    let out_led: Vec<&String> = out.iter().filter(|s| led(s)).collect();
    assert_eq!(in_led, out_led);
    let in_named: Vec<&String> = input.iter().filter(|s| !led(s)).collect();
    let out_named: Vec<&String> = out.iter().filter(|s| !led(s)).collect();
    assert_eq!(in_named, out_named);
    assert_eq!(out.len(), input.len());
}

#[test]
fn named_builds_are_those_without_a_leading_digit() {
    assert!(is_named_build(&"pypy3.9".to_string()));
    assert!(is_named_build(&"".to_string()));
    assert!(!is_named_build(&"3.9".to_string()));
}

#[test]
fn clone_texts_copies() {
    let v = vec!["a".to_string(), "".to_string(), "b".to_string()];
    assert_eq!(clone_texts(&v), v);
    assert_eq!(clone_texts(&vec![]), Vec::<String>::new());
}
