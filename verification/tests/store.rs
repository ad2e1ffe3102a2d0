use wiregui::{DirEntry, ReadOutcome, WireGui, WriteRequest};

fn file(path: &str) -> DirEntry {
    DirEntry { path: path.to_string(), is_file: true }
}

fn other(path: &str) -> DirEntry {
    DirEntry { path: path.to_string(), is_file: false }
}

#[test]
fn the_directory_is_etc_wireguard() {
    assert_eq!(WireGui::config_dir(), "/etc/wireguard");
}

#[test]
fn a_configuration_lives_in_the_directory_under_its_name() {
    assert_eq!(WireGui::config_path("wg0"), "/etc/wireguard/wg0.conf");
    assert_eq!(WireGui::config_path("home"), "/etc/wireguard/home.conf");
    assert_eq!(WireGui::config_path(""), "/etc/wireguard/.conf");
}

#[test]
fn the_file_of_a_configuration_is_listed_under_its_name() {
    for name in ["wg0", "home", "a.b", "my vpn", "x"] {
        let entries = vec![file(&WireGui::config_path(name))];
        assert_eq!(WireGui::list_configs(&entries), vec![name.to_string()]);
    }
}

#[test]
fn different_names_have_different_files() {
    let names = ["wg0", "wg1", "wg", "wg0.conf", "", "/wg0"];
    for a in names {
        for b in names {
            assert_eq!(WireGui::config_path(a) == WireGui::config_path(b), a == b);
        }
    }
}

#[test]
fn an_empty_directory_lists_nothing() {
    assert_eq!(WireGui::list_configs(&Vec::new()), Vec::<String>::new());
}

#[test]
fn listing_keeps_configurations_in_the_order_found() {
    let entries = vec![
        file("/etc/wireguard/zebra.conf"),
        file("/etc/wireguard/readme.txt"),
        file("/etc/wireguard/alpha.conf"),
        other("/etc/wireguard/keys"),
        file("/etc/wireguard/middle.conf"),
    ];
    assert_eq!(
        WireGui::list_configs(&entries),
        vec!["zebra".to_string(), "alpha".to_string(), "middle".to_string()]
    );
}

#[test]
fn listing_skips_what_is_not_a_regular_file() {
    let entries = vec![other("/etc/wireguard/dir.conf"), file("/etc/wireguard/wg0.conf")];
    assert_eq!(WireGui::list_configs(&entries), vec!["wg0".to_string()]);
}

#[test]
fn listing_skips_files_without_the_extension() {
    let entries = vec![
        file("/etc/wireguard/wg0.conf.bak"),
        file("/etc/wireguard/.conf"),
        file("/etc/wireguard/wg0"),
        file("/etc/wireguard/conf"),
    ];
    assert_eq!(WireGui::list_configs(&entries), Vec::<String>::new());
}

#[test]
fn listing_does_not_merge_entries() {
    let entries = vec![file("/etc/wireguard/wg0.conf"), file("/mnt/wg0.conf")];
    assert_eq!(WireGui::list_configs(&entries), vec!["wg0".to_string(), "wg0".to_string()]);
}

#[test]
fn a_name_is_listed_only_for_its_own_file() {
    let entries = vec![file("/etc/wireguard/a.b.conf")];
    let names = WireGui::list_configs(&entries);
    assert!(names.contains(&"a.b".to_string()));
    assert!(!names.contains(&"a".to_string()));
}

#[test]
fn a_read_gives_the_whole_text() {
    let text = "[Interface]\nPrivateKey = abc\n".to_string();
    assert_eq!(WireGui::read_config(ReadOutcome::Content(text.clone())), text);
    assert_eq!(WireGui::read_config(ReadOutcome::Content("\n".to_string())), "\n");
    assert_eq!(WireGui::read_config(ReadOutcome::Content(String::new())), "");
}

#[test]
fn a_missing_file_reads_as_empty() {
    assert_eq!(WireGui::read_config(ReadOutcome::NotFound), "");
}

#[test]
fn an_unreadable_file_reads_as_empty() {
    assert_eq!(WireGui::read_config(ReadOutcome::Failed), "");
}

#[test]
fn a_lone_line_break_is_not_written() {
    assert_eq!(WireGui::write_config("home".to_string(), "\n".to_string()), None);
    assert_eq!(WireGui::write_config(String::new(), "\n".to_string()), None);
}

#[test]
fn any_other_text_is_written_verbatim_to_the_file_of_the_name() {
    for text in ["B", "", " \n", "\n\n", "\r\n", "a\n", "[Interface]\nAddress = 10.0.0.2/24\n"] {
        assert_eq!(
            WireGui::write_config("home".to_string(), text.to_string()),
            Some(WriteRequest {
                path: "/etc/wireguard/home.conf".to_string(),
                data: text.to_string()
            })
        );
    }
}

#[test]
fn a_write_goes_to_the_file_that_a_read_of_the_name_uses() {
    let request = WireGui::write_config("office".to_string(), "x".to_string()).unwrap();
    assert_eq!(request.path, WireGui::config_path("office"));
}

#[test]
fn one_directory_lists_no_name_twice() {
    let entries = vec![
        file("/etc/wireguard/a.conf"),
        file("/etc/wireguard/a.b.conf"),
        file("/etc/wireguard/b.conf"),
        file("/etc/wireguard/a.conf.conf"),
        other("/etc/wireguard/c.conf"),
        file("/etc/wireguard/a"),
    ];
    let names = WireGui::list_configs(&entries);
    assert_eq!(names, vec!["a", "a.b", "b", "a.conf"]);
    for (i, name) in names.iter().enumerate() {
        assert!(!names[..i].contains(name));
    }
}
