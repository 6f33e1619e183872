use install_menu::devices::{is_whitespace, parse_device_listing};

/// The same reading written with the standard library's line and word
/// splitting.
fn by_the_standard_library(text: &str) -> Vec<String> {
    let mut devices = Vec::new();
    for line in text.lines() {
        let parts: Vec<&str> = line.split_whitespace().collect();
        if parts.len() == 2 && parts[1] == "disk" {
            devices.push(format!("/dev/{}", parts[0]));
        }
    }
    devices
}

#[test]
fn disks_are_kept_and_prefixed_in_order() {
    let listing = "sda      disk\nsr0      rom\nnvme0n1  disk\nloop0    loop\nsdb      disk\n";
    assert_eq!(
        parse_device_listing(listing),
        vec!["/dev/sda".to_string(), "/dev/nvme0n1".to_string(), "/dev/sdb".to_string()]
    );
}

#[test]
fn partitions_and_loop_devices_are_passed_over() {
    let listing = "sda1 part\nloop3 loop\nsr0 rom\nmd0 raid1\n";
    assert_eq!(parse_device_listing(listing), Vec::<String>::new());
}

#[test]
fn an_empty_listing_names_no_device() {
    assert_eq!(parse_device_listing(""), Vec::<String>::new());
    assert_eq!(parse_device_listing("\n"), Vec::<String>::new());
    assert_eq!(parse_device_listing("\n\n  \n\t\n"), Vec::<String>::new());
}

#[test]
fn malformed_lines_are_skipped() {
    // one field, three fields, tag in the wrong place, tag in the wrong case
    let listing = "sda\nsdb disk extra\ndisk sdc\nsdd DISK\nsde disks\nsdf dis\nsdg disk\n";
    assert_eq!(parse_device_listing(listing), vec!["/dev/sdg".to_string()]);
}

#[test]
fn white_space_around_the_fields_does_not_count() {
    assert_eq!(parse_device_listing("  sda \t disk  "), vec!["/dev/sda".to_string()]);
    assert_eq!(parse_device_listing("\tsda\tdisk\t\n"), vec!["/dev/sda".to_string()]);
    assert_eq!(parse_device_listing("sda disk\r\nsdb disk\r\n"), vec![
        "/dev/sda".to_string(),
        "/dev/sdb".to_string()
    ]);
    assert_eq!(parse_device_listing("sda\u{a0}disk"), vec!["/dev/sda".to_string()]);
    assert_eq!(parse_device_listing("sda\u{3000}disk\u{2003}"), vec!["/dev/sda".to_string()]);
}

#[test]
fn a_last_line_without_line_feed_counts() {
    assert_eq!(parse_device_listing("sda disk"), vec!["/dev/sda".to_string()]);
    assert_eq!(parse_device_listing("sr0 rom\nvda disk"), vec!["/dev/vda".to_string()]);
}

#[test]
fn a_line_feed_parts_the_fields_of_two_lines() {
    assert_eq!(parse_device_listing("sda\ndisk"), Vec::<String>::new());
    assert_eq!(parse_device_listing("sda disk\ndisk"), vec!["/dev/sda".to_string()]);
}

#[test]
fn names_keep_every_character() {
    assert_eq!(parse_device_listing("d\u{e9}p\u{f4}t disk"), vec!["/dev/d\u{e9}p\u{f4}t".to_string()]);
    assert_eq!(parse_device_listing("disk disk"), vec!["/dev/disk".to_string()]);
    assert_eq!(parse_device_listing("\u{65e5}\u{672c} disk\nx disk"), vec![
        "/dev/\u{65e5}\u{672c}".to_string(),
        "/dev/x".to_string()
    ]);
}

#[test]
fn reading_agrees_with_the_standard_library() {
    let listings = [
        "",
        "\n",
        "\r\n",
        "sda disk",
        "sda disk\n",
        "sda disk\n\n",
        "\nsda disk",
        "sda  disk\r\nsdb\tdisk\r\n",
        "sda disk\rsdb disk",
        "sda disk\u{b}sdb disk",
        "sda disk\u{c}",
        "sda\u{85}disk",
        "sda\u{2028}disk\nsdb\u{2029}disk",
        "sda\u{200b}disk",
        "sda\u{feff} disk",
        " \u{1680}sda\u{202f}disk\u{205f}",
        "a b c\nd disk\ne  disk  \n   \nf\n",
        "disk\ndisk disk\ndisk disk disk\n",
        "sda disk x\nsda diskx\nsda xdisk\nsda dis\u{6b}\n",
        "NAME TYPE\nsda disk\nsda1 part\nsdb disk\nloop0 loop\n",
    ];
    for listing in listings {
        assert_eq!(parse_device_listing(listing), by_the_standard_library(listing));
    }
}

#[test]
fn reading_agrees_with_the_standard_library_on_every_short_text() {
    // every text of up to 7 characters over a small alphabet
    let alphabet = ['a', ' ', '\n', 'd', 'i', 's', 'k'];
    let mut texts: Vec<String> = vec![String::new()];
    let mut start = 0;
    for _ in 0..5 {
        let end = texts.len();
        for i in start..end {
            for c in alphabet {
                let mut text = texts[i].clone();
                text.push(c);
                texts.push(text);
            }
        }
        start = end;
    }
    for text in &texts {
        assert_eq!(parse_device_listing(text), by_the_standard_library(text));
        let tagged = format!("{} disk\nx{}", text, text);
        assert_eq!(parse_device_listing(&tagged), by_the_standard_library(&tagged));
    }
}

#[test]
fn white_space_is_what_the_standard_library_calls_white_space() {
    let mut code: u32 = 0;
    while code <= 0x10FFFF {
        if let Some(c) = char::from_u32(code) {
            assert_eq!(is_whitespace(c), c.is_whitespace());
        }
        code += 1;
    }
    assert!(is_whitespace(' '));
    assert!(is_whitespace('\t'));
    assert!(is_whitespace('\n'));
    assert!(is_whitespace('\r'));
    assert!(!is_whitespace('a'));
    assert!(!is_whitespace('\u{200b}'));
}
