use dirlist::permissions::{parse_permissions, triplet};

#[test]
fn triplet_renders_each_combination() {
    let (r, w, x) = (0o4u16, 0o2u16, 0o1u16);
    assert_eq!(triplet(0o0, r, w, x), "---");
    assert_eq!(triplet(0o4, r, w, x), "r--");
    assert_eq!(triplet(0o2, r, w, x), "-w-");
    assert_eq!(triplet(0o1, r, w, x), "--x");
    assert_eq!(triplet(0o5, r, w, x), "r-x");
    assert_eq!(triplet(0o6, r, w, x), "rw-");
    assert_eq!(triplet(0o3, r, w, x), "-wx");
    assert_eq!(triplet(0o7, r, w, x), "rwx");
}

#[test]
fn triplet_reads_only_the_masked_bits() {
    assert_eq!(triplet(0o070, 0o400, 0o200, 0o100), "---");
    assert_eq!(triplet(0o070, 0o040, 0o020, 0o010), "rwx");
    assert_eq!(triplet(0o754, 0o040, 0o020, 0o010), "r-x");
    assert_eq!(triplet(0xffff, 0, 0, 0), "---");
}

#[test]
fn mode_754_is_rwx_rx_r() {
    assert_eq!(parse_permissions(0o754), "rwx|r-x|r--");
    let text = parse_permissions(0o754);
    let classes: Vec<&str> = text.split('|').collect();
    assert_eq!(classes, vec!["rwx", "r-x", "r--"]);
}

#[test]
fn each_bit_has_its_place() {
    assert_eq!(parse_permissions(0o400), "r--|---|---");
    assert_eq!(parse_permissions(0o200), "-w-|---|---");
    assert_eq!(parse_permissions(0o100), "--x|---|---");
    assert_eq!(parse_permissions(0o040), "---|r--|---");
    assert_eq!(parse_permissions(0o020), "---|-w-|---");
    assert_eq!(parse_permissions(0o010), "---|--x|---");
    assert_eq!(parse_permissions(0o004), "---|---|r--");
    assert_eq!(parse_permissions(0o002), "---|---|-w-");
    assert_eq!(parse_permissions(0o001), "---|---|--x");
}

#[test]
fn extreme_modes() {
    assert_eq!(parse_permissions(0), "---|---|---");
    assert_eq!(parse_permissions(0o777), "rwx|rwx|rwx");
    assert_eq!(parse_permissions(0o644), "rw-|r--|r--");
}

#[test]
fn bits_above_the_nine_are_ignored() {
    assert_eq!(parse_permissions(0o100644), "rw-|r--|r--");
    assert_eq!(parse_permissions(0o7000), "---|---|---");
    assert_eq!(parse_permissions(0xffff), "rwx|rwx|rwx");
    for mode in 0..=0o777u16 {
        assert_eq!(parse_permissions(mode | 0o170000), parse_permissions(mode));
    }
}

#[test]
fn every_mode_gives_three_triplets() {
    for mode in 0..=u16::MAX {
        let text = parse_permissions(mode);
        let chars: Vec<char> = text.chars().collect();
        assert_eq!(chars.len(), 11);
        assert_eq!(chars[3], '|');
        assert_eq!(chars[7], '|');
        for class in 0..3 {
            assert!(chars[4 * class] == 'r' || chars[4 * class] == '-');
            assert!(chars[4 * class + 1] == 'w' || chars[4 * class + 1] == '-');
            assert!(chars[4 * class + 2] == 'x' || chars[4 * class + 2] == '-');
        }
        assert_eq!(parse_permissions(mode), text);
    }
}

#[test]
fn modes_with_different_bits_differ() {
    for a in 0..=0o777u16 {
        let b = a ^ 0o020;
        assert_ne!(parse_permissions(a), parse_permissions(b));
    }
}

#[test]
fn masks_are_those_of_the_platform() {
    let masks = [
        (libc::S_IRUSR, 0, 'r'),
        (libc::S_IWUSR, 1, 'w'),
        (libc::S_IXUSR, 2, 'x'),
        (libc::S_IRGRP, 4, 'r'),
        (libc::S_IWGRP, 5, 'w'),
        (libc::S_IXGRP, 6, 'x'),
        (libc::S_IROTH, 8, 'r'),
        (libc::S_IWOTH, 9, 'w'),
        (libc::S_IXOTH, 10, 'x'),
    ];
    for (mask, place, letter) in masks {
        let text: Vec<char> = parse_permissions(mask as u16).chars().collect();
        for (i, c) in text.iter().enumerate() {
            if i == place {
                assert_eq!(*c, letter);
            } else if i == 3 || i == 7 {
                assert_eq!(*c, '|');
            } else {
                assert_eq!(*c, '-');
            }
        }
    }
}
