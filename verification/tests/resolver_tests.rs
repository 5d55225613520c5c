use scuttle_launcher::resolver::{ends_with_bytes, find_sub, resolve_candidate, trim_bytes};

#[test]
fn trim_removes_surrounding_whitespace() {
    assert_eq!(trim_bytes(&b"  C:\\x\\python.exe\r\n".to_vec()), b"C:\\x\\python.exe".to_vec());
    assert_eq!(trim_bytes(&b"abc".to_vec()), b"abc".to_vec());
    assert_eq!(trim_bytes(&b" \t\r\n ".to_vec()), Vec::<u8>::new());
    assert_eq!(trim_bytes(&Vec::new()), Vec::<u8>::new());
    assert_eq!(trim_bytes(&b"a b".to_vec()), b"a b".to_vec());
}

#[test]
fn substring_search() {
    assert!(find_sub(&b"C:\\WindowsApps\\python.exe".to_vec(), &b"WindowsApps".to_vec()));
    assert!(!find_sub(&b"C:\\Python311\\python.exe".to_vec(), &b"WindowsApps".to_vec()));
    assert!(find_sub(&b"abc".to_vec(), &Vec::new()));
    assert!(!find_sub(&b"ab".to_vec(), &b"abc".to_vec()));
    assert!(find_sub(&b"aab".to_vec(), &b"ab".to_vec()));
}

#[test]
fn suffix_check() {
    assert!(ends_with_bytes(&b"C:\\py\\python.exe".to_vec(), &b"python.exe".to_vec()));
    assert!(!ends_with_bytes(&b"C:\\py\\python.exe.bak".to_vec(), &b"python.exe".to_vec()));
    assert!(!ends_with_bytes(&b"exe".to_vec(), &b"python.exe".to_vec()));
    assert!(ends_with_bytes(&b"python.exe".to_vec(), &b"python.exe".to_vec()));
}

#[test]
fn first_usable_candidate_wins() {
    let lines: Vec<Vec<u8>> = vec![
        b"C:\\Users\\u\\AppData\\Local\\Microsoft\\WindowsApps\\python.exe\r".to_vec(),
        b"  C:\\Python311\\python.exe\r".to_vec(),
        b"C:\\other\\python.exe".to_vec(),
    ];
    let r = resolve_candidate(&lines);
    assert_eq!(r, Some(b"C:\\Python311\\python.exe".to_vec()));
}

#[test]
fn shims_and_non_matches_are_rejected() {
    let lines: Vec<Vec<u8>> = vec![
        b"C:\\WindowsApps\\python.exe".to_vec(),
        b"C:\\bin\\python3".to_vec(),
    ];
    assert_eq!(resolve_candidate(&lines), None);
    assert_eq!(resolve_candidate(&Vec::new()), None);
}
