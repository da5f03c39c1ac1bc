use nss_doh::error::ResolveError;
use nss_doh::name::{normalize, same_label, to_lower, DomainName};

fn labels(texts: &[&str]) -> Vec<Vec<u8>> {
    texts.iter().map(|t| t.as_bytes().to_vec()).collect()
}

#[test]
fn relative_name_is_made_absolute() {
    let name = normalize("example.com").unwrap();
    assert_eq!(name.labels, labels(&["example", "com"]));
    assert!(name.fqdn);
}

#[test]
fn absolute_name_is_kept() {
    let name = normalize("example.com.").unwrap();
    assert_eq!(name.labels, labels(&["example", "com"]));
    assert!(name.fqdn);
    let again = name.clone().qualify();
    assert_eq!(again.labels, name.labels);
    assert_eq!(again.fqdn, name.fqdn);
}

#[test]
fn qualifying_twice_is_qualifying_once() {
    let relative = DomainName { labels: labels(&["www", "example", "com"]), fqdn: false };
    let once = relative.qualify();
    let twice = once.clone().qualify();
    assert_eq!(once.labels, labels(&["www", "example", "com"]));
    assert!(once.fqdn);
    assert_eq!(twice.labels, once.labels);
    assert_eq!(twice.fqdn, once.fqdn);
}

#[test]
fn root_is_read_as_the_root() {
    let name = normalize(".").unwrap();
    assert!(name.labels.is_empty());
    assert!(name.fqdn);
    let root = DomainName::root();
    assert!(root.labels.is_empty());
    assert!(root.fqdn);
}

#[test]
fn capital_letters_are_read_as_small_ones() {
    let name = normalize("WWW.Example.COM").unwrap();
    assert_eq!(name.labels, labels(&["www", "example", "com"]));
}

#[test]
fn text_that_is_no_name_is_refused() {
    assert_eq!(normalize("exa mple.com").err(), Some(ResolveError::InvalidName));
    assert_eq!(normalize("a..b").err(), Some(ResolveError::InvalidName));
    let long_label = "a".repeat(64);
    assert_eq!(normalize(&long_label).err(), Some(ResolveError::InvalidName));
    let longest_label = "a".repeat(63);
    assert!(normalize(&longest_label).is_ok());
}

#[test]
fn append_name_joins_the_labels() {
    let local = DomainName { labels: labels(&["www"]), fqdn: false };
    let domain = DomainName { labels: labels(&["example", "com"]), fqdn: false };
    let joined = local.clone().append_name(&domain);
    assert_eq!(joined.labels, labels(&["www", "example", "com"]));
    assert!(!joined.fqdn);
    let absolute = DomainName { labels: labels(&["example", "com"]), fqdn: true };
    let joined = local.append_name(&absolute);
    assert_eq!(joined.labels, labels(&["www", "example", "com"]));
    assert!(joined.fqdn);
}

#[test]
fn names_are_matched_without_regard_to_case() {
    let lower = DomainName { labels: labels(&["www", "example", "com"]), fqdn: true };
    let mixed = DomainName { labels: labels(&["WWW", "eXample", "Com"]), fqdn: true };
    let relative = DomainName { labels: labels(&["www", "example", "com"]), fqdn: false };
    let shorter = DomainName { labels: labels(&["example", "com"]), fqdn: true };
    let other = DomainName { labels: labels(&["www", "example", "org"]), fqdn: true };
    assert!(lower.same_name(&mixed));
    assert!(mixed.same_name(&lower));
    assert!(lower.same_name(&relative));
    assert!(!lower.same_name(&shorter));
    assert!(!shorter.same_name(&lower));
    assert!(!lower.same_name(&other));
    assert!(DomainName::root().same_name(&DomainName::root()));
}

#[test]
fn labels_are_matched_byte_by_byte() {
    assert!(same_label(&b"abc".to_vec(), &b"ABC".to_vec()));
    assert!(same_label(&Vec::new(), &Vec::new()));
    assert!(!same_label(&b"abc".to_vec(), &b"abd".to_vec()));
    assert!(!same_label(&b"abc".to_vec(), &b"ab".to_vec()));
    assert!(!same_label(&b"a-c".to_vec(), &b"a\rc".to_vec()));
}

#[test]
fn only_capital_letters_are_lowered() {
    assert_eq!(to_lower(b'A'), b'a');
    assert_eq!(to_lower(b'Z'), b'z');
    assert_eq!(to_lower(b'a'), b'a');
    assert_eq!(to_lower(b'@'), b'@');
    assert_eq!(to_lower(b'['), b'[');
    assert_eq!(to_lower(b'0'), b'0');
    assert_eq!(to_lower(0xc1), 0xc1);
}
