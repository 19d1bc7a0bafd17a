use regex::Regex;
use user_auth::repository::auth::signup::is_email_address;

const PATTERN: &str = r"^[a-zA-Z0-9._%+-]+@[a-zA-Z0-9.-]+\.[a-zA-Z]{2,63}$";

#[test]
fn well_formed_addresses_are_recognised() {
    let tld_63 = "a".repeat(63);
    for address in [
        "alice@example.com",
        "a@b.co",
        "first.last+tag@sub.domain-name.org",
        "USER_1%x@EXAMPLE.COM",
        "alice@example.co.uk",
        "a@-.ab",
        "a@..com",
        "-@-.ab",
        ".@..ab",
        &format!("x@y.{}", tld_63),
    ] {
        assert!(is_email_address(address), "{:?}", address);
    }
}

#[test]
fn malformed_addresses_are_rejected() {
    let tld_64 = "a".repeat(64);
    for address in [
        "",
        "alice",
        "alice@",
        "@example.com",
        "alice@example",
        "alice@example.",
        "alice@example.c",
        "alice@example.c0m",
        "alice@example.123",
        "alice@@example.com",
        "a@b.cd@e.fg",
        "alice@.com",
        "alice@example.com ",
        " alice@example.com",
        "alice@example.com\n",
        "al!ce@example.com",
        "al ice@example.com",
        "alice@exa_mple.com",
        "alice@exa+mple.com",
        "älice@example.com",
        "alice@exämple.com",
        "alice@example.cöm",
        &format!("x@y.{}", tld_64),
    ] {
        assert!(!is_email_address(address), "{:?}", address);
    }
}

#[test]
fn top_level_domain_has_two_to_sixty_three_letters() {
    for letters in 0..=70 {
        let address = format!("a@b.{}", "z".repeat(letters));
        assert_eq!(is_email_address(&address), (2..=63).contains(&letters), "{}", letters);
    }
}

#[test]
fn recognition_agrees_with_the_pattern_on_chosen_addresses() {
    let pattern = Regex::new(PATTERN).unwrap();
    let long_tld = "a".repeat(64);
    for address in [
        "",
        "alice@example.com",
        "a@b.co",
        "a@b.c",
        "a@b",
        "@b.co",
        "a@.co",
        "a@..co",
        "a@b..co",
        "a.@b.co",
        "a@b.co.",
        "a@b.c-o",
        "a@b-.co",
        "a%b@c.de",
        "a_b@c_d.ef",
        "A@B.CD",
        "a@b.co\n",
        "\na@b.co",
        "a@b.co\r\n",
        "a\u{0}@b.co",
        "ａ@b.co",
        "a@b.cο",
        "a@b.cé",
        "a@b.İstanbul",
        "a@b.c1",
        "1@2.ab",
        "a@@b.co",
        "a@b@c.de",
        "a b@c.de",
        "a@b .de",
        "a@b. de",
        &format!("a@b.{}", long_tld),
        &format!("a@b.c.{}", long_tld),
    ] {
        assert_eq!(is_email_address(address), pattern.is_match(address), "{:?}", address);
    }
}

fn agree_on_all_texts_from(alphabet: &[char], length: usize, pattern: &Regex) {
    let mut indices = vec![0usize; length];
    loop {
        let text: String = indices.iter().map(|i| alphabet[*i]).collect();
        assert_eq!(is_email_address(&text), pattern.is_match(&text), "{:?}", text);
        let mut place = 0;
        while place < length {
            indices[place] += 1;
            if indices[place] < alphabet.len() {
                break;
            }
            indices[place] = 0;
            place += 1;
        }
        if place == length {
            return;
        }
    }
}

#[test]
fn recognition_agrees_with_the_pattern_on_all_short_texts() {
    let pattern = Regex::new(PATTERN).unwrap();
    let alphabet = ['a', 'Z', '7', '@', '.', '-', '_', ' '];
    for length in 0..=6 {
        agree_on_all_texts_from(&alphabet, length, &pattern);
    }
}
