use user_auth::repository::auth::token::issue_token;

#[test]
fn a_token_is_a_canonical_random_identifier() {
    for _ in 0..200 {
        let token = issue_token();
        let chars: Vec<char> = token.chars().collect();
        assert_eq!(chars.len(), 36);
        for (i, c) in chars.iter().enumerate() {
            if i == 8 || i == 13 || i == 18 || i == 23 {
                assert_eq!(*c, '-');
            } else {
                assert!(matches!(*c, '0'..='9' | 'a'..='f'), "{:?}", token);
            }
        }
        assert_eq!(chars[14], '4');
        assert!(matches!(chars[19], '8' | '9' | 'a' | 'b'));
    }
}

#[test]
fn two_tokens_differ() {
    assert_ne!(issue_token(), issue_token());
}
