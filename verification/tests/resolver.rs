use fe_lexer::lexer::Lexer;

fn resolve(current: char, peeked: Option<char>, pending: &str) -> bool {
    let lexer = Lexer::new();
    match peeked {
        Some(next) => lexer.peeking_reveals_compound(&current, &Some(&next), pending),
        None => lexer.peeking_reveals_compound(&current, &None, pending),
    }
}

#[test]
fn a_character_that_is_no_operator_is_never_kept() {
    for c in ['x', '5', ';', '(', '{', ' ', '\t', '#', '.'] {
        assert!(!resolve(c, Some('='), ""));
        assert!(!resolve(c, Some('='), "+"));
        assert!(!resolve(c, None, "-"));
    }
}

#[test]
fn an_operator_before_another_operator_is_kept() {
    for current in ['*', '+', '/', '-', '=', ':', '>', '<'] {
        for next in ['*', '+', '/', '-', '=', ':', '>', '<'] {
            assert!(resolve(current, Some(next), ""));
            assert!(resolve(current, Some(next), "name"));
        }
    }
}

#[test]
fn an_operator_that_may_begin_a_compound_is_kept() {
    for current in ['+', '-', '*', '/', '='] {
        assert!(resolve(current, Some(' '), ""));
        assert!(resolve(current, Some('5'), ""));
        assert!(resolve(current, None, ""));
    }
    for current in [':', '<', '>'] {
        assert!(!resolve(current, Some(' '), ""));
        assert!(!resolve(current, Some('5'), ""));
        assert!(!resolve(current, None, ""));
    }
}

#[test]
fn an_operator_that_completes_a_compound_is_kept() {
    assert!(resolve('=', Some(' '), "+"));
    assert!(resolve('=', Some(' '), "-"));
    assert!(resolve('=', Some(' '), "*"));
    assert!(resolve('=', Some(' '), "/"));
    assert!(resolve('=', Some(' '), "="));
    assert!(resolve('>', Some(' '), "-"));
    assert!(resolve('>', None, "-"));
    assert!(!resolve('>', Some(' '), "+"));
    assert!(!resolve('>', Some(' '), "="));
    assert!(!resolve('=', Some(' '), ">"));
    assert!(!resolve('=', Some(' '), "<"));
    assert!(!resolve('-', Some(' '), "-"));
    assert!(!resolve('+', Some(' '), "+"));
}

#[test]
fn an_operator_after_other_text_ends_the_lexeme() {
    assert!(!resolve('=', Some('5'), "x"));
    assert!(!resolve('+', Some(' '), "count"));
    assert!(!resolve('=', Some(' '), "+="));
    assert!(!resolve('=', None, "=="));
    assert!(!resolve('>', Some('a'), "->"));
}

#[test]
fn whitespace_around_the_candidate_is_ignored() {
    assert!(resolve('=', Some(' '), "  +"));
    assert!(resolve('>', Some(' '), "\t-"));
    assert!(resolve('=', None, "   "));
    assert!(!resolve('=', Some(' '), "+ "));
    assert!(!resolve('<', None, "   "));
}
