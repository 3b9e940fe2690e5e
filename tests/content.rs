use scrubber::{
    first_article, first_title, generate, render_article, replace_marks, Article,
    ContentSourceError,
};

fn article(title: &str, extract: &str) -> Article {
    Article {
        title: title.to_string(),
        extract: extract.to_string(),
    }
}

#[test]
fn double_equals_become_bold_marks() {
    assert_eq!(replace_marks("== History =="), "** History **");
    assert_eq!(replace_marks("a==b==c"), "a**b**c");
    assert_eq!(replace_marks("==="), "**=");
    assert_eq!(replace_marks("===="), "****");
}

#[test]
fn text_without_double_equals_is_unchanged() {
    assert_eq!(replace_marks(""), "");
    assert_eq!(replace_marks("a = b"), "a = b");
    assert_eq!(replace_marks("plain text, é and ü"), "plain text, é and ü");
}

#[test]
fn article_is_formatted_as_quoted_excerpt() {
    let text = render_article(&article("Cheese", "== Origins ==\nFrom the moon."));
    assert_eq!(text, "# Cheese\n\n> ** Origins **\nFrom the moon.\n");
}

#[test]
fn generate_uses_the_fetched_article() {
    let text = generate(Ok(article("Cats", "They sit.")));
    assert_eq!(text, "# Cats\n\n> They sit.\n");
}

#[test]
fn generate_falls_back_to_a_sentence() {
    for err in [
        ContentSourceError::NoRandomTitle,
        ContentSourceError::NoExcerpt,
        ContentSourceError::Transport,
    ] {
        let text = generate(Err(err));
        assert!(!text.is_empty());
        assert!(text.ends_with('.'));
        assert!(!text.starts_with('#'));
        let words = text.split(' ').count();
        assert!((8..16).contains(&words), "{}", text);
    }
}

#[test]
fn first_title_takes_the_first() {
    assert_eq!(
        first_title(vec!["A".to_string(), "B".to_string()]),
        Ok("A".to_string())
    );
    assert_eq!(first_title(vec![]), Err(ContentSourceError::NoRandomTitle));
}

#[test]
fn first_article_takes_the_first() {
    let a = first_article(vec![article("X", "x"), article("Y", "y")]).unwrap();
    assert_eq!(a.title, "X");
    assert_eq!(a.extract, "x");
    assert!(matches!(first_article(vec![]), Err(ContentSourceError::NoExcerpt)));
}
