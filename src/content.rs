//! Replacement text: an encyclopedia excerpt when one could be fetched,
//! generated filler otherwise.

use fake::faker::lorem::raw::Sentence;
use fake::locales::EN;
use fake::Fake;
use vstd::prelude::*;

verus! {

/// Fewest words of a filler sentence.
pub const FILLER_MIN_WORDS: usize = 8;

/// Bound, not reached, on the words of a filler sentence.
pub const FILLER_MAX_WORDS: usize = 16;

/// A fetched encyclopedia entry.
#[derive(Debug)]
pub struct Article {
    pub title: String,
    pub extract: String,
}

/// Why no excerpt could be had.
#[derive(Clone, Copy, Debug, PartialEq, Eq, Structural)]
pub enum ContentSourceError {
    /// The random-title request returned no title.
    NoRandomTitle,
    /// The excerpt request returned no page for the title.
    NoExcerpt,
    /// A request failed or its answer could not be read.
    Transport,
}

/// Whether `s` holds two `=` in a row.
pub open spec fn has_double_equals(s: Seq<char>) -> bool {
    exists|i: int| 0 <= i < s.len() - 1 && #[trigger] s[i] == '=' && s[i + 1] == '='
}

/// `s` with each `==`, read from left to right, replaced by `**`.
pub open spec fn bold_marks(s: Seq<char>) -> Seq<char>
    decreases s.len(),
{
    if s.len() == 0 {
        Seq::empty()
    } else if s.len() >= 2 && s[0] == '=' && s[1] == '=' {
        seq!['*', '*'] + bold_marks(s.subrange(2, s.len() as int))
    } else {
        seq![s[0]] + bold_marks(s.drop_first())
    }
}

/// The text that replaces a message when an excerpt was fetched.
pub open spec fn article_text(title: Seq<char>, extract: Seq<char>) -> Seq<char> {
    seq!['#', ' '] + title + seq!['\n', '\n', '>', ' '] + bold_marks(extract) + seq!['\n']
}

/// Replaces each `==` of `text`, from left to right, by `**`.
pub fn replace_marks(text: &str) -> (r: String)
    ensures
        r@ == bold_marks(text@),
{
    let n: usize = text.unicode_len();
    let mut out = String::new();
    let mut i: usize = 0;
    proof {
        assert(text@.subrange(0, n as int) =~= text@);
        assert(out@ + bold_marks(text@) =~= bold_marks(text@));
    }
    while i < n
        invariant
            n == text@.len(),
            i <= n,
            out@ + bold_marks(text@.subrange(i as int, n as int)) == bold_marks(text@),
        decreases n - i,
    {
        let ghost rest = text@.subrange(i as int, n as int);
        if i + 1 < n && text.get_char(i) == '=' && text.get_char(i + 1) == '=' {
            proof {
                reveal_strlit("**");
                assert(rest[0] == '=' && rest[1] == '=');
                assert("**"@ =~= seq!['*', '*']);
                assert(rest.subrange(2, rest.len() as int) =~= text@.subrange(i + 2, n as int));
                assert(out@ + bold_marks(rest) =~= (out@ + "**"@) + bold_marks(
                    text@.subrange(i + 2, n as int),
                ));
            }
            out.append("**");
            i = i + 2;
        } else {
            let one = text.substring_char(i, i + 1);
            proof {
                assert(one@ =~= seq![rest[0]]);
                assert(rest.drop_first() =~= text@.subrange(i + 1, n as int));
                assert(out@ + bold_marks(rest) =~= (out@ + one@) + bold_marks(
                    text@.subrange(i + 1, n as int),
                ));
            }
            out.append(one);
            i = i + 1;
        }
    }
    proof {
        assert(text@.subrange(n as int, n as int) =~= Seq::<char>::empty());
        assert(out@ + Seq::<char>::empty() =~= out@);
    }
    out
}

/// Formats an excerpt as `# {title}`, a blank line, then the extract quoted
/// with each `==` turned into `**`, and a final line break.
pub fn render_article(article: &Article) -> (r: String)
    ensures
        r@ == article_text(article.title@, article.extract@),
{
    let body = replace_marks(article.extract.as_str());
    let mut out = String::from_str("# ");
    out.append(article.title.as_str());
    out.append("\n\n> ");
    out.append(body.as_str());
    out.append("\n");
    proof {
        reveal_strlit("# ");
        reveal_strlit("\n\n> ");
        reveal_strlit("\n");
        assert(out@ =~= article_text(article.title@, article.extract@));
    }
    out
}

/// The first title of a random-title answer.
pub fn first_title(titles: Vec<String>) -> (r: Result<String, ContentSourceError>)
    ensures
        titles@.len() > 0 ==> r == Ok::<String, ContentSourceError>(titles@[0]),
        titles@.len() == 0 ==> r == Err::<String, ContentSourceError>(
            ContentSourceError::NoRandomTitle,
        ),
{
    let mut titles = titles;
    if titles.len() == 0 {
        Err(ContentSourceError::NoRandomTitle)
    } else {
        Ok(titles.remove(0))
    }
}

/// The first page of an excerpt answer.
pub fn first_article(pages: Vec<Article>) -> (r: Result<Article, ContentSourceError>)
    ensures
        pages@.len() > 0 ==> r == Ok::<Article, ContentSourceError>(pages@[0]),
        pages@.len() == 0 ==> r == Err::<Article, ContentSourceError>(
            ContentSourceError::NoExcerpt,
        ),
{
    let mut pages = pages;
    if pages.len() == 0 {
        Err(ContentSourceError::NoExcerpt)
    } else {
        Ok(pages.remove(0))
    }
}

/// Relies on fake's `faker::lorem::raw::Sentence(EN, min..max)` faked as a
/// `String`: it draws a word count in the range (rand's `gen_range`, which
/// panics on an empty range), picks that many English lorem words and joins
/// them with spaces followed by a full stop, so the result ends with `.`.
#[verifier::external_body]
fn lorem_sentence(min_words: usize, max_words: usize) -> (r: String)
    requires
        min_words < max_words,
    ensures
        r@.len() > 0,
        r@.last() == '.',
{
    Sentence(EN, min_words..max_words).fake::<String>()
}

/// The replacement text for one message: the excerpt when the fetch
/// succeeded, otherwise a generated filler sentence. Never fails.
pub fn generate(fetched: Result<Article, ContentSourceError>) -> (r: String)
    ensures
        fetched matches Ok(a) ==> r@ == article_text(a.title@, a.extract@),
        fetched is Err ==> r@.len() > 0 && r@.last() == '.',
{
    match fetched {
        Ok(article) => render_article(&article),
        Err(_) => lorem_sentence(FILLER_MIN_WORDS, FILLER_MAX_WORDS),
    }
}

/// Text without `==` is left as it is.
pub proof fn lemma_marks_keep_plain_text(s: Seq<char>)
    requires
        !has_double_equals(s),
    ensures
        bold_marks(s) == s,
    decreases s.len(),
{
    if s.len() > 0 {
        let rest = s.drop_first();
        assert(!has_double_equals(rest)) by {
            if has_double_equals(rest) {
                let i = choose|i: int| 0 <= i < rest.len() - 1 && #[trigger] rest[i] == '=' && rest[i + 1] == '=';
                assert(s[i + 1] == '=' && s[i + 2] == '=');
            }
        }
        if s.len() >= 2 && s[0] == '=' && s[1] == '=' {
            let k: int = 0;
            assert(s[k] == '=' && s[k + 1] == '=');
        }
        lemma_marks_keep_plain_text(rest);
        assert(seq![s[0]] + rest =~= s);
    }
}

/// A character of the result that is not `*` stands where it stood in the input.
proof fn lemma_marks_shape(s: Seq<char>)
    ensures
        bold_marks(s).len() == s.len(),
        forall|i: int| 0 <= i < s.len() ==> #[trigger] bold_marks(s)[i] == s[i] || bold_marks(s)[i] == '*',
        s.len() > 0 && s[0] != '=' ==> bold_marks(s)[0] == s[0],
    decreases s.len(),
{
    if s.len() == 0 {
    } else if s.len() >= 2 && s[0] == '=' && s[1] == '=' {
        let rest = s.subrange(2, s.len() as int);
        lemma_marks_shape(rest);
        assert forall|i: int| 0 <= i < s.len() implies #[trigger] bold_marks(s)[i] == s[i] || bold_marks(s)[i] == '*' by {
            if i >= 2 {
                assert(bold_marks(s)[i] == bold_marks(rest)[i - 2]);
                assert(rest[i - 2] == s[i]);
            }
        }
    } else {
        let rest = s.drop_first();
        lemma_marks_shape(rest);
        assert forall|i: int| 0 <= i < s.len() implies #[trigger] bold_marks(s)[i] == s[i] || bold_marks(s)[i] == '*' by {
            if i >= 1 {
                assert(bold_marks(s)[i] == bold_marks(rest)[i - 1]);
                assert(rest[i - 1] == s[i]);
            }
        }
    }
}

/// No `==` is left after the replacement: every one became `**`.
pub proof fn lemma_marks_leave_no_double_equals(s: Seq<char>)
    ensures
        !has_double_equals(bold_marks(s)),
        bold_marks(s).len() == s.len(),
    decreases s.len(),
{
    lemma_marks_shape(s);
    if s.len() == 0 {
    } else if s.len() >= 2 && s[0] == '=' && s[1] == '=' {
        let rest = s.subrange(2, s.len() as int);
        lemma_marks_leave_no_double_equals(rest);
        let b = bold_marks(s);
        if has_double_equals(b) {
            let i = choose|i: int| 0 <= i < b.len() - 1 && #[trigger] b[i] == '=' && b[i + 1] == '=';
            assert(b[i] == bold_marks(rest)[i - 2]);
            assert(b[i + 1] == bold_marks(rest)[i - 1]);
        }
    } else {
        let rest = s.drop_first();
        lemma_marks_shape(rest);
        lemma_marks_leave_no_double_equals(rest);
        let b = bold_marks(s);
        if has_double_equals(b) {
            let i = choose|i: int| 0 <= i < b.len() - 1 && #[trigger] b[i] == '=' && b[i + 1] == '=';
            assert(b[i + 1] == bold_marks(rest)[i]);
            if i > 0 {
                assert(b[i] == bold_marks(rest)[i - 1]);
            } else {
                assert(rest[0] != '=');
            }
        }
    }
}

} // verus!
