//! Text helpers for rendered message previews.

use vstd::prelude::*;

verus! {

/// Whether a character counts as white space, as the standard library's
/// character classification defines it.
pub uninterp spec fn char_is_whitespace(c: char) -> bool;

/// Relies on char::is_whitespace: the Unicode white-space property of the
/// character, a function of the character alone.
#[verifier::external_body]
fn is_whitespace_char(c: char) -> (r: bool)
    ensures
        r == char_is_whitespace(c),
{
    c.is_whitespace()
}

/// How many leading characters the next trimming step removes: a leading
/// paragraph or line-break tag is removed whole, a leading white-space
/// character is removed alone, and anything else stops the trimming.
pub open spec fn leading_trim(s: Seq<char>) -> int {
    if s.len() >= 3 && s[0] == '<' && s[1] == 'p' && s[2] == '>' {
        3
    } else if s.len() >= 6 && s[0] == '<' && s[1] == 'b' && s[2] == 'r' && s[3] == ' ' && s[4]
        == '/' && s[5] == '>' {
        6
    } else if s.len() >= 5 && s[0] == '<' && s[1] == 'b' && s[2] == 'r' && s[3] == '/' && s[4]
        == '>' {
        5
    } else if s.len() >= 4 && s[0] == '<' && s[1] == 'b' && s[2] == 'r' && s[3] == '>' {
        4
    } else if s.len() >= 1 && char_is_whitespace(s[0]) {
        1
    } else {
        0
    }
}

/// The text with all leading white space and leading paragraph and
/// line-break tags removed.
pub open spec fn trim_start_html_ws(s: Seq<char>) -> Seq<char>
    decreases s.len(),
{
    let n = leading_trim(s);
    if n == 0 {
        s
    } else {
        trim_start_html_ws(s.skip(n))
    }
}

/// Removes leading white space and leading paragraph and line-break tags
/// (`<p>`, `<br>`, `<br/>`, `<br />`) from the given text.
pub fn trim_start_html_whitespace(text: &str) -> (r: &str)
    ensures
        r@ == trim_start_html_ws(text@),
{
    let n: usize = text.unicode_len();
    let mut i: usize = 0;
    proof {
        assert(text@.skip(0) =~= text@);
    }
    while i < n
        invariant
            i <= n,
            n == text@.len(),
            trim_start_html_ws(text@.skip(i as int)) == trim_start_html_ws(text@),
        ensures
            i <= n,
            n == text@.len(),
            trim_start_html_ws(text@.skip(i as int)) == trim_start_html_ws(text@),
            i < n ==> leading_trim(text@.skip(i as int)) == 0,
        decreases n - i,
    {
        let ghost rest: Seq<char> = text@.skip(i as int);
        let remaining: usize = n - i;
        let c: char = text.get_char(i);
        let tag_step: usize = if c == '<' {
            if remaining >= 3 && text.get_char(i + 1) == 'p' && text.get_char(i + 2) == '>' {
                3
            } else if remaining >= 4 && text.get_char(i + 1) == 'b' && text.get_char(i + 2)
                == 'r' {
                if text.get_char(i + 3) == '>' {
                    4
                } else if text.get_char(i + 3) == '/' && remaining >= 5 && text.get_char(i + 4)
                    == '>' {
                    5
                } else if text.get_char(i + 3) == ' ' && remaining >= 6 && text.get_char(i + 4)
                    == '/' && text.get_char(i + 5) == '>' {
                    6
                } else {
                    0
                }
            } else {
                0
            }
        } else {
            0
        };
        let step: usize = if tag_step != 0 {
            tag_step
        } else if is_whitespace_char(c) {
            1
        } else {
            0
        };
        if step == 0 {
            proof {
                assert(forall|k: int| 0 <= k < rest.len() ==> rest[k] == text@[i + k]);
                assert(leading_trim(rest) == 0);
            }
            break ;
        }
        proof {
            assert(forall|k: int| 0 <= k < rest.len() ==> rest[k] == text@[i + k]);
            assert(leading_trim(rest) == step as int);
            assert(text@.skip(i + step) =~= rest.skip(step as int));
        }
        i = i + step;
    }
    proof {
        if i >= n {
            assert(text@.skip(i as int) =~= text@.skip(i as int));
            assert(text@.skip(n as int).len() == 0);
            assert(leading_trim(text@.skip(i as int)) == 0);
        }
    }
    let r: &str = text.substring_char(i, n);
    proof {
        assert(r@ =~= text@.skip(i as int));
        assert(trim_start_html_ws(text@.skip(i as int)) == text@.skip(i as int));
    }
    r
}

/// The text with trailing white space removed.
pub open spec fn trim_end_ws(s: Seq<char>) -> Seq<char>
    decreases s.len(),
{
    if s.len() > 0 && char_is_whitespace(s.last()) {
        trim_end_ws(s.drop_last())
    } else {
        s
    }
}

/// Whether the text ends with the word of an hypertext reference attribute.
pub open spec fn ends_with_href_word(s: Seq<char>) -> bool {
    s.len() >= 4 && s[s.len() - 4] == 'h' && s[s.len() - 3] == 'r' && s[s.len() - 2] == 'e'
        && s[s.len() - 1] == 'f'
}

/// Whether the text ends with a valid opener of an hypertext reference
/// attribute: the attribute word, an equals sign, and optionally one
/// opening quotation mark, with white space allowed in between.
pub open spec fn ends_with_href_spec(s: Seq<char>) -> bool {
    let t = trim_end_ws(s);
    if t.len() == 0 {
        false
    } else if t.last() == '\'' || t.last() == '"' {
        let t2 = trim_end_ws(t.drop_last());
        t2.len() > 0 && t2.last() == '=' && ends_with_href_word(trim_end_ws(t2.drop_last()))
    } else if t.last() == '=' {
        ends_with_href_word(trim_end_ws(t.drop_last()))
    } else {
        false
    }
}

/// Trims trailing white space from the first `upto` characters, returning
/// how many characters remain.
#[verifier::loop_isolation(false)]
fn trim_end_ws_len(text: &str, upto: usize) -> (r: usize)
    requires
        upto <= text@.len(),
    ensures
        r <= upto,
        text@.take(r as int) == trim_end_ws(text@.take(upto as int)),
        r > 0 ==> !char_is_whitespace(text@[r - 1]),
{
    let mut j: usize = upto;
    while j > 0
        invariant
            j <= upto,
            trim_end_ws(text@.take(j as int)) == trim_end_ws(text@.take(upto as int)),
        decreases j,
    {
        let c: char = text.get_char(j - 1);
        proof {
            assert(text@.take(j as int).last() == text@[j - 1]);
        }
        if is_whitespace_char(c) {
            proof {
                assert(text@.take(j as int).drop_last() =~= text@.take(j - 1));
            }
            j = j - 1;
        } else {
            proof {
                assert(trim_end_ws(text@.take(j as int)) == text@.take(j as int));
            }
            return j;
        }
    }
    proof {
        assert(text@.take(0) =~= Seq::<char>::empty());
    }
    0
}

/// Returns whether the given text ends with a valid opener of an hypertext
/// reference attribute, such as `href="`, `href ='`, or `href=`: white
/// space may stand between the word, the equals sign and the optional
/// quotation mark.
#[verifier::loop_isolation(false)]
pub fn ends_with_href(text: &str) -> (r: bool)
    ensures
        r == ends_with_href_spec(text@),
{
    let n: usize = text.unicode_len();
    let t_len: usize = trim_end_ws_len(text, n);
    proof {
        assert(text@.take(n as int) =~= text@);
    }
    if t_len == 0 {
        return false;
    }
    let ghost t: Seq<char> = trim_end_ws(text@);
    proof {
        assert(t == text@.take(t_len as int));
        assert(t.last() == text@[t_len - 1]);
    }
    let last: char = text.get_char(t_len - 1);
    let word_end: usize = if last == '\'' || last == '"' {
        proof {
            assert(text@.take(t_len as int).drop_last() =~= text@.take(t_len - 1));
        }
        let t2_len: usize = trim_end_ws_len(text, t_len - 1);
        if t2_len == 0 {
            return false;
        }
        proof {
            assert(trim_end_ws(t.drop_last()) == text@.take(t2_len as int));
            assert(text@.take(t2_len as int).last() == text@[t2_len - 1]);
        }
        let eq: char = text.get_char(t2_len - 1);
        if eq != '=' {
            return false;
        }
        proof {
            assert(text@.take(t2_len as int).drop_last() =~= text@.take(t2_len - 1));
        }
        t2_len - 1
    } else if last == '=' {
        proof {
            assert(text@.take(t_len as int).drop_last() =~= text@.take(t_len - 1));
        }
        t_len - 1
    } else {
        return false;
    };
    let w_len: usize = trim_end_ws_len(text, word_end);
    proof {
        assert(text@.take(word_end as int) =~= text@.take(word_end as int));
    }
    if w_len < 4 {
        return false;
    }
    let ghost w: Seq<char> = text@.take(w_len as int);
    proof {
        assert(w[w.len() - 4] == text@[w_len - 4]);
        assert(w[w.len() - 3] == text@[w_len - 3]);
        assert(w[w.len() - 2] == text@[w_len - 2]);
        assert(w[w.len() - 1] == text@[w_len - 1]);
    }
    let ok: bool = text.get_char(w_len - 4) == 'h' && text.get_char(w_len - 3) == 'r'
        && text.get_char(w_len - 2) == 'e' && text.get_char(w_len - 1) == 'f';
    ok
}

} // verus!
