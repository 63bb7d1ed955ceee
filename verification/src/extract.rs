//! The link extractor: scans raw text for `http`/`https` URLs and
//! returns them in the order found, duplicates included.
//!
//! A candidate starts at a literal `http://` or `https://` followed by
//! at least one URL character, and extends to the first whitespace,
//! `)` or `]`, or to the end of the text.

use vstd::prelude::*;

verus! {

/// The Unicode white-space characters.
pub open spec fn is_white_space(c: char) -> bool {
    ||| c == '\u{0009}'
    ||| c == '\u{000a}'
    ||| c == '\u{000b}'
    ||| c == '\u{000c}'
    ||| c == '\u{000d}'
    ||| c == ' '
    ||| c == '\u{0085}'
    ||| c == '\u{00a0}'
    ||| c == '\u{1680}'
    ||| c == '\u{2000}'
    ||| c == '\u{2001}'
    ||| c == '\u{2002}'
    ||| c == '\u{2003}'
    ||| c == '\u{2004}'
    ||| c == '\u{2005}'
    ||| c == '\u{2006}'
    ||| c == '\u{2007}'
    ||| c == '\u{2008}'
    ||| c == '\u{2009}'
    ||| c == '\u{200a}'
    ||| c == '\u{2028}'
    ||| c == '\u{2029}'
    ||| c == '\u{202f}'
    ||| c == '\u{205f}'
    ||| c == '\u{3000}'
}

/// Characters that end a URL candidate: any white space, `)` or `]`.
pub open spec fn is_terminator(c: char) -> bool {
    is_white_space(c) || c == ')' || c == ']'
}

/// Characters a URL candidate may contain.
pub open spec fn is_url_char(c: char) -> bool {
    !is_terminator(c)
}

pub open spec fn http_at(s: Seq<char>, i: int) -> bool {
    &&& 0 <= i
    &&& i + 7 < s.len()
    &&& s.subrange(i, i + 7) == "http://"@
    &&& is_url_char(s[i + 7])
}

pub open spec fn https_at(s: Seq<char>, i: int) -> bool {
    &&& 0 <= i
    &&& i + 8 < s.len()
    &&& s.subrange(i, i + 8) == "https://"@
    &&& is_url_char(s[i + 8])
}

/// A URL candidate starts at position `i`.
pub open spec fn link_starts_at(s: Seq<char>, i: int) -> bool {
    http_at(s, i) || https_at(s, i)
}

/// The end of the run of URL characters that starts at `i`.
pub open spec fn run_end(s: Seq<char>, i: int) -> int
    decreases s.len() - i,
        when 0 <= i <= s.len()
{
    if i >= s.len() || is_terminator(s[i]) {
        i
    } else {
        run_end(s, i + 1)
    }
}

proof fn lemma_run_end_bounds(s: Seq<char>, i: int)
    requires
        0 <= i <= s.len(),
    ensures
        i <= run_end(s, i) <= s.len(),
    decreases s.len() - i,
{
    if !(i >= s.len() || is_terminator(s[i])) {
        lemma_run_end_bounds(s, i + 1);
    }
}

proof fn lemma_link_run_advances(s: Seq<char>, i: int)
    requires
        link_starts_at(s, i),
    ensures
        i < run_end(s, i) <= s.len(),
{
    reveal_strlit("http://");
    reveal_strlit("https://");
    if http_at(s, i) {
        assert(s.subrange(i, i + 7)[0] == s[i]);
    } else {
        assert(s.subrange(i, i + 8)[0] == s[i]);
    }
    assert(s[i] == 'h');
    assert(!is_terminator('h'));
    lemma_run_end_bounds(s, i + 1);
    assert(run_end(s, i) == run_end(s, i + 1));
}

/// The candidates found from position `i` on: at each link start, take
/// the whole run of URL characters and continue past it; otherwise move
/// one character on.
pub open spec fn links_from(s: Seq<char>, i: int) -> Seq<Seq<char>>
    decreases s.len() - i,
        when 0 <= i <= s.len()
        via links_from_dec
{
    if i >= s.len() {
        Seq::empty()
    } else if link_starts_at(s, i) {
        seq![s.subrange(i, run_end(s, i))] + links_from(s, run_end(s, i))
    } else {
        links_from(s, i + 1)
    }
}

#[via_fn]
proof fn links_from_dec(s: Seq<char>, i: int) {
    if 0 <= i <= s.len() && i < s.len() && link_starts_at(s, i) {
        lemma_link_run_advances(s, i);
    }
}

/// All URL candidates in the text, in the order found.
pub open spec fn extract_model(s: Seq<char>) -> Seq<Seq<char>> {
    links_from(s, 0)
}

fn white_space_char(c: char) -> (r: bool)
    ensures
        r == is_white_space(c),
{
    c == '\u{0009}' || c == '\u{000a}' || c == '\u{000b}' || c == '\u{000c}' || c == '\u{000d}'
        || c == ' ' || c == '\u{0085}' || c == '\u{00a0}' || c == '\u{1680}' || c == '\u{2000}'
        || c == '\u{2001}' || c == '\u{2002}' || c == '\u{2003}' || c == '\u{2004}'
        || c == '\u{2005}' || c == '\u{2006}' || c == '\u{2007}' || c == '\u{2008}'
        || c == '\u{2009}' || c == '\u{200a}' || c == '\u{2028}' || c == '\u{2029}'
        || c == '\u{202f}' || c == '\u{205f}' || c == '\u{3000}'
}

fn url_char(c: char) -> (r: bool)
    ensures
        r == is_url_char(c),
{
    !(white_space_char(c) || c == ')' || c == ']')
}

fn scan_run_end(s: &str, start: usize, n: usize) -> (e: usize)
    requires
        start <= n,
        n == s@.len(),
    ensures
        e == run_end(s@, start as int),
        start <= e <= n,
{
    let mut j: usize = start;
    while j < n && url_char(s.get_char(j))
        invariant
            start <= j <= n,
            n == s@.len(),
            run_end(s@, start as int) == run_end(s@, j as int),
        decreases n - j,
    {
        j += 1;
    }
    j
}

fn scheme_check(s: &str, i: usize, n: usize) -> (r: bool)
    requires
        i < n,
        n == s@.len(),
    ensures
        r == link_starts_at(s@, i as int),
{
    proof {
        reveal_strlit("http://");
        reveal_strlit("https://");
    }
    let httpm = n - i >= 8 && s.get_char(i) == 'h' && s.get_char(i + 1) == 't' && s.get_char(
        i + 2,
    ) == 't' && s.get_char(i + 3) == 'p' && s.get_char(i + 4) == ':' && s.get_char(i + 5) == '/'
        && s.get_char(i + 6) == '/' && url_char(s.get_char(i + 7));
    let httpsm = n - i >= 9 && s.get_char(i) == 'h' && s.get_char(i + 1) == 't' && s.get_char(
        i + 2,
    ) == 't' && s.get_char(i + 3) == 'p' && s.get_char(i + 4) == 's' && s.get_char(i + 5) == ':'
        && s.get_char(i + 6) == '/' && s.get_char(i + 7) == '/' && url_char(s.get_char(i + 8));
    proof {
        if httpm {
            assert(s@.subrange(i as int, i + 7) =~= "http://"@);
        } else {
            assert(!http_at(s@, i as int)) by {
                reveal_strlit("http://");
                if http_at(s@, i as int) {
                    let sub = s@.subrange(i as int, i + 7);
                    assert(s@[i + 0] == sub[0]);
                    assert(s@[i + 1] == sub[1]);
                    assert(s@[i + 2] == sub[2]);
                    assert(s@[i + 3] == sub[3]);
                    assert(s@[i + 4] == sub[4]);
                    assert(s@[i + 5] == sub[5]);
                    assert(s@[i + 6] == sub[6]);
                }
            }
        }
        if httpsm {
            assert(s@.subrange(i as int, i + 8) =~= "https://"@);
        } else {
            assert(!https_at(s@, i as int)) by {
                reveal_strlit("https://");
                if https_at(s@, i as int) {
                    let sub = s@.subrange(i as int, i + 8);
                    assert(s@[i + 0] == sub[0]);
                    assert(s@[i + 1] == sub[1]);
                    assert(s@[i + 2] == sub[2]);
                    assert(s@[i + 3] == sub[3]);
                    assert(s@[i + 4] == sub[4]);
                    assert(s@[i + 5] == sub[5]);
                    assert(s@[i + 6] == sub[6]);
                    assert(s@[i + 7] == sub[7]);
                }
            }
        }
    }
    httpm || httpsm
}

/// Scans the text and returns every URL candidate, in order.
pub fn extract_links(text: &str) -> (r: Vec<String>)
    ensures
        r@.map_values(|s: String| s@) == extract_model(text@),
{
    let n = text.unicode_len();
    let mut r: Vec<String> = Vec::new();
    let mut i: usize = 0;
    while i < n
        invariant
            i <= n,
            n == text@.len(),
            links_from(text@, 0) == r@.map_values(|s: String| s@) + links_from(
                text@,
                i as int,
            ),
        decreases n - i,
    {
        if scheme_check(text, i, n) {
            proof {
                lemma_link_run_advances(text@, i as int);
            }
            let e = scan_run_end(text, i, n);
            let link = String::from_str(text.substring_char(i, e));
            let ghost pre = r@;
            r.push(link);
            proof {
                assert(r@.map_values(|s: String| s@) =~= pre.map_values(|s: String| s@).push(
                    text@.subrange(i as int, e as int),
                ));
                assert(links_from(text@, i as int) == seq![
                    text@.subrange(i as int, e as int),
                ] + links_from(text@, e as int));
                assert(pre.map_values(|s: String| s@) + links_from(text@, i as int) =~= r@
                    .map_values(|s: String| s@) + links_from(text@, e as int));
            }
            i = e;
        } else {
            proof {
                assert(links_from(text@, i as int) == links_from(text@, i + 1));
            }
            i += 1;
        }
    }
    proof {
        assert(links_from(text@, i as int) == Seq::<Seq<char>>::empty());
        assert(r@.map_values(|s: String| s@) + links_from(text@, i as int) =~= r@.map_values(
            |s: String| s@,
        ));
    }
    r
}

} // verus!
