//! The source classifier: topic from URL markers, with the local
//! heuristic as the fallback for every failure of the external
//! analysis capability.

use vstd::prelude::*;
use crate::events::{Source, SourceModel};
use crate::text::{seq_contains, contains_str};
use crate::support::push_char;

verus! {

/// ASCII whitespace, the characters the description cleaner trims.
pub open spec fn is_space(c: char) -> bool {
    c == ' ' || c == '\t' || c == '\n' || c == '\r'
}

pub open spec fn trim_front(s: Seq<char>) -> Seq<char>
    decreases s.len(),
{
    if s.len() > 0 && is_space(s[0]) {
        trim_front(s.drop_first())
    } else {
        s
    }
}

pub open spec fn trim_back(s: Seq<char>) -> Seq<char>
    decreases s.len(),
{
    if s.len() > 0 && is_space(s.last()) {
        trim_back(s.drop_last())
    } else {
        s
    }
}

/// The string with leading and trailing ASCII whitespace removed.
pub open spec fn trim_spec(s: Seq<char>) -> Seq<char> {
    trim_back(trim_front(s))
}

/// The string with every double-quote character removed.
pub open spec fn strip_quotes(s: Seq<char>) -> Seq<char>
    decreases s.len(),
{
    if s.len() == 0 {
        s
    } else if s.last() == '"' {
        strip_quotes(s.drop_last())
    } else {
        strip_quotes(s.drop_last()).push(s.last())
    }
}

/// A remote description is used trimmed and with double quotes removed.
pub open spec fn cleaned(s: Seq<char>) -> Seq<char> {
    strip_quotes(trim_spec(s))
}

/// The topic the marker heuristic assigns to a URL.
pub open spec fn topic_of(url: Seq<char>) -> Seq<char> {
    if seq_contains(url, "gov"@) {
        "GOVERNMENT"@
    } else if seq_contains(url, "edu"@) {
        "ACADEMIA"@
    } else {
        "OPEN DATA"@
    }
}

/// The fixed description of a heuristically classified item.
pub open spec fn generic_description() -> Seq<char> {
    "Recurso detectado mediante rastreo profundo."@
}

/// What the local heuristic returns for a URL.
pub open spec fn heuristic_model(url: Seq<char>) -> SourceModel {
    SourceModel { url: url, topic: topic_of(url), description: generic_description() }
}

/// A credential is usable only when it is at least ten characters long.
pub open spec fn credential_usable_spec(key: Seq<char>) -> bool {
    key.len() >= 10
}

/// What `classify` returns: the remote description (cleaned) when a
/// usable credential produced one, else the heuristic result.
pub open spec fn classify_model(
    key: Seq<char>,
    url: Seq<char>,
    remote: Option<Seq<char>>,
) -> SourceModel {
    if !credential_usable_spec(key) || remote is None {
        heuristic_model(url)
    } else {
        SourceModel { url: url, topic: topic_of(url), description: cleaned(remote->0) }
    }
}

/// Whether the configured credential is plausible enough to try the
/// external analysis service.
pub fn credential_usable(key: &str) -> (r: bool)
    ensures
        r == credential_usable_spec(key@),
{
    key.unicode_len() >= 10
}

fn topic_for(url: &str) -> (r: String)
    ensures
        r@ == topic_of(url@),
{
    if contains_str(url, "gov") {
        String::from_str("GOVERNMENT")
    } else if contains_str(url, "edu") {
        String::from_str("ACADEMIA")
    } else {
        String::from_str("OPEN DATA")
    }
}

/// The local heuristic classifier: marker topics and a fixed
/// description. It never fails.
pub fn classify_local(url: &str) -> (s: Source)
    ensures
        s@ == heuristic_model(url@),
{
    Source {
        url: String::from_str(url),
        topic: topic_for(url),
        description: String::from_str("Recurso detectado mediante rastreo profundo."),
    }
}

/// Removes leading and trailing ASCII whitespace.
fn trim_str(s: &str) -> (r: String)
    ensures
        r@ == trim_spec(s@),
{
    let n = s.unicode_len();
    proof {
        assert(s@.subrange(0, n as int) =~= s@);
    }
    let mut lo: usize = 0;
    while lo < n && space_char(s.get_char(lo))
        invariant
            lo <= n,
            n == s@.len(),
            trim_front(s@) == trim_front(s@.subrange(lo as int, n as int)),
        decreases n - lo,
    {
        proof {
            assert(s@.subrange(lo as int, n as int).drop_first() =~= s@.subrange(
                lo + 1,
                n as int,
            ));
        }
        lo += 1;
    }
    proof {
        if lo < n {
            assert(trim_front(s@) == s@.subrange(lo as int, n as int));
        } else {
            assert(s@.subrange(lo as int, n as int).len() == 0);
            assert(trim_front(s@) == s@.subrange(lo as int, n as int));
        }
    }
    let mut hi: usize = n;
    while hi > lo && space_char(s.get_char(hi - 1))
        invariant
            lo <= hi <= n,
            n == s@.len(),
            trim_front(s@) == s@.subrange(lo as int, n as int),
            trim_back(s@.subrange(lo as int, n as int)) == trim_back(
                s@.subrange(lo as int, hi as int),
            ),
        decreases hi,
    {
        proof {
            assert(s@.subrange(lo as int, hi as int).drop_last() =~= s@.subrange(
                lo as int,
                hi - 1,
            ));
            assert(s@.subrange(lo as int, hi as int).last() == s@[hi - 1]);
        }
        hi -= 1;
    }
    proof {
        if hi > lo {
            assert(s@.subrange(lo as int, hi as int).last() == s@[hi - 1]);
            assert(trim_back(s@.subrange(lo as int, hi as int)) == s@.subrange(
                lo as int,
                hi as int,
            ));
        } else {
            assert(s@.subrange(lo as int, hi as int).len() == 0);
            assert(trim_back(s@.subrange(lo as int, hi as int)) == s@.subrange(
                lo as int,
                hi as int,
            ));
        }
    }
    let part = s.substring_char(lo, hi);
    String::from_str(part)
}

fn space_char(c: char) -> (r: bool)
    ensures
        r == is_space(c),
{
    c == ' ' || c == '\t' || c == '\n' || c == '\r'
}

/// Removes every double-quote character.
fn remove_quotes(s: &str) -> (r: String)
    ensures
        r@ == strip_quotes(s@),
{
    let n = s.unicode_len();
    let mut r = String::new();
    let mut i: usize = 0;
    while i < n
        invariant
            i <= n,
            n == s@.len(),
            r@ == strip_quotes(s@.subrange(0, i as int)),
        decreases n - i,
    {
        let c = s.get_char(i);
        proof {
            assert(s@.subrange(0, i + 1).drop_last() =~= s@.subrange(0, i as int));
            assert(s@.subrange(0, i + 1).last() == s@[i as int]);
        }
        if c != '"' {
            push_char(&mut r, c);
        }
        i += 1;
    }
    proof {
        assert(s@.subrange(0, n as int) =~= s@);
    }
    r
}

/// Cleans a remote description: trim, then remove double quotes.
pub fn clean_description(s: &str) -> (r: String)
    ensures
        r@ == cleaned(s@),
{
    let t = trim_str(s);
    remove_quotes(t.as_str())
}

/// The classifier. `remote_description` is what the external analysis
/// capability returned for this URL, or `None` when it was not
/// configured, not tried, or failed in any way; every failure falls
/// back to the local heuristic, so classification itself never fails.
pub fn classify(key: &str, url: &str, remote_description: Option<String>) -> (s: Source)
    ensures
        s@ == classify_model(
            key@,
            url@,
            match remote_description {
                Option::Some(d) => Option::Some(d@),
                Option::None => Option::None,
            },
        ),
{
    if !credential_usable(key) {
        return classify_local(url);
    }
    match remote_description {
        Option::Some(d) => Source {
            url: String::from_str(url),
            topic: topic_for(url),
            description: clean_description(d.as_str()),
        },
        Option::None => classify_local(url),
    }
}

} // verus!
