//! The CSV export: header row, one double-quoted row per item, any
//! literal double quote inside a field replaced by a single quote.

use vstd::prelude::*;
use crate::events::{Source, SourceModel};
use crate::support::push_char;

verus! {

/// A field value with every double quote replaced by a single quote.
pub open spec fn csv_escape(s: Seq<char>) -> Seq<char> {
    Seq::new(s.len(), |i: int| if s[i] == '"' { '\'' } else { s[i] })
}

/// One CSV row: the three fields double-quoted, comma separated,
/// newline terminated, every field escaped.
pub open spec fn csv_row(s: SourceModel) -> Seq<char> {
    "\""@ + csv_escape(s.url) + "\",\""@ + csv_escape(s.topic) + "\",\""@ + csv_escape(
        s.description,
    ) + "\"\n"@
}

pub open spec fn csv_rows(items: Seq<SourceModel>) -> Seq<char>
    decreases items.len(),
{
    if items.len() == 0 {
        Seq::empty()
    } else {
        csv_rows(items.drop_last()) + csv_row(items.last())
    }
}

/// The whole export: header line, then one row per item in order.
pub open spec fn csv_export_spec(items: Seq<SourceModel>) -> Seq<char> {
    "URL,TOPIC,DESCRIPTION\n"@ + csv_rows(items)
}

fn append_escaped(out: &mut String, s: &str)
    ensures
        final(out)@ == old(out)@ + csv_escape(s@),
{
    let n = s.unicode_len();
    let mut i: usize = 0;
    while i < n
        invariant
            i <= n,
            n == s@.len(),
            out@ == old(out)@ + csv_escape(s@.subrange(0, i as int)),
        decreases n - i,
    {
        let c = s.get_char(i);
        let ghost pre = out@;
        if c == '"' {
            push_char(out, '\'');
        } else {
            push_char(out, c);
        }
        proof {
            assert(out@ =~= old(out)@ + csv_escape(s@.subrange(0, i + 1)));
        }
        i += 1;
    }
    proof {
        assert(s@.subrange(0, n as int) =~= s@);
        assert(csv_escape(s@.subrange(0, n as int)) =~= csv_escape(s@));
    }
}

/// Formats the item list as the downloadable CSV document.
pub fn export_csv(items: &Vec<Source>) -> (r: String)
    ensures
        r@ == csv_export_spec(items@.map_values(|s: Source| s@)),
{
    let mut out = String::from_str("URL,TOPIC,DESCRIPTION\n");
    let mut i: usize = 0;
    while i < items.len()
        invariant
            i <= items@.len(),
            out@ == csv_export_spec(items@.map_values(|s: Source| s@).take(i as int)),
        decreases items@.len() - i,
    {
        let ghost models = items@.map_values(|s: Source| s@);
        let item = &items[i];
        out.append("\"");
        append_escaped(&mut out, item.url.as_str());
        out.append("\",\"");
        append_escaped(&mut out, item.topic.as_str());
        out.append("\",\"");
        append_escaped(&mut out, item.description.as_str());
        out.append("\"\n");
        proof {
            assert(models.take(i + 1).drop_last() =~= models.take(i as int));
            assert(models.take(i + 1).last() == items@[i as int]@);
            assert(csv_rows(models.take(i + 1)) == csv_rows(models.take(i as int)) + csv_row(
                models[i as int],
            ));
            assert(out@ =~= csv_export_spec(models.take(i + 1)));
        }
        i += 1;
    }
    proof {
        let models = items@.map_values(|s: Source| s@);
        assert(models.take(models.len() as int) =~= models);
    }
    out
}

} // verus!
