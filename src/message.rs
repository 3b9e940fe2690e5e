//! Messages as the search endpoint returns them, and their parsed form.

use vstd::prelude::*;

verus! {

/// Identifies one message on the remote platform.
#[derive(Clone, Copy, Debug, PartialEq, Eq, Structural)]
pub struct MessageRef {
    pub channel_id: i64,
    pub message_id: i64,
}

/// A message of a search page whose identifiers were parsed.
#[derive(Debug)]
pub struct RawMessage {
    pub channel_id: i64,
    pub message_id: i64,
    pub content: String,
}

/// A search result entry as it comes over the wire: identifiers are text.
#[derive(Debug)]
pub struct SearchEntry {
    pub id: String,
    pub channel_id: String,
    pub content: String,
}

impl RawMessage {
    pub open spec fn key(self) -> MessageRef {
        MessageRef { channel_id: self.channel_id, message_id: self.message_id }
    }

    pub fn message_ref(&self) -> (r: MessageRef)
        ensures
            r == self.key(),
    {
        MessageRef { channel_id: self.channel_id, message_id: self.message_id }
    }

    /// Parses both identifiers of a search entry; an entry with a malformed
    /// identifier gives `None`.
    pub fn from_entry(entry: SearchEntry) -> (r: Option<RawMessage>)
        ensures
            r == entry_message(entry),
    {
        let id = parse_i64(entry.id.as_str());
        let channel = parse_i64(entry.channel_id.as_str());
        match (id, channel) {
            (Some(message_id), Some(channel_id)) => Some(
                RawMessage { channel_id, message_id, content: entry.content },
            ),
            _ => None,
        }
    }
}

pub open spec fn is_ascii_digit(c: char) -> bool {
    '0' <= c && c <= '9'
}

pub open spec fn all_digits(s: Seq<char>) -> bool {
    s.len() > 0 && forall|i: int| 0 <= i < s.len() ==> is_ascii_digit(#[trigger] s[i])
}

/// The value of a string of decimal digits.
pub open spec fn digits_value(s: Seq<char>) -> int
    decreases s.len(),
{
    if s.len() == 0 {
        0
    } else {
        digits_value(s.drop_last()) * 10 + (s.last() as u32 - '0' as u32)
    }
}

/// The value of an optional sign followed by one or more decimal digits.
pub open spec fn signed_decimal(s: Seq<char>) -> Option<int> {
    if s.len() > 0 && s[0] == '-' && all_digits(s.drop_first()) {
        Some(-digits_value(s.drop_first()))
    } else if s.len() > 0 && s[0] == '+' && all_digits(s.drop_first()) {
        Some(digits_value(s.drop_first()))
    } else if all_digits(s) {
        Some(digits_value(s))
    } else {
        None
    }
}

/// A signed decimal that fits in an `i64`.
pub open spec fn decimal_i64(s: Seq<char>) -> Option<i64> {
    match signed_decimal(s) {
        Some(v) => if i64::MIN <= v <= i64::MAX {
            Some(v as i64)
        } else {
            None
        },
        None => None,
    }
}

/// Relies on `str::parse::<i64>` (`i64::from_str`): it accepts an optional `+`
/// or `-` followed by at least one ASCII digit and nothing else, and fails when
/// the value does not fit in an `i64`.
#[verifier::external_body]
fn parse_i64(s: &str) -> (r: Option<i64>)
    ensures
        r == decimal_i64(s@),
{
    s.parse::<i64>().ok()
}

/// The parsed form of an entry, or `None` where an identifier is malformed.
pub open spec fn entry_message(e: SearchEntry) -> Option<RawMessage> {
    match (decimal_i64(e.id@), decimal_i64(e.channel_id@)) {
        (Some(message_id), Some(channel_id)) => Some(
            RawMessage { channel_id, message_id, content: e.content },
        ),
        _ => None,
    }
}

/// The parsed entries of a page, in page order, malformed ones dropped.
pub open spec fn parsed_entries(s: Seq<SearchEntry>) -> Seq<RawMessage>
    decreases s.len(),
{
    if s.len() == 0 {
        Seq::empty()
    } else {
        let rest = parsed_entries(s.drop_last());
        match entry_message(s.last()) {
            Some(m) => rest.push(m),
            None => rest,
        }
    }
}

/// Turns a page of search entries into messages, dropping the entries whose
/// identifiers do not parse rather than failing the page.
pub fn parse_page(entries: Vec<SearchEntry>) -> (r: Vec<RawMessage>)
    ensures
        r@ == parsed_entries(entries@),
{
    let ghost all = entries@;
    let mut entries = entries;
    let n: usize = entries.len();
    let mut out: Vec<RawMessage> = Vec::new();
    let mut i: usize = 0;
    while entries.len() > 0
        invariant
            all.len() == n,
            i + entries@.len() == all.len(),
            entries@ == all.subrange(i as int, all.len() as int),
            out@ == parsed_entries(all.subrange(0, i as int)),
        decreases entries@.len(),
    {
        let entry = entries.remove(0);
        proof {
            let next = all.subrange(0, i + 1);
            assert(next.drop_last() =~= all.subrange(0, i as int));
            assert(next.last() == entry);
        }
        match RawMessage::from_entry(entry) {
            Some(m) => out.push(m),
            None => {},
        }
        i = i + 1;
    }
    proof {
        assert(all.subrange(0, i as int) =~= all);
    }
    out
}

} // verus!
