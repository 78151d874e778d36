//! The editable filter query and the rule by which a record matches it.

use crate::record::Transaction;
use crate::text::{
    chars_of, contains_chars, contains_seq, decimal_of, decimal_string, lower_of, same_chars,
    string_of, to_lower,
};
use vstd::string::*;
use vstd::prelude::*;
use vstd::slice::slice_subrange;

verus! {

/// An ASCII hexadecimal digit, either case.
pub open spec fn is_hex_char(c: char) -> bool {
    ('0' <= c && c <= '9') || ('a' <= c && c <= 'f') || ('A' <= c && c <= 'F')
}

/// A well-formed transaction hash: `0x` followed by exactly 64 hex digits.
pub open spec fn is_hash_shaped(q: Seq<char>) -> bool {
    &&& q.len() == 66
    &&& q[0] == '0'
    &&& q[1] == 'x'
    &&& forall|i: int| 2 <= i < 66 ==> is_hex_char(#[trigger] q[i])
}

/// The match rule on lowercased text: the hash equals the query, or the
/// sender or recipient contains it, or, for a query that is not a
/// well-formed hash, the hash contains it.
pub open spec fn lowered_match(
    query: Seq<char>,
    query_is_hash: bool,
    hash: Seq<char>,
    from: Seq<char>,
    to: Option<Seq<char>>,
) -> bool {
    ||| hash == query
    ||| contains_seq(from, query)
    ||| (to is Some && contains_seq(to->0, query))
    ||| (!query_is_hash && contains_seq(hash, query))
}

/// Whether a record matches a query: an empty query matches every record;
/// otherwise the comparison is made case-insensitively.
pub open spec fn record_matches(query: Seq<char>, tx: Transaction) -> bool {
    query.len() == 0 || lowered_match(
        lower_of(query),
        is_hash_shaped(query),
        lower_of(tx.hash@),
        lower_of(tx.from@),
        match tx.to {
            Some(t) => Some(lower_of(t@)),
            None => None,
        },
    )
}

/// The abstract filter: its query, whether it is being edited, and the
/// cursor position in the query.
pub struct FilterView {
    pub query: Seq<char>,
    pub active: bool,
    pub cursor: nat,
}

/// The filter's query, edit mode and cursor.
#[derive(Debug)]
pub struct FilterState {
    query: Vec<char>,
    active: bool,
    cursor_position: usize,
}

impl View for FilterState {
    type V = FilterView;

    closed spec fn view(&self) -> FilterView {
        FilterView { query: self.query@, active: self.active, cursor: self.cursor_position as nat }
    }
}

/// Applies the match rule to text that has already been lowercased.
pub fn matches_lowered(
    query: &[char],
    query_is_hash: bool,
    hash: &[char],
    from: &[char],
    to: Option<&[char]>,
) -> (r: bool)
    ensures
        r == lowered_match(
            query@,
            query_is_hash,
            hash@,
            from@,
            match to {
                Some(t) => Some(t@),
                None => None,
            },
        ),
{
    if same_chars(hash, query) {
        return true;
    }
    if contains_chars(from, query) {
        return true;
    }
    match to {
        Some(t) => {
            if contains_chars(t, query) {
                return true;
            }
        },
        None => {},
    }
    !query_is_hash && contains_chars(hash, query)
}

impl FilterState {
    /// The cursor stands within the query: `0 <= cursor <= len(query)`.
    pub open spec fn wf(&self) -> bool {
        self@.cursor <= self@.query.len()
    }

    /// An empty, inactive filter.
    pub fn new() -> (r: Self)
        ensures
            r@.query.len() == 0,
            !r@.active,
            r@.cursor == 0,
            r.wf(),
    {
        FilterState { query: Vec::new(), active: false, cursor_position: 0 }
    }

    /// Enters edit mode with the cursor at the end of the query.
    pub fn activate(&mut self)
        requires
            old(self).wf(),
        ensures
            final(self).wf(),
            final(self)@.query == old(self)@.query,
            final(self)@.active,
            final(self)@.cursor == old(self)@.query.len(),
    {
        self.active = true;
        self.cursor_position = self.query.len();
    }

    /// Leaves edit mode, keeping the query.
    pub fn deactivate(&mut self)
        requires
            old(self).wf(),
        ensures
            final(self).wf(),
            final(self)@.query == old(self)@.query,
            !final(self)@.active,
            final(self)@.cursor == old(self)@.cursor,
    {
        self.active = false;
    }

    /// Empties the query.
    pub fn clear(&mut self)
        requires
            old(self).wf(),
        ensures
            final(self).wf(),
            final(self)@.query.len() == 0,
            final(self)@.active == old(self)@.active,
            final(self)@.cursor == 0,
    {
        self.query = Vec::new();
        self.cursor_position = 0;
    }

    /// Whether the query is being edited.
    pub fn is_active(&self) -> (r: bool)
        ensures
            r == self@.active,
    {
        self.active
    }

    /// Whether the query is non-empty.
    pub fn has_query(&self) -> (r: bool)
        ensures
            r == (self@.query.len() > 0),
    {
        self.query.len() > 0
    }

    /// The current query.
    pub fn query(&self) -> (r: String)
        ensures
            r@ == self@.query,
    {
        string_of(self.query.as_slice())
    }

    /// The cursor position, counted in characters.
    pub fn cursor_position(&self) -> (r: usize)
        ensures
            r == self@.cursor,
    {
        self.cursor_position
    }

    /// Inserts `c` at the cursor and moves the cursor past it.
    pub fn add_char(&mut self, c: char)
        requires
            old(self).wf(),
        ensures
            final(self).wf(),
            final(self)@.query == old(self)@.query.insert(old(self)@.cursor as int, c),
            final(self)@.cursor == old(self)@.cursor + 1,
            final(self)@.active == old(self)@.active,
    {
        self.query.insert(self.cursor_position, c);
        let n = self.query.len();
        assert(self.cursor_position < n);
        self.cursor_position = self.cursor_position + 1;
    }

    /// Removes the character before the cursor (backspace); nothing at the start.
    pub fn delete_char_before_cursor(&mut self)
        requires
            old(self).wf(),
        ensures
            final(self).wf(),
            old(self)@.cursor > 0 ==> final(self)@.query == old(self)@.query.remove(
                old(self)@.cursor - 1,
            ) && final(self)@.cursor == old(self)@.cursor - 1,
            old(self)@.cursor == 0 ==> final(self)@ == old(self)@,
            final(self)@.active == old(self)@.active,
    {
        if self.cursor_position > 0 {
            self.query.remove(self.cursor_position - 1);
            self.cursor_position = self.cursor_position - 1;
        }
    }

    /// Removes the character at the cursor (delete); nothing at the end.
    pub fn delete_char_at_cursor(&mut self)
        requires
            old(self).wf(),
        ensures
            final(self).wf(),
            old(self)@.cursor < old(self)@.query.len() ==> final(self)@.query == old(self)@.query.remove(old(self)@.cursor as int),
            old(self)@.cursor >= old(self)@.query.len() ==> final(self)@.query == old(self)@.query,
            final(self)@.cursor == old(self)@.cursor,
            final(self)@.active == old(self)@.active,
    {
        if self.cursor_position < self.query.len() {
            self.query.remove(self.cursor_position);
        }
    }

    /// Moves the cursor one character left, stopping at the start.
    pub fn move_cursor_left(&mut self)
        requires
            old(self).wf(),
        ensures
            final(self).wf(),
            final(self)@.query == old(self)@.query,
            final(self)@.active == old(self)@.active,
            final(self)@.cursor == if old(self)@.cursor > 0 {
                (old(self)@.cursor - 1) as nat
            } else {
                0
            },
    {
        if self.cursor_position > 0 {
            self.cursor_position = self.cursor_position - 1;
        }
    }

    /// Moves the cursor one character right, stopping at the end.
    pub fn move_cursor_right(&mut self)
        requires
            old(self).wf(),
        ensures
            final(self).wf(),
            final(self)@.query == old(self)@.query,
            final(self)@.active == old(self)@.active,
            final(self)@.cursor == if old(self)@.cursor < old(self)@.query.len() {
                old(self)@.cursor + 1
            } else {
                old(self)@.query.len()
            },
    {
        if self.cursor_position < self.query.len() {
            self.cursor_position = self.cursor_position + 1;
        }
    }

    /// Moves the cursor to the start of the query.
    pub fn move_cursor_to_start(&mut self)
        requires
            old(self).wf(),
        ensures
            final(self).wf(),
            final(self)@.query == old(self)@.query,
            final(self)@.active == old(self)@.active,
            final(self)@.cursor == 0,
    {
        self.cursor_position = 0;
    }

    /// Moves the cursor to the end of the query.
    pub fn move_cursor_to_end(&mut self)
        requires
            old(self).wf(),
        ensures
            final(self).wf(),
            final(self)@.query == old(self)@.query,
            final(self)@.active == old(self)@.active,
            final(self)@.cursor == old(self)@.query.len(),
    {
        self.cursor_position = self.query.len();
    }

    /// The query split at the cursor: the text before it, the character
    /// under it (none at the end) and the text after that character.
    pub fn cursor_parts(&self) -> (r: (String, Option<char>, String))
        requires
            self.wf(),
        ensures
            r.0@ == self@.query.subrange(0, self@.cursor as int),
            self@.cursor < self@.query.len() ==> r.1 == Some(self@.query[self@.cursor as int])
                && r.2@ == self@.query.subrange(self@.cursor + 1 as int, self@.query.len() as int),
            self@.cursor == self@.query.len() ==> r.1 is None && r.2@.len() == 0,
    {
        let c = self.cursor_position;
        let n = self.query.len();
        let before = string_of(slice_subrange(self.query.as_slice(), 0, c));
        if c < n {
            let after = string_of(slice_subrange(self.query.as_slice(), c + 1, n));
            (before, Some(self.query[c]), after)
        } else {
            (before, None, String::new())
        }
    }

    /// Whether the query is a well-formed transaction hash.
    pub fn is_transaction_hash(&self) -> (r: bool)
        ensures
            r == is_hash_shaped(self@.query),
    {
        if self.query.len() != 66 || self.query[0] != '0' || self.query[1] != 'x' {
            return false;
        }
        let mut i: usize = 2;
        while i < 66
            invariant
                self.query@.len() == 66,
                2 <= i <= 66,
                forall|j: int| 2 <= j < i ==> is_hex_char(#[trigger] self.query@[j]),
            decreases 66 - i,
        {
            let c = self.query[i];
            if !(('0' <= c && c <= '9') || ('a' <= c && c <= 'f') || ('A' <= c && c <= 'F')) {
                return false;
            }
            i = i + 1;
        }
        true
    }

    /// Whether `transaction` matches the query.
    pub fn matches(&self, transaction: &Transaction) -> (r: bool)
        ensures
            r == record_matches(self@.query, *transaction),
    {
        if self.query.len() == 0 {
            return true;
        }
        let query_is_hash = self.is_transaction_hash();
        let query_text = string_of(self.query.as_slice());
        let query = chars_of(to_lower(query_text.as_str()).as_str());
        let hash = chars_of(to_lower(transaction.hash.as_str()).as_str());
        let from = chars_of(to_lower(transaction.from.as_str()).as_str());
        match &transaction.to {
            Some(t) => {
                let to = chars_of(to_lower(t.as_str()).as_str());
                matches_lowered(
                    query.as_slice(),
                    query_is_hash,
                    hash.as_slice(),
                    from.as_slice(),
                    Some(to.as_slice()),
                )
            },
            None => matches_lowered(
                query.as_slice(),
                query_is_hash,
                hash.as_slice(),
                from.as_slice(),
                None,
            ),
        }
    }
}

/// An empty query matches every record, and a record's own hash, used as
/// the query, matches it.
pub proof fn lemma_empty_and_own_hash_match(tx: Transaction)
    ensures
        record_matches(Seq::empty(), tx),
        record_matches(tx.hash@, tx),
{
}

/// A well-formed hash that differs from a record's hash, compared
/// case-insensitively, does not match the record through its hash, not even
/// as a part of it: it matches only when the sender or recipient contains it.
pub proof fn lemma_full_hash_needs_exact_match(query: Seq<char>, tx: Transaction)
    requires
        is_hash_shaped(query),
        lower_of(query) != lower_of(tx.hash@),
        !contains_seq(lower_of(tx.from@), lower_of(query)),
        tx.to is Some ==> !contains_seq(lower_of(tx.to->0@), lower_of(query)),
    ensures
        !record_matches(query, tx),
{
}

/// Record counts for the table's title.
#[derive(Debug, Clone, Copy, PartialEq, Eq, Structural)]
pub struct FilterStats {
    pub total_transactions: usize,
    pub filtered_transactions: usize,
}

/// `N transactions` when nothing is filtered out, else `M/N transactions`.
pub open spec fn stats_text(total: usize, filtered: usize) -> Seq<char> {
    if filtered == total {
        decimal_of(total as nat) + " transactions"@
    } else {
        decimal_of(filtered as nat) + "/"@ + decimal_of(total as nat) + " transactions"@
    }
}

impl FilterStats {
    pub fn new(total: usize, filtered: usize) -> (r: Self)
        ensures
            r.total_transactions == total,
            r.filtered_transactions == filtered,
    {
        FilterStats { total_transactions: total, filtered_transactions: filtered }
    }

    /// The counts as shown in the table's title.
    pub fn display_text(&self) -> (r: String)
        ensures
            r@ == stats_text(self.total_transactions, self.filtered_transactions),
    {
        if self.filtered_transactions == self.total_transactions {
            decimal_string(self.total_transactions as u128).concat(" transactions")
        } else {
            decimal_string(self.filtered_transactions as u128).concat("/").concat(
                decimal_string(self.total_transactions as u128).as_str(),
            ).concat(" transactions")
        }
    }
}

} // verus!
