//! The orders in which albums are listed: text in the order of its characters' code points
//! (the order of Rust's `str`), with missing values after present ones.
use core::cmp::Ordering;

use vstd::prelude::*;

use crate::sorting::total_preorder;

verus! {

/// Lexicographic order of two texts by their characters.
pub open spec fn lex_order(a: Seq<char>, b: Seq<char>) -> Ordering
    decreases a.len(),
{
    if a.len() == 0 {
        if b.len() == 0 {
            Ordering::Equal
        } else {
            Ordering::Less
        }
    } else if b.len() == 0 {
        Ordering::Greater
    } else if a[0] < b[0] {
        Ordering::Less
    } else if a[0] > b[0] {
        Ordering::Greater
    } else {
        lex_order(a.drop_first(), b.drop_first())
    }
}

/// The reverse of an order.
pub open spec fn opposite(o: Ordering) -> Ordering {
    match o {
        Ordering::Less => Ordering::Greater,
        Ordering::Equal => Ordering::Equal,
        Ordering::Greater => Ordering::Less,
    }
}

/// Text order is equal exactly on equal texts, and swapping the texts reverses it.
pub proof fn lemma_lex_order_antisymmetric(a: Seq<char>, b: Seq<char>)
    ensures
        (lex_order(a, b) == Ordering::Equal) <==> a == b,
        lex_order(b, a) == opposite(lex_order(a, b)),
    decreases a.len(),
{
    if a.len() > 0 && b.len() > 0 {
        lemma_lex_order_antisymmetric(a.drop_first(), b.drop_first());
        if a[0] == b[0] && a.drop_first() == b.drop_first() {
            assert(a =~= seq![a[0]] + a.drop_first());
            assert(b =~= seq![b[0]] + b.drop_first());
        }
    } else if a.len() == 0 && b.len() == 0 {
        assert(a =~= b);
    }
}

/// Text order is transitive.
pub proof fn lemma_lex_order_transitive(a: Seq<char>, b: Seq<char>, c: Seq<char>)
    requires
        lex_order(a, b) != Ordering::Greater,
        lex_order(b, c) != Ordering::Greater,
    ensures
        lex_order(a, c) != Ordering::Greater,
        lex_order(a, b) == Ordering::Less || lex_order(b, c) == Ordering::Less ==> lex_order(a, c)
            == Ordering::Less,
    decreases a.len(),
{
    if a.len() > 0 && b.len() > 0 && c.len() > 0 {
        if a[0] == b[0] && b[0] == c[0] {
            lemma_lex_order_transitive(a.drop_first(), b.drop_first(), c.drop_first());
        }
    }
}

/// The characters of `s` from position `i` on.
pub open spec fn tail(s: Seq<char>, i: usize) -> Seq<char> {
    s.skip(i as int)
}

/// The order of two texts, as `Ord` orders `str`: lexicographically by character.
pub fn compare_text(a: &str, b: &str) -> (o: Ordering)
    ensures
        o == lex_order(a@, b@),
{
    let n = a.unicode_len();
    let m = b.unicode_len();
    let mut i: usize = 0;
    proof {
        assert(tail(a@, i) =~= a@);
        assert(tail(b@, i) =~= b@);
    }
    while i < n && i < m
        invariant
            n == a@.len(),
            m == b@.len(),
            i <= n,
            i <= m,
            tail(a@, i).len() + i == n,
            tail(b@, i).len() + i == m,
            lex_order(a@, b@) == lex_order(tail(a@, i), tail(b@, i)),
        decreases n - i,
    {
        let ca = a.get_char(i);
        let cb = b.get_char(i);
        proof {
            assert(tail(a@, i)[0] == ca);
            assert(tail(b@, i)[0] == cb);
        }
        if ca < cb {
            return Ordering::Less;
        }
        if ca > cb {
            return Ordering::Greater;
        }
        let j = i + 1;
        proof {
            assert(tail(a@, i).drop_first() =~= tail(a@, j));
            assert(tail(b@, i).drop_first() =~= tail(b@, j));
        }
        i = j;
    }
    if i == n && i == m {
        Ordering::Equal
    } else if i == n {
        Ordering::Less
    } else {
        Ordering::Greater
    }
}

/// Order of optional texts with the missing ones last.
pub open spec fn nones_last_order(a: Option<String>, b: Option<String>) -> Ordering {
    match (a, b) {
        (None, None) => Ordering::Equal,
        (None, Some(_)) => Ordering::Greater,
        (Some(_), None) => Ordering::Less,
        (Some(x), Some(y)) => lex_order(x@, y@),
    }
}

// default lexicographic sort puts None first
pub fn with_nones_last(a: &Option<String>, b: &Option<String>) -> (o: Ordering)
    ensures
        o == nones_last_order(*a, *b),
{
    match (a, b) {
        (None, None) => Ordering::Equal,
        (None, Some(_)) => Ordering::Greater,
        (Some(_), None) => Ordering::Less,
        (Some(x), Some(y)) => compare_text(x.as_str(), y.as_str()),
    }
}

/// Artist, Display Title
pub type AlbumSortKey = (Option<String>, Option<String>);

/// Albums are ordered by artist, then by title, with missing values last.
pub open spec fn album_order(a: AlbumSortKey, b: AlbumSortKey) -> Ordering {
    match nones_last_order(a.0, b.0) {
        Ordering::Equal => nones_last_order(a.1, b.1),
        unequal => unequal,
    }
}

pub fn artist_then_title_with_nones_last(a: &AlbumSortKey, b: &AlbumSortKey) -> (o: Ordering)
    ensures
        o == album_order(*a, *b),
{
    match with_nones_last(&a.0, &b.0) {
        Ordering::Equal => with_nones_last(&a.1, &b.1),
        artist_unequal => artist_unequal,
    }
}

/// Albums by artist, missing artists last, then by title.
pub open spec fn artist_then_title_order(a: (Option<String>, String), b: (Option<String>, String)) -> Ordering {
    match nones_last_order(a.0, b.0) {
        Ordering::Equal => lex_order(a.1@, b.1@),
        unequal => unequal,
    }
}

// itertools' sorted_by_key puts None first
pub fn compare_tuples_with_nones_last(
    a: &(Option<String>, String),
    b: &(Option<String>, String),
) -> (o: Ordering)
    ensures
        o == artist_then_title_order(*a, *b),
{
    match with_nones_last(&a.0, &b.0) {
        Ordering::Equal => compare_text(a.1.as_str(), b.1.as_str()),
        artist_unequal => artist_unequal,
    }
}

/// Orders of optional texts with missing ones last: equal exactly on equal values,
/// reversed by swapping, transitive.
pub proof fn lemma_nones_last_order(a: Option<String>, b: Option<String>, c: Option<String>)
    ensures
        (nones_last_order(a, b) == Ordering::Equal) <==> (match (a, b) {
            (None, None) => true,
            (Some(x), Some(y)) => x@ == y@,
            _ => false,
        }),
        nones_last_order(b, a) == opposite(nones_last_order(a, b)),
        nones_last_order(a, b) != Ordering::Greater && nones_last_order(b, c) != Ordering::Greater
            ==> nones_last_order(a, c) != Ordering::Greater,
        nones_last_order(a, b) != Ordering::Greater && nones_last_order(b, c) != Ordering::Greater
            && (nones_last_order(a, b) == Ordering::Less || nones_last_order(b, c) == Ordering::Less)
            ==> nones_last_order(a, c) == Ordering::Less,
{
    if let (Some(x), Some(y)) = (a, b) {
        lemma_lex_order_antisymmetric(x@, y@);
        if let Some(z) = c {
            if lex_order(x@, y@) != Ordering::Greater && lex_order(y@, z@) != Ordering::Greater {
                lemma_lex_order_transitive(x@, y@, z@);
            }
        }
    }
}

/// The album order is a total preorder: swapping two keys reverses it, and it is transitive.
pub proof fn lemma_album_order(a: AlbumSortKey, b: AlbumSortKey, c: AlbumSortKey)
    ensures
        album_order(b, a) == opposite(album_order(a, b)),
        album_order(a, a) == Ordering::Equal,
        album_order(a, b) != Ordering::Greater && album_order(b, c) != Ordering::Greater
            ==> album_order(a, c) != Ordering::Greater,
        album_order(a, b) == Ordering::Less && album_order(b, c) != Ordering::Greater
            ==> album_order(a, c) == Ordering::Less,
        album_order(a, b) != Ordering::Greater && album_order(b, c) == Ordering::Less
            ==> album_order(a, c) == Ordering::Less,
{
    lemma_nones_last_order(a.0, b.0, c.0);
    lemma_nones_last_order(a.1, b.1, c.1);
    lemma_nones_last_order(a.0, a.0, a.0);
    lemma_nones_last_order(a.1, a.1, a.1);
    lemma_nones_last_order(b.0, c.0, a.0);
    lemma_nones_last_order(a.0, c.0, b.0);
    lemma_nones_last_order(b.1, c.1, a.1);
    lemma_nones_last_order(a.1, c.1, b.1);
}


/// Whether an album with key `a` may be listed before one with key `b`.
pub open spec fn listed_no_later(a: AlbumSortKey, b: AlbumSortKey) -> bool {
    album_order(a, b) != Ordering::Greater
}

/// Whether albums in this order are listed by `album_order`, earlier keys first.
pub open spec fn listed_in_order(keys: Seq<AlbumSortKey>) -> bool {
    forall|i: int, j: int|
        0 <= i < j < keys.len() ==> #[trigger] listed_no_later(keys[i], keys[j])
}

/// Whether an album with key `a` may be listed before one with key `b`.
pub fn no_later(a: &AlbumSortKey, b: &AlbumSortKey) -> (r: bool)
    ensures
        r == listed_no_later(*a, *b),
{
    match artist_then_title_with_nones_last(a, b) {
        Ordering::Greater => false,
        _ => true,
    }
}

/// Listing order is total and transitive: of two keys one may go first, and a key that may
/// go before one that may go before a third may go before that third.
pub proof fn lemma_listed_no_later(a: AlbumSortKey, b: AlbumSortKey, c: AlbumSortKey)
    ensures
        listed_no_later(a, a),
        listed_no_later(a, b) || listed_no_later(b, a),
        listed_no_later(a, b) && listed_no_later(b, c) ==> listed_no_later(a, c),
{
    lemma_album_order(a, b, c);
}


/// Whether text `a` comes no later than text `b` in text order.
pub open spec fn text_no_later(a: Seq<char>, b: Seq<char>) -> bool {
    lex_order(a, b) != Ordering::Greater
}

/// Whether text `a` comes no later than text `b`, as `str` orders them.
pub fn text_le(a: &str, b: &str) -> (r: bool)
    ensures
        r == text_no_later(a@, b@),
{
    match compare_text(a, b) {
        Ordering::Greater => false,
        _ => true,
    }
}

/// Text order, as a relation.
pub open spec fn text_order() -> spec_fn(Seq<char>, Seq<char>) -> bool {
    |a: Seq<char>, b: Seq<char>| text_no_later(a, b)
}

/// Text order is a total preorder, and texts that each come no later than the other are equal.
pub proof fn lemma_text_order()
    ensures
        total_preorder(text_order()),
        forall|a: Seq<char>, b: Seq<char>|
            #[trigger] text_no_later(a, b) && text_no_later(b, a) ==> a == b,
{
    let le = text_order();
    assert forall|a: Seq<char>, b: Seq<char>| #[trigger] le(a, b) || le(b, a) by {
        lemma_lex_order_antisymmetric(a, b);
    }
    assert forall|a: Seq<char>, b: Seq<char>, c: Seq<char>|
        #[trigger] le(a, b) && #[trigger] le(b, c) implies le(a, c) by {
        lemma_lex_order_transitive(a, b, c);
    }
    assert forall|a: Seq<char>, b: Seq<char>|
        #[trigger] text_no_later(a, b) && text_no_later(b, a) implies a == b by {
        lemma_lex_order_antisymmetric(a, b);
    }
}

} // verus!
