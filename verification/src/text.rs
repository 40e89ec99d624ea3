//! Small helpers on strings, stated over their character sequences.

use vstd::prelude::*;
use vstd::string::StringExecFns;

verus! {

/// `acc` followed by `piece`, with one space between them when both are
/// non-empty. An empty piece leaves `acc` as it is.
pub open spec fn append_piece(acc: Seq<char>, piece: Seq<char>) -> Seq<char> {
    if piece.len() == 0 {
        acc
    } else if acc.len() == 0 {
        piece
    } else {
        acc + seq![' '] + piece
    }
}

/// `acc` followed by each of the pieces in order.
pub open spec fn append_all(acc: Seq<char>, pieces: Seq<Seq<char>>) -> Seq<char>
    decreases pieces.len(),
{
    if pieces.len() == 0 {
        acc
    } else {
        append_piece(append_all(acc, pieces.drop_last()), pieces.last())
    }
}

/// The non-empty pieces in order, separated by single spaces.
pub open spec fn join_pieces(pieces: Seq<Seq<char>>) -> Seq<char> {
    append_all(Seq::empty(), pieces)
}

/// Appending one more piece after the others.
pub proof fn lemma_append_all_push(acc: Seq<char>, pieces: Seq<Seq<char>>, piece: Seq<char>)
    ensures
        append_all(acc, pieces.push(piece)) == append_piece(append_all(acc, pieces), piece),
{
    assert(pieces.push(piece).drop_last() =~= pieces);
}

/// Appending two lists of pieces one after the other appends their
/// concatenation.
pub proof fn lemma_append_all_concat(acc: Seq<char>, a: Seq<Seq<char>>, b: Seq<Seq<char>>)
    ensures
        append_all(acc, a + b) == append_all(append_all(acc, a), b),
    decreases b.len(),
{
    if b.len() == 0 {
        assert(a + b =~= a);
    } else {
        assert((a + b).drop_last() =~= a + b.drop_last());
        lemma_append_all_concat(acc, a, b.drop_last());
    }
}

/// Appending two pieces.
pub proof fn lemma_append_two(acc: Seq<char>, a: Seq<char>, b: Seq<char>)
    ensures
        append_all(acc, seq![a, b]) == append_piece(append_piece(acc, a), b),
{
    let none = Seq::<Seq<char>>::empty();
    lemma_append_all_push(acc, none, a);
    lemma_append_all_push(acc, none.push(a), b);
    assert(seq![a, b] =~= none.push(a).push(b));
}

/// Appends `piece` to `out`, separated by a space unless one of them is empty.
pub fn push_piece(out: &mut String, piece: &str)
    ensures
        final(out)@ == append_piece(old(out)@, piece@),
{
    if piece.is_empty() {
        return;
    }
    if !out.as_str().is_empty() {
        out.append(" ");
        proof {
            reveal_strlit(" ");
            assert(" "@ =~= seq![' ']);
        }
    }
    out.append(piece);
}

/// Whether two strings hold the same characters.
pub fn same_text(a: &str, b: &str) -> (r: bool)
    ensures
        r == (a@ == b@),
{
    let x = a.to_owned();
    let y = b.to_owned();
    x == y
}

/// A fresh copy of `s`.
pub fn copy_text(s: &str) -> (r: String)
    ensures
        r@ == s@,
{
    s.to_owned()
}

/// The character of a decimal digit.
pub open spec fn digit_char(d: nat) -> char {
    (0x30 + d) as u8 as char
}

/// A number written in decimal, without sign or leading zeros.
pub open spec fn decimal(n: nat) -> Seq<char>
    decreases n,
{
    if n < 10 {
        seq![digit_char(n)]
    } else {
        decimal(n / 10).push(digit_char(n % 10))
    }
}

fn digit_text(d: u64) -> (r: &'static str)
    requires
        d < 10,
    ensures
        r@ == seq![digit_char(d as nat)],
{
    proof {
        reveal_strlit("0");
        reveal_strlit("1");
        reveal_strlit("2");
        reveal_strlit("3");
        reveal_strlit("4");
        reveal_strlit("5");
        reveal_strlit("6");
        reveal_strlit("7");
        reveal_strlit("8");
        reveal_strlit("9");
    }
    let r = if d == 0 {
        "0"
    } else if d == 1 {
        "1"
    } else if d == 2 {
        "2"
    } else if d == 3 {
        "3"
    } else if d == 4 {
        "4"
    } else if d == 5 {
        "5"
    } else if d == 6 {
        "6"
    } else if d == 7 {
        "7"
    } else if d == 8 {
        "8"
    } else {
        "9"
    };
    assert(r@ =~= seq![digit_char(d as nat)]);
    r
}

/// Writes `n` in decimal.
pub fn decimal_text(n: u64) -> (r: String)
    ensures
        r@ == decimal(n as nat),
    decreases n,
{
    if n < 10 {
        copy_text(digit_text(n))
    } else {
        let mut r = decimal_text(n / 10);
        r.append(digit_text(n % 10));
        assert(r@ =~= decimal((n / 10) as nat).push(digit_char((n % 10) as nat)));
        r
    }
}

/// Whether a character has the Unicode property `White_Space`, as
/// `char::is_whitespace` reports it.
pub uninterp spec fn is_white_space(c: char) -> bool;

/// Calls `char::is_whitespace`. Trusted: that the answer depends on the
/// character alone, so that it can be named `is_white_space`.
#[verifier::external_body]
pub(crate) fn char_is_white_space(c: char) -> (r: bool)
    ensures
        r == is_white_space(c),
{
    c.is_whitespace()
}

/// A string as `Debug` prints it: between double quotes, with the characters
/// that need it escaped.
pub uninterp spec fn str_debug(s: Seq<char>) -> Seq<char>;

/// Formats a string with `{:?}`. Trusted: that the text depends on the
/// string alone, so that it can be named `str_debug`.
#[verifier::external_body]
pub(crate) fn debug_quoted(s: &str) -> (r: String)
    ensures
        r@ == str_debug(s@),
{
    format!("{:?}", s)
}

/// An optional string as `Debug` prints it: `None`, or `Some(..)` around the
/// quoted string.
pub open spec fn option_debug(o: Option<Seq<char>>) -> Seq<char> {
    match o {
        None => "None"@,
        Some(s) => "Some("@ + str_debug(s) + ")"@,
    }
}

/// Appends an optional string as `Debug` prints it.
pub fn push_option_debug(out: &mut String, o: &Option<String>)
    ensures
        final(out)@ == old(out)@ + option_debug(
            match *o {
                Some(s) => Some(s@),
                None => None,
            },
        ),
{
    match o {
        None => {
            out.append("None");
        },
        Some(s) => {
            out.append("Some(");
            out.append(debug_quoted(s.as_str()).as_str());
            out.append(")");
            assert(out@ =~= old(out)@ + ("Some("@ + str_debug(s@) + ")"@));
        },
    }
}

} // verus!
