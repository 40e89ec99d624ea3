//! The cache key of a context: the SHA-256 digest of its canonical text, in
//! lower-case hexadecimal. Nothing but the context enters the key.

use vstd::prelude::*;
use vstd::string::{StringExecFns, StringSliceAdditionalSpecFns};
use vstd::utf8::encode_utf8;
use sha2::Digest;
use crate::declaration::{texts, Context, ContextView};
use crate::text::{copy_text, debug_quoted, option_debug, push_option_debug, str_debug};

verus! {

/// The lines of a list as `{:#?}` prints it: each item quoted, indented by
/// four spaces and followed by a comma.
pub open spec fn list_lines(items: Seq<Seq<char>>) -> Seq<char>
    decreases items.len(),
{
    if items.len() == 0 {
        Seq::empty()
    } else {
        list_lines(items.drop_last()) + "    "@ + str_debug(items.last()) + ",\n"@
    }
}

/// A list of strings as `{:#?}` prints it: `[]` where it is empty, else one
/// line for each item between `[` and `]`.
pub open spec fn list_debug(items: Seq<Seq<char>>) -> Seq<char> {
    if items.len() == 0 {
        "[]"@
    } else {
        "[\n"@ + list_lines(items) + "]"@
    }
}

/// The canonical text of a context: the trait or the marker `None`, the type,
/// the signatures in order, and the hint or the marker `None`, each on its
/// own labelled line.
pub open spec fn canonical(ctx: ContextView) -> Seq<char> {
    "trait="@ + option_debug(ctx.interface) + "\nself_ty="@ + ctx.self_type + "\nmethods="@
        + list_debug(ctx.signatures) + "\nprompt_hint="@ + option_debug(ctx.hint)
}

/// The SHA-256 digest of a sequence of bytes.
pub uninterp spec fn sha256_digest(data: Seq<u8>) -> Seq<u8>;

/// The lower-case hexadecimal digit of a value below sixteen.
pub open spec fn hex_digit(nibble: int) -> char {
    if nibble < 10 {
        (0x30 + nibble) as u8 as char
    } else {
        (0x57 + nibble) as u8 as char
    }
}

/// Two lower-case hexadecimal digits for each byte, the high half first.
pub open spec fn hex_lower(data: Seq<u8>) -> Seq<char> {
    Seq::new(
        2 * data.len(),
        |i: int|
            if i % 2 == 0 {
                hex_digit(data[i / 2] as int / 16)
            } else {
                hex_digit(data[i / 2] as int % 16)
            },
    )
}

/// The key of a context.
pub open spec fn key_of(ctx: ContextView) -> Seq<char> {
    hex_lower(sha256_digest(encode_utf8(canonical(ctx))))
}

/// The name of the cache entry for a key: the key with the extension `.rs`.
pub open spec fn entry_name_of(key: Seq<char>) -> Seq<char> {
    key + ".rs"@
}

/// Calls `sha2::Sha256::digest`. Trusted: that the digest depends on the
/// bytes alone, so that it can be named `sha256_digest`, and that it has 32
/// bytes.
#[verifier::external_body]
fn sha256(data: &[u8]) -> (digest: Vec<u8>)
    ensures
        digest@ == sha256_digest(data@),
        digest@.len() == 32,
{
    sha2::Sha256::digest(data).to_vec()
}

/// Calls `hex::encode`. Trusted: that it writes each byte as two digits out
/// of `0123456789abcdef`, the high half first.
#[verifier::external_body]
fn hex_encode(data: &[u8]) -> (text: String)
    ensures
        text@ == hex_lower(data@),
{
    hex::encode(data)
}

fn push_list_debug(out: &mut String, items: &Vec<String>)
    ensures
        final(out)@ == old(out)@ + list_debug(texts(items@)),
{
    if items.len() == 0 {
        out.append("[]");
        return;
    }
    let ghost all = texts(items@);
    out.append("[\n");
    let mut i: usize = 0;
    assert(list_lines(all.take(0)) =~= Seq::<char>::empty());
    assert(out@ =~= old(out)@ + "[\n"@ + list_lines(all.take(0)));
    while i < items.len()
        invariant
            i <= items.len(),
            all == texts(items@),
            out@ == old(out)@ + "[\n"@ + list_lines(all.take(i as int)),
        decreases items.len() - i,
    {
        let ghost before = out@;
        out.append("    ");
        out.append(debug_quoted(items[i].as_str()).as_str());
        out.append(",\n");
        proof {
            assert(all.take(i + 1).drop_last() =~= all.take(i as int));
            assert(all.take(i + 1).last() == items@[i as int]@);
            assert(out@ =~= old(out)@ + "[\n"@ + list_lines(all.take(i + 1)));
        }
        i = i + 1;
    }
    out.append("]");
    assert(all.take(i as int) =~= all);
    assert(out@ =~= old(out)@ + ("[\n"@ + list_lines(all) + "]"@));
}

/// Writes the canonical text of a context.
pub fn canonical_text(ctx: &Context) -> (r: String)
    ensures
        r@ == canonical(ctx@),
{
    let mut out = copy_text("trait=");
    push_option_debug(&mut out, &ctx.interface);
    out.append("\nself_ty=");
    out.append(ctx.self_type.as_str());
    out.append("\nmethods=");
    push_list_debug(&mut out, &ctx.signatures);
    out.append("\nprompt_hint=");
    push_option_debug(&mut out, &ctx.hint);
    assert(out@ =~= canonical(ctx@));
    out
}

/// Derives the cache key of a context: 64 lower-case hexadecimal digits.
pub fn derive_key(ctx: &Context) -> (key: String)
    ensures
        key@ == key_of(ctx@),
        key@.len() == 64,
{
    let text = canonical_text(ctx);
    let digest = sha256(text.as_str().as_bytes());
    hex_encode(digest.as_slice())
}

/// The name of the cache entry for a key.
pub fn entry_name(key: &str) -> (name: String)
    ensures
        name@ == entry_name_of(key@),
{
    let mut name = copy_text(key);
    name.append(".rs");
    name
}

/// Different values below sixteen have different digits.
proof fn lemma_hex_digit_injective(a: int, b: int)
    requires
        0 <= a < 16,
        0 <= b < 16,
        hex_digit(a) == hex_digit(b),
    ensures
        a == b,
{
    assert(hex_digit(a) as u32 == if a < 10 {
        0x30 + a
    } else {
        0x57 + a
    });
    assert(hex_digit(b) as u32 == if b < 10 {
        0x30 + b
    } else {
        0x57 + b
    });
}

/// The hexadecimal text loses nothing: different bytes give different texts.
pub proof fn lemma_hex_lower_injective(x: Seq<u8>, y: Seq<u8>)
    requires
        hex_lower(x) == hex_lower(y),
    ensures
        x == y,
{
    assert(hex_lower(x).len() == 2 * x.len());
    assert(hex_lower(y).len() == 2 * y.len());
    assert forall|i: int| 0 <= i < x.len() implies x[i] == y[i] by {
        assert(hex_lower(x)[2 * i] == hex_digit(x[i] as int / 16));
        assert(hex_lower(y)[2 * i] == hex_digit(y[i] as int / 16));
        assert(hex_lower(x)[2 * i + 1] == hex_digit(x[i] as int % 16));
        assert(hex_lower(y)[2 * i + 1] == hex_digit(y[i] as int % 16));
        lemma_hex_digit_injective(x[i] as int / 16, y[i] as int / 16);
        lemma_hex_digit_injective(x[i] as int % 16, y[i] as int % 16);
    }
    assert(x =~= y);
}

} // verus!
