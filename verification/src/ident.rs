//! What counts as an identifier that can name a type.
//!
//! The grammar is decided here: the first character starts an identifier,
//! every later one continues it, and the whole is neither `_` alone nor a
//! keyword. For an ASCII character the rule is written out; for any other
//! character the Unicode tables of the `unicode-ident` crate are asked.
use crate::text::text_is;
use vstd::prelude::*;

verus! {

/// Whether a character has the Unicode property XID_Start, by the tables of
/// `unicode_ident::is_xid_start`. Nothing else is known of it here.
pub uninterp spec fn xid_start(c: char) -> bool;

/// Whether a character has the Unicode property XID_Continue, by the tables
/// of `unicode_ident::is_xid_continue`. Nothing else is known of it here.
pub uninterp spec fn xid_continue(c: char) -> bool;

/// Calls `unicode_ident::is_xid_start`.
///
/// Not proved: that the answer is the one named `xid_start`, which only gives
/// the lookup in the crate's tables a name. The lookup reads constant tables
/// and returns for every character.
#[verifier::external_body]
pub(crate) fn is_xid_start(c: char) -> (ok: bool)
    ensures
        ok == xid_start(c),
{
    unicode_ident::is_xid_start(c)
}

/// Calls `unicode_ident::is_xid_continue`.
///
/// Not proved: that the answer is the one named `xid_continue`, which only
/// gives the lookup in the crate's tables a name. The lookup reads constant
/// tables and returns for every character.
#[verifier::external_body]
pub(crate) fn is_xid_continue(c: char) -> (ok: bool)
    ensures
        ok == xid_continue(c),
{
    unicode_ident::is_xid_continue(c)
}

/// Whether a character is in the ASCII range.
pub open spec fn is_ascii(c: char) -> bool {
    c <= '\u{7f}'
}

/// Whether a character is an ASCII letter.
pub open spec fn is_letter(c: char) -> bool {
    'a' <= c <= 'z' || 'A' <= c <= 'Z'
}

/// Whether a character is an ASCII digit.
pub open spec fn is_digit(c: char) -> bool {
    '0' <= c <= '9'
}

/// Whether a character can start an identifier, given what the tables say of
/// it: an underscore, an ASCII letter, or a character beyond ASCII that the
/// tables let start one.
pub open spec fn may_start(c: char, by_tables: bool) -> bool {
    c == '_' || if is_ascii(c) {
        is_letter(c)
    } else {
        by_tables
    }
}

/// Whether a character can continue an identifier, given what the tables say
/// of it: an underscore, an ASCII letter or digit, or a character beyond
/// ASCII that the tables let continue one.
pub open spec fn may_continue(c: char, by_tables: bool) -> bool {
    if is_ascii(c) {
        c == '_' || is_letter(c) || is_digit(c)
    } else {
        by_tables
    }
}

/// Whether a text is a keyword, strict or reserved, and so names nothing.
pub open spec fn is_keyword(text: Seq<char>) -> bool {
    ||| text == "abstract"@
    ||| text == "as"@
    ||| text == "async"@
    ||| text == "await"@
    ||| text == "become"@
    ||| text == "box"@
    ||| text == "break"@
    ||| text == "const"@
    ||| text == "continue"@
    ||| text == "crate"@
    ||| text == "do"@
    ||| text == "dyn"@
    ||| text == "else"@
    ||| text == "enum"@
    ||| text == "extern"@
    ||| text == "false"@
    ||| text == "final"@
    ||| text == "fn"@
    ||| text == "for"@
    ||| text == "if"@
    ||| text == "impl"@
    ||| text == "in"@
    ||| text == "let"@
    ||| text == "loop"@
    ||| text == "macro"@
    ||| text == "match"@
    ||| text == "mod"@
    ||| text == "move"@
    ||| text == "mut"@
    ||| text == "override"@
    ||| text == "priv"@
    ||| text == "pub"@
    ||| text == "ref"@
    ||| text == "return"@
    ||| text == "self"@
    ||| text == "Self"@
    ||| text == "static"@
    ||| text == "struct"@
    ||| text == "super"@
    ||| text == "trait"@
    ||| text == "true"@
    ||| text == "try"@
    ||| text == "type"@
    ||| text == "typeof"@
    ||| text == "unsafe"@
    ||| text == "unsized"@
    ||| text == "use"@
    ||| text == "virtual"@
    ||| text == "where"@
    ||| text == "while"@
    ||| text == "yield"@
}

/// Whether a text is an identifier that can name a type: not empty, a
/// character that starts an identifier followed by characters that continue
/// one, not `_` alone and no keyword. Blank space, comments, punctuation and
/// the `r#` of a raw identifier are no part of one.
pub open spec fn is_identifier(text: Seq<char>) -> bool {
    &&& text.len() > 0
    &&& may_start(text[0], xid_start(text[0]))
    &&& forall|i: int|
        0 < i < text.len() ==> may_continue(#[trigger] text[i], xid_continue(text[i]))
    &&& !(text.len() == 1 && text[0] == '_')
    &&& !is_keyword(text)
}

/// Decides whether a character can start an identifier, given the answer of
/// the tables for it.
pub fn starts_name(c: char, by_tables: bool) -> (ok: bool)
    ensures
        ok == may_start(c, by_tables),
{
    if c == '_' {
        true
    } else if c <= '\u{7f}' {
        ('a' <= c && c <= 'z') || ('A' <= c && c <= 'Z')
    } else {
        by_tables
    }
}

/// Decides whether a character can continue an identifier, given the answer
/// of the tables for it.
pub fn continues_name(c: char, by_tables: bool) -> (ok: bool)
    ensures
        ok == may_continue(c, by_tables),
{
    if c <= '\u{7f}' {
        c == '_' || ('a' <= c && c <= 'z') || ('A' <= c && c <= 'Z') || ('0' <= c && c <= '9')
    } else {
        by_tables
    }
}

/// Decides whether a text is a keyword.
pub fn keyword(text: &str) -> (found: bool)
    ensures
        found == is_keyword(text@),
{
    let text = String::from_str(text);
    text_is(&text, "abstract")
        || text_is(&text, "as")
        || text_is(&text, "async")
        || text_is(&text, "await")
        || text_is(&text, "become")
        || text_is(&text, "box")
        || text_is(&text, "break")
        || text_is(&text, "const")
        || text_is(&text, "continue")
        || text_is(&text, "crate")
        || text_is(&text, "do")
        || text_is(&text, "dyn")
        || text_is(&text, "else")
        || text_is(&text, "enum")
        || text_is(&text, "extern")
        || text_is(&text, "false")
        || text_is(&text, "final")
        || text_is(&text, "fn")
        || text_is(&text, "for")
        || text_is(&text, "if")
        || text_is(&text, "impl")
        || text_is(&text, "in")
        || text_is(&text, "let")
        || text_is(&text, "loop")
        || text_is(&text, "macro")
        || text_is(&text, "match")
        || text_is(&text, "mod")
        || text_is(&text, "move")
        || text_is(&text, "mut")
        || text_is(&text, "override")
        || text_is(&text, "priv")
        || text_is(&text, "pub")
        || text_is(&text, "ref")
        || text_is(&text, "return")
        || text_is(&text, "self")
        || text_is(&text, "Self")
        || text_is(&text, "static")
        || text_is(&text, "struct")
        || text_is(&text, "super")
        || text_is(&text, "trait")
        || text_is(&text, "true")
        || text_is(&text, "try")
        || text_is(&text, "type")
        || text_is(&text, "typeof")
        || text_is(&text, "unsafe")
        || text_is(&text, "unsized")
        || text_is(&text, "use")
        || text_is(&text, "virtual")
        || text_is(&text, "where")
        || text_is(&text, "while")
        || text_is(&text, "yield")
}

/// Decides whether a text is an identifier that can name a type.
pub fn identifier(text: &str) -> (ok: bool)
    ensures
        ok == is_identifier(text@),
{
    let length = text.unicode_len();
    if length == 0 {
        return false;
    }
    let first = text.get_char(0);
    if !starts_name(first, is_xid_start(first)) {
        return false;
    }
    if length == 1 && first == '_' {
        return false;
    }
    let mut i: usize = 1;
    while i < length
        invariant
            1 <= i <= length,
            length == text@.len(),
            forall|k: int|
                0 < k < i ==> may_continue(#[trigger] text@[k], xid_continue(text@[k])),
        decreases length - i,
    {
        let c = text.get_char(i);
        if !continues_name(c, is_xid_continue(c)) {
            return false;
        }
        i = i + 1;
    }
    !keyword(text)
}

} // verus!
