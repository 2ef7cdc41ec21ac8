//! Derivation of the companion module's identifier from a trait identifier.
use vstd::prelude::*;

verus! {

/// What heck's snake-case conversion makes of a text.
pub uninterp spec fn snake_case_of(s: Seq<char>) -> Seq<char>;

/// Relies on `heck::SnakeCase::to_snake_case` for `str` (heck 0.3): a pure
/// function of the characters of its argument.
#[verifier::external_body]
fn to_snake_case(s: &str) -> (r: String)
    ensures
        r@ == snake_case_of(s@),
{
    heck::SnakeCase::to_snake_case(s)
}

/// Whether an identifier is written in raw form, escaped with `r#` so that a
/// reserved word can stand as an identifier (`r#type`).
pub open spec fn is_raw(ident: Seq<char>) -> bool {
    ident.len() >= 2 && ident[0] == 'r' && ident[1] == '#'
}

/// An identifier with its raw escape, if any, taken off.
pub open spec fn unraw_spec(ident: Seq<char>) -> Seq<char> {
    if is_raw(ident) {
        ident.subrange(2, ident.len() as int)
    } else {
        ident
    }
}

/// The fixed marker that starts every companion module's identifier.
pub open spec fn seal_prefix() -> Seq<char> {
    seq!['_', '_', 's', 'e', 'a', 'l', '_']
}

/// The companion module's identifier for a trait identifier.
pub open spec fn companion_name(ident: Seq<char>) -> Seq<char> {
    seal_prefix() + snake_case_of(unraw_spec(ident))
}

/// Takes the raw escape off an identifier: `r#type` becomes `type`, and an
/// identifier without the escape is returned as it is.
pub fn unraw(ident: &str) -> (r: String)
    ensures
        r@ == unraw_spec(ident@),
{
    let n = ident.unicode_len();
    if n >= 2 && ident.get_char(0) == 'r' && ident.get_char(1) == '#' {
        ident.substring_char(2, n).to_owned()
    } else {
        ident.to_owned()
    }
}

/// Prefixes the snake-cased form of a trait identifier with the companion
/// marker.
pub fn prefix_seal(snake: &str) -> (r: String)
    ensures
        r@ == seal_prefix() + snake@,
{
    let mut r = String::from_str("__seal_");
    proof {
        reveal_strlit("__seal_");
    }
    r.append(snake);
    r
}

/// The companion module's identifier for a trait identifier: the raw escape
/// is taken off, the rest is put in snake case and prefixed with `__seal_`.
pub fn seal_name(ident: &str) -> (r: String)
    ensures
        r@ == companion_name(ident@),
{
    let bare = unraw(ident);
    let snake = to_snake_case(bare.as_str());
    prefix_seal(snake.as_str())
}

} // verus!
