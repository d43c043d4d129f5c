//! The individual field checks, each as a spec-level predicate with an
//! executable checker proved equivalent to it.

use vstd::prelude::*;

use crate::metadata::Creator;
use crate::metadata::CreatorView;
use crate::metadata::creators_view;

verus! {

/// Longest accepted name, in characters.
pub const MAX_NAME_LENGTH: usize = 32;

/// Longest accepted symbol, in characters.
pub const MAX_SYMBOL_LENGTH: usize = 10;

/// Largest accepted royalty, in basis points (100% = 10000).
pub const MAX_SELLER_FEE_BASIS_POINTS: u16 = 10000;

/// A name is valid when it is non-empty and at most
/// [`MAX_NAME_LENGTH`] characters long.
pub open spec fn valid_name(s: Seq<char>) -> bool {
    0 < s.len() <= MAX_NAME_LENGTH
}

/// A symbol is valid when it is at most [`MAX_SYMBOL_LENGTH`]
/// characters long; it may be empty.
pub open spec fn valid_symbol(s: Seq<char>) -> bool {
    s.len() <= MAX_SYMBOL_LENGTH
}

/// A royalty is valid when it does not exceed
/// [`MAX_SELLER_FEE_BASIS_POINTS`].
pub open spec fn valid_seller_fee_basis_points(basis_points: u16) -> bool {
    basis_points <= MAX_SELLER_FEE_BASIS_POINTS
}

/// Checks the naming rule.
pub fn check_name(name: &str) -> (r: bool)
    ensures
        r == valid_name(name@),
{
    let n = name.unicode_len();
    0 < n && n <= MAX_NAME_LENGTH
}

/// Checks the symbol rule.
pub fn check_symbol(symbol: &str) -> (r: bool)
    ensures
        r == valid_symbol(symbol@),
{
    symbol.unicode_len() <= MAX_SYMBOL_LENGTH
}

/// Checks the royalty range.
pub fn check_seller_fee_basis_points(basis_points: u16) -> (r: bool)
    ensures
        r == valid_seller_fee_basis_points(basis_points),
{
    basis_points <= MAX_SELLER_FEE_BASIS_POINTS
}

/// Character-wise string equality, related to the views.
fn str_eq(a: &str, b: &str) -> (r: bool)
    ensures
        r == (a@ == b@),
{
    let n = a.unicode_len();
    if n != b.unicode_len() {
        return false;
    }
    let mut i: usize = 0;
    while i < n
        invariant
            n == a@.len(),
            n == b@.len(),
            i <= n,
            forall|j: int| 0 <= j < i ==> a@[j] == b@[j],
        decreases n - i,
    {
        if a.get_char(i) != b.get_char(i) {
            return false;
        }
        i += 1;
    }
    proof {
        assert(a@ =~= b@);
    }
    true
}

/// The controlled vocabulary for `properties.category`.
pub open spec fn valid_category(s: Seq<char>) -> bool {
    ||| s == "image"@
    ||| s == "video"@
    ||| s == "audio"@
    ||| s == "vr"@
    ||| s == "html"@
}

/// Checks membership in the category vocabulary.
pub fn check_category(category: &str) -> (r: bool)
    ensures
        r == valid_category(category@),
{
    str_eq(category, "image") || str_eq(category, "video") || str_eq(category, "audio")
        || str_eq(category, "vr") || str_eq(category, "html")
}

/// A letter of the ASCII alphabet.
pub open spec fn is_letter(c: char) -> bool {
    ('a' <= c && c <= 'z') || ('A' <= c && c <= 'Z')
}

/// An ASCII digit.
pub open spec fn is_digit(c: char) -> bool {
    '0' <= c && c <= '9'
}

/// A character allowed in a URL scheme.
pub open spec fn is_scheme_char(c: char) -> bool {
    is_letter(c) || is_digit(c) || c == '+' || c == '-' || c == '.'
}

/// A character allowed anywhere in a URL: nothing at or below the
/// space character, so no blanks and no controls.
pub open spec fn is_url_char(c: char) -> bool {
    ' ' < c
}

/// `s` reads `<scheme>://<rest>` with the scheme ending at position
/// `i` and `<rest>` non-empty.
pub open spec fn url_split_at(s: Seq<char>, i: int) -> bool {
    &&& 0 < i
    &&& i + 3 < s.len()
    &&& is_letter(s[0])
    &&& (forall|j: int| 0 <= j < i ==> is_scheme_char(s[j]))
    &&& s[i] == ':'
    &&& s[i + 1] == '/'
    &&& s[i + 2] == '/'
}

/// A URL is syntactically valid when it reads `<scheme>://<rest>`
/// with a non-empty `<rest>`, the scheme starting with a letter and
/// made of letters, digits, `+`, `-` and `.`, and no character of the
/// whole URL being a blank or a control character.
pub open spec fn valid_url(s: Seq<char>) -> bool {
    &&& (exists|i: int| url_split_at(s, i))
    &&& (forall|j: int| 0 <= j < s.len() ==> is_url_char(s[j]))
}

/// Exec mirror of [`is_letter`].
fn letter(c: char) -> (r: bool)
    ensures
        r == is_letter(c),
{
    ('a' <= c && c <= 'z') || ('A' <= c && c <= 'Z')
}

/// Exec mirror of [`is_scheme_char`].
fn scheme_char(c: char) -> (r: bool)
    ensures
        r == is_scheme_char(c),
{
    ('a' <= c && c <= 'z') || ('A' <= c && c <= 'Z') || ('0' <= c && c <= '9') || c == '+'
        || c == '-' || c == '.'
}

/// Scans for the first colon.  A `Some(i)` answer says that position
/// `i` holds the first colon and everything before it is a
/// well-formed scheme; a `None` answer says no split can exist.
fn find_scheme_end(url: &str, n: usize) -> (r: Option<usize>)
    requires
        n == url@.len(),
    ensures
        match r {
            Some(i) => {
                &&& 0 < i < n
                &&& url@[i as int] == ':'
                &&& is_letter(url@[0])
                &&& (forall|k: int| 0 <= k < i ==> is_scheme_char(url@[k]) && url@[k] != ':')
            },
            None => forall|i: int| !url_split_at(url@, i),
        },
{
    if n == 0 {
        return None;
    }
    if !letter(url.get_char(0)) {
        return None;
    }
    let mut i: usize = 1;
    while i < n
        invariant
            n == url@.len(),
            1 <= i <= n,
            is_letter(url@[0]),
            forall|k: int| 0 <= k < i ==> is_scheme_char(url@[k]) && url@[k] != ':',
        decreases n - i,
    {
        let c = url.get_char(i);
        if c == ':' {
            return Some(i);
        }
        if !scheme_char(c) {
            proof {
                assert forall|ii: int| !url_split_at(url@, ii) by {
                    if url_split_at(url@, ii) {
                        if ii <= i {
                            assert(url@[ii] == ':');
                        } else {
                            assert(is_scheme_char(url@[i as int]));
                        }
                    }
                }
            }
            return None;
        }
        i += 1;
    }
    proof {
        assert forall|ii: int| !url_split_at(url@, ii) by {
            if url_split_at(url@, ii) {
                assert(url@[ii] == ':');
            }
        }
    }
    None
}

/// Checks the URL syntax rule.
pub fn check_url(url: &str) -> (r: bool)
    ensures
        r == valid_url(url@),
{
    let n = url.unicode_len();
    let mut j: usize = 0;
    while j < n
        invariant
            n == url@.len(),
            j <= n,
            forall|k: int| 0 <= k < j ==> is_url_char(url@[k]),
        decreases n - j,
    {
        let c = url.get_char(j);
        if !(' ' < c) {
            return false;
        }
        j += 1;
    }
    match find_scheme_end(url, n) {
        None => false,
        Some(i) => {
            if n - i > 3 && url.get_char(i + 1) == '/' && url.get_char(i + 2) == '/' {
                proof {
                    assert(url_split_at(url@, i as int));
                }
                true
            } else {
                proof {
                    assert forall|ii: int| !url_split_at(url@, ii) by {
                        if url_split_at(url@, ii) {
                            if ii < i {
                                assert(url@[ii] == ':');
                            } else if ii > i {
                                assert(is_scheme_char(url@[i as int]));
                            }
                        }
                    }
                }
                false
            }
        },
    }
}

/// Shortest accepted creator address, in characters.
pub const MIN_ADDRESS_LENGTH: usize = 32;

/// Longest accepted creator address, in characters.
pub const MAX_ADDRESS_LENGTH: usize = 44;

/// A character of the base-58 alphabet (no `0`, `O`, `I` or `l`).
pub open spec fn is_base58_char(c: char) -> bool {
    ||| ('1' <= c && c <= '9')
    ||| ('A' <= c && c <= 'H')
    ||| ('J' <= c && c <= 'N')
    ||| ('P' <= c && c <= 'Z')
    ||| ('a' <= c && c <= 'k')
    ||| ('m' <= c && c <= 'z')
}

/// A creator address is well-formed when it is between
/// [`MIN_ADDRESS_LENGTH`] and [`MAX_ADDRESS_LENGTH`] characters of
/// the base-58 alphabet.
pub open spec fn valid_address(s: Seq<char>) -> bool {
    &&& MIN_ADDRESS_LENGTH <= s.len() <= MAX_ADDRESS_LENGTH
    &&& (forall|j: int| 0 <= j < s.len() ==> is_base58_char(s[j]))
}

/// Every creator of the sequence has a well-formed address.
pub open spec fn valid_addresses(cs: Seq<CreatorView>) -> bool {
    forall|k: int| 0 <= k < cs.len() ==> valid_address(cs[k].address)
}

/// Checks one address against the well-formedness rule.
pub fn check_address(address: &str) -> (r: bool)
    ensures
        r == valid_address(address@),
{
    let n = address.unicode_len();
    if n < MIN_ADDRESS_LENGTH || n > MAX_ADDRESS_LENGTH {
        return false;
    }
    let mut i: usize = 0;
    while i < n
        invariant
            n == address@.len(),
            i <= n,
            forall|k: int| 0 <= k < i ==> is_base58_char(address@[k]),
        decreases n - i,
    {
        let c = address.get_char(i);
        if !(('1' <= c && c <= '9') || ('A' <= c && c <= 'H') || ('J' <= c && c <= 'N')
            || ('P' <= c && c <= 'Z') || ('a' <= c && c <= 'k') || ('m' <= c && c <= 'z')) {
            return false;
        }
        i += 1;
    }
    true
}

/// Checks every creator address.
pub fn check_creators_addresses(creators: &Vec<Creator>) -> (r: bool)
    ensures
        r == valid_addresses(creators_view(*creators)),
{
    let n = creators.len();
    let mut i: usize = 0;
    while i < n
        invariant
            n == creators@.len(),
            i <= n,
            forall|k: int| 0 <= k < i ==> valid_address(creators_view(*creators)[k].address),
        decreases n - i,
    {
        if !check_address(creators[i].address.as_str()) {
            assert(!valid_address(creators_view(*creators)[i as int].address));
            return false;
        }
        i += 1;
    }
    true
}

/// The total that creator shares must reach together.
pub const REQUIRED_SHARE_TOTAL: u32 = 100;

/// The sum of the shares of a sequence of creators.
pub open spec fn sum_of_shares(cs: Seq<CreatorView>) -> int
    decreases cs.len(),
{
    if cs.len() == 0 {
        0
    } else {
        sum_of_shares(cs.drop_last()) + cs.last().share
    }
}

/// The aggregate share rule: shares sum exactly to
/// [`REQUIRED_SHARE_TOTAL`].
pub open spec fn valid_shares(cs: Seq<CreatorView>) -> bool {
    sum_of_shares(cs) == REQUIRED_SHARE_TOTAL
}

/// A prefix never sums to more than the whole sequence.
proof fn lemma_sum_prefix_le(cs: Seq<CreatorView>, i: int)
    requires
        0 <= i <= cs.len(),
    ensures
        sum_of_shares(cs.take(i)) <= sum_of_shares(cs),
    decreases cs.len(),
{
    if i == cs.len() {
        assert(cs.take(i) =~= cs);
    } else {
        assert(cs.drop_last().take(i) =~= cs.take(i));
        lemma_sum_prefix_le(cs.drop_last(), i);
    }
}

/// Checks the aggregate share rule.
pub fn check_creators_shares(creators: &Vec<Creator>) -> (r: bool)
    ensures
        r == valid_shares(creators_view(*creators)),
{
    let ghost cs = creators_view(*creators);
    let n = creators.len();
    let mut total: u32 = 0;
    let mut i: usize = 0;
    while i < n
        invariant
            n == creators@.len(),
            cs == creators_view(*creators),
            cs.len() == n,
            i <= n,
            total == sum_of_shares(cs.take(i as int)),
            total <= REQUIRED_SHARE_TOTAL,
        decreases n - i,
    {
        let share = creators[i].share;
        proof {
            assert(cs.take(i + 1).drop_last() =~= cs.take(i as int));
            assert(cs.take(i + 1).last() == cs[i as int]);
        }
        if share as u32 > REQUIRED_SHARE_TOTAL - total {
            proof {
                lemma_sum_prefix_le(cs, i + 1);
            }
            return false;
        }
        total = total + share as u32;
        i += 1;
    }
    proof {
        assert(cs.take(n as int) =~= cs);
    }
    total == REQUIRED_SHARE_TOTAL
}

} // verus!
