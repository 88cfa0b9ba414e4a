//! Interpretation of the raw strings of one listing: identifier, price and
//! availability state.
use vstd::prelude::*;
use crate::item::{opt_chars, Currency, Decimal, ItemState, Price};
use crate::text::{first_two_words, str_eq, two_words};

verus! {

pub open spec fn is_digit(c: char) -> bool {
    0x30 <= (c as u32) && (c as u32) <= 0x39
}

pub open spec fn digit_of(c: char) -> nat {
    if is_digit(c) {
        ((c as u32) - 0x30) as nat
    } else {
        0
    }
}

pub open spec fn all_digits(s: Seq<char>) -> bool {
    forall|i: int| 0 <= i < s.len() ==> is_digit(#[trigger] s[i])
}

/// The number that a string of decimal digits denotes.
pub open spec fn digits_value(s: Seq<char>) -> nat
    decreases s.len(),
{
    if s.len() == 0 {
        0
    } else {
        digits_value(s.drop_last()) * 10 + digit_of(s.last())
    }
}

/// The index of the first `c` at or after `i`, or `s.len()`.
pub open spec fn find_char(s: Seq<char>, c: char, i: int) -> int
    decreases s.len() - i,
{
    if i >= s.len() {
        s.len() as int
    } else if s[i] == c {
        i
    } else {
        find_char(s, c, i + 1)
    }
}

/// The digits before the point.
pub open spec fn whole_part(t: Seq<char>) -> Seq<char> {
    t.take(find_char(t, '.', 0))
}

/// The digits after the point; empty when there is no point.
pub open spec fn frac_part(t: Seq<char>) -> Seq<char> {
    let p = find_char(t, '.', 0);
    if p < t.len() {
        t.skip(p + 1)
    } else {
        Seq::empty()
    }
}

/// The decimal that `t` writes without a sign: digits with at most one `.`
/// among them and at least one digit in all (`45`, `45.50`, `.5`, `5.`), whose
/// digits read as one number fit in a `u64`.
pub open spec fn unsigned_decimal_of(t: Seq<char>) -> Option<Decimal> {
    let w = whole_part(t);
    let f = frac_part(t);
    if all_digits(w) && all_digits(f) && w.len() + f.len() > 0 && digits_value(w + f)
        <= u64::MAX {
        Some(Decimal { units: digits_value(w + f) as u64, scale: f.len() as usize })
    } else {
        None
    }
}

/// The decimal that `t` writes, with an optional leading `+`.
pub open spec fn decimal_of(t: Seq<char>) -> Option<Decimal> {
    if t.len() > 0 && t[0] == '+' {
        unsigned_decimal_of(t.skip(1))
    } else {
        unsigned_decimal_of(t)
    }
}

/// The currency that an ISO 4217 code names, among those known here.
pub open spec fn currency_of(code: Seq<char>) -> Option<Currency> {
    if code == "EUR"@ {
        Some(Currency::EUR)
    } else if code == "GBP"@ {
        Some(Currency::GBP)
    } else if code == "USD"@ {
        Some(Currency::USD)
    } else {
        None
    }
}

/// The price that a text `"<amount> <currency code>"` states: both of its first
/// two words must be understood, else there is no price at all.
pub open spec fn price_of(text: Seq<char>) -> Option<Price> {
    match first_two_words(text) {
        None => None,
        Some((a, c)) => match (decimal_of(a), currency_of(c)) {
            (Some(amount), Some(currency)) => Some(Price { amount, currency }),
            _ => None,
        },
    }
}

/// The state that an indicator's text announces; anything else, and no
/// indicator at all, is a plain listing.
pub open spec fn state_of(text: Option<Seq<char>>) -> ItemState {
    match text {
        Some(t) => if t == "SOLD"@ {
            ItemState::SOLD
        } else if t == "Reserved"@ {
            ItemState::RESERVED
        } else if t == "Add to basket"@ {
            ItemState::AVAILABLE
        } else {
            ItemState::LISTED
        },
        None => ItemState::LISTED,
    }
}

/// The query of a link target: what follows its first `?`, up to any `#`.
pub open spec fn query_of(h: Seq<char>) -> Option<Seq<char>> {
    let u = h.take(find_char(h, '#', 0));
    let q = find_char(u, '?', 0);
    if q < u.len() {
        Some(u.skip(q + 1))
    } else {
        None
    }
}

/// The value of the first parameter named `code` in a query
/// `name=value&name=value...`; a parameter without `=` has the empty value.
pub open spec fn code_param(q: Seq<char>) -> Option<Seq<char>>
    decreases q.len(),
    via code_param_decreases
{
    let j = find_char(q, '&', 0);
    let seg = q.take(j);
    let e = find_char(seg, '=', 0);
    if seg.take(e) == "code"@ {
        Some(
            if e < seg.len() {
                seg.skip(e + 1)
            } else {
                Seq::empty()
            },
        )
    } else if j < q.len() {
        code_param(q.skip(j + 1))
    } else {
        None
    }
}

#[via_fn]
proof fn code_param_decreases(q: Seq<char>) {
    lemma_find_char_bounds(q, '&', 0);
}

/// The item code of a permalink: the value of the `code` parameter of its query.
pub open spec fn item_id_of(href: Option<Seq<char>>) -> Option<Seq<char>> {
    match href {
        Some(h) => match query_of(h) {
            Some(q) => code_param(q),
            None => None,
        },
        None => None,
    }
}

proof fn lemma_digits_value_prefix(s: Seq<char>, k: int)
    requires
        0 <= k <= s.len(),
    ensures
        digits_value(s.take(k)) <= digits_value(s),
    decreases s.len(),
{
    if k < s.len() {
        lemma_digits_value_prefix(s.drop_last(), k);
        assert(s.drop_last().take(k) =~= s.take(k));
    } else {
        assert(s.take(k) =~= s);
    }
}

proof fn lemma_find_char_bounds(s: Seq<char>, c: char, i: int)
    requires
        0 <= i <= s.len(),
    ensures
        i <= find_char(s, c, i) <= s.len(),
        find_char(s, c, i) < s.len() ==> s[find_char(s, c, i)] == c,
    decreases s.len() - i,
{
    if i < s.len() && s[i] != c {
        lemma_find_char_bounds(s, c, i + 1);
    }
}

/// Index of the first `c` in `s` at or after `i`, or the length of `s`.
fn scan_char(s: &str, len: usize, c: char, i: usize) -> (r: usize)
    requires
        len == s@.len(),
        i <= len,
    ensures
        r == find_char(s@, c, i as int),
{
    let mut k = i;
    while k < len && s.get_char(k) != c
        invariant
            len == s@.len(),
            i <= k <= len,
            find_char(s@, c, k as int) == find_char(s@, c, i as int),
        decreases len - k,
    {
        k = k + 1;
    }
    k
}

/// Reads the decimal that `t` writes, with an optional leading `+` (see
/// `decimal_of`).
pub fn parse_decimal(t: &str) -> (r: Option<Decimal>)
    ensures
        r == decimal_of(t@),
{
    let len = t.unicode_len();
    if len > 0 && t.get_char(0) == '+' {
        let rest = t.substring_char(1, len);
        proof {
            assert(rest@ =~= t@.skip(1));
        }
        parse_unsigned_decimal(rest)
    } else {
        parse_unsigned_decimal(t)
    }
}

/// Reads the decimal that `t` writes without a sign.
fn parse_unsigned_decimal(t: &str) -> (r: Option<Decimal>)
    ensures
        r == unsigned_decimal_of(t@),
{
    let len = t.unicode_len();
    let mut p: usize = 0;
    while p < len && t.get_char(p) != '.'
        invariant
            len == t@.len(),
            p <= len,
            find_char(t@, '.', p as int) == find_char(t@, '.', 0),
        decreases len - p,
    {
        p = p + 1;
    }
    proof {
        lemma_find_char_bounds(t@, '.', 0);
    }
    let ghost w = whole_part(t@);
    let ghost f = frac_part(t@);
    let ghost d = w + f;
    let mut units: u64 = 0;
    let mut i: usize = 0;
    proof {
        assert(d.take(0) =~= Seq::<char>::empty());
    }
    while i < p
        invariant
            len == t@.len(),
            p == find_char(t@, '.', 0),
            p <= len,
            w == t@.take(p as int),
            d == w + f,
            w == whole_part(t@),
            f == frac_part(t@),
            i <= p,
            all_digits(t@.take(i as int)),
            units == digits_value(d.take(i as int)),
        decreases p - i,
    {
        let c = t.get_char(i);
        let ghost di = d.take(i as int);
        let ghost dn = d.take(i + 1);
        proof {
            assert(dn.drop_last() =~= di);
            assert(dn.last() == c);
        }
        if c < '0' || c > '9' {
            proof {
                assert(w[i as int] == c);
            }
            return None;
        }
        let dig = (c as u32 - '0' as u32) as u64;
        let next = match units.checked_mul(10) {
            Some(m) => m.checked_add(dig),
            None => None,
        };
        match next {
            Some(n) => {
                units = n;
            },
            None => {
                proof {
                    assert(is_digit(c));
                    assert(digit_of(c) == dig);
                    assert(digits_value(dn) == units * 10 + dig);
                    lemma_digits_value_prefix(d, i + 1);
                }
                return None;
            },
        }
        proof {
            assert(t@.take(i + 1) =~= t@.take(i as int).push(c));
        }
        i = i + 1;
    }
    proof {
        assert(t@.take(i as int) =~= w);
    }
    if p < len {
        let mut j: usize = p + 1;
        proof {
            assert(f =~= t@.skip(p + 1));
            assert(d.take(p as int) =~= w);
        }
        while j < len
            invariant
                len == t@.len(),
                p == find_char(t@, '.', 0),
                p < len,
                w == t@.take(p as int),
                f == t@.skip(p + 1),
                d == w + f,
                w == whole_part(t@),
                f == frac_part(t@),
                p + 1 <= j <= len,
                all_digits(w),
                all_digits(t@.subrange(p + 1, j as int)),
                units == digits_value(d.take(j - 1)),
            decreases len - j,
        {
            let c = t.get_char(j);
            let ghost di = d.take(j - 1);
            let ghost dn = d.take(j as int);
            proof {
                assert(dn.drop_last() =~= di);
                assert(dn.last() == c);
            }
            if c < '0' || c > '9' {
                proof {
                    assert(f[j - p - 1] == c);
                }
                return None;
            }
            let dig = (c as u32 - '0' as u32) as u64;
            let next = match units.checked_mul(10) {
                Some(m) => m.checked_add(dig),
                None => None,
            };
            match next {
                Some(n) => {
                    units = n;
                },
                None => {
                    proof {
                        lemma_digits_value_prefix(d, j as int);
                    }
                    return None;
                },
            }
            proof {
                assert(t@.subrange(p + 1, j + 1) =~= t@.subrange(p + 1, j as int).push(c));
            }
            j = j + 1;
        }
        proof {
            assert(t@.subrange(p + 1, j as int) =~= f);
            assert(d.take(j - 1) =~= d);
        }
        if p == 0 && len == 1 {
            return None;
        }
        Some(Decimal { units, scale: len - p - 1 })
    } else {
        proof {
            assert(f =~= Seq::<char>::empty());
            assert(d =~= w);
            assert(d.take(p as int) =~= d);
        }
        if len == 0 {
            return None;
        }
        Some(Decimal { units, scale: 0 })
    }
}

/// The currency that `code` names (see `currency_of`).
pub fn parse_currency(code: &str) -> (r: Option<Currency>)
    ensures
        r == currency_of(code@),
{
    if str_eq(code, "EUR") {
        Some(Currency::EUR)
    } else if str_eq(code, "GBP") {
        Some(Currency::GBP)
    } else if str_eq(code, "USD") {
        Some(Currency::USD)
    } else {
        None
    }
}

/// The price that `text` states, or none unless both amount and currency are
/// understood (see `price_of`).
pub fn parse_price(text: &str) -> (r: Option<Price>)
    ensures
        r == price_of(text@),
{
    match two_words(text) {
        None => None,
        Some((a, c)) => match (parse_decimal(a), parse_currency(c)) {
            (Some(amount), Some(currency)) => Some(Price { amount, currency }),
            _ => None,
        },
    }
}

/// The availability state announced by an indicator's text (see `state_of`).
pub fn state_from_text(text: Option<&str>) -> (r: ItemState)
    ensures
        r == state_of(match text {
            Some(t) => Some(t@),
            None => None,
        }),
{
    match text {
        Some(t) => if str_eq(t, "SOLD") {
            ItemState::SOLD
        } else if str_eq(t, "Reserved") {
            ItemState::RESERVED
        } else if str_eq(t, "Add to basket") {
            ItemState::AVAILABLE
        } else {
            ItemState::LISTED
        },
        None => ItemState::LISTED,
    }
}

/// The query of a link target (see `query_of`).
pub fn query_part(h: &str) -> (r: Option<&str>)
    ensures
        match r {
            Some(q) => query_of(h@) == Some(q@),
            None => query_of(h@) is None,
        },
{
    let len = h.unicode_len();
    let f = scan_char(h, len, '#', 0);
    proof {
        lemma_find_char_bounds(h@, '#', 0);
    }
    let u = h.substring_char(0, f);
    proof {
        assert(u@ =~= h@.take(f as int));
    }
    let q = scan_char(u, f, '?', 0);
    proof {
        lemma_find_char_bounds(u@, '?', 0);
    }
    if q < f {
        let rest = u.substring_char(q + 1, f);
        proof {
            assert(rest@ =~= u@.skip(q + 1));
        }
        Some(rest)
    } else {
        None
    }
}

/// The value of the `code` parameter of a query (see `code_param`).
pub fn code_value(q: &str) -> (r: Option<&str>)
    ensures
        match r {
            Some(v) => code_param(q@) == Some(v@),
            None => code_param(q@) is None,
        },
{
    let mut rest: &str = q;
    loop
        invariant
            code_param(rest@) == code_param(q@),
        decreases rest@.len(),
    {
        let len = rest.unicode_len();
        let j = scan_char(rest, len, '&', 0);
        proof {
            lemma_find_char_bounds(rest@, '&', 0);
        }
        let seg = rest.substring_char(0, j);
        proof {
            assert(seg@ =~= rest@.take(j as int));
        }
        let e = scan_char(seg, j, '=', 0);
        proof {
            lemma_find_char_bounds(seg@, '=', 0);
        }
        let key = seg.substring_char(0, e);
        proof {
            assert(key@ =~= seg@.take(e as int));
        }
        if str_eq(key, "code") {
            if e < j {
                let v = seg.substring_char(e + 1, j);
                proof {
                    assert(v@ =~= seg@.skip(e + 1));
                }
                return Some(v);
            } else {
                proof {
                    reveal_strlit("");
                }
                return Some("");
            }
        }
        if j < len {
            let next = rest.substring_char(j + 1, len);
            proof {
                assert(next@ =~= rest@.skip(j + 1));
            }
            rest = next;
        } else {
            return None;
        }
    }
}

/// The item code of a permalink: the value of the `code` parameter of its
/// query (see `item_id_of`).
pub fn item_id_from_href(href: Option<&str>) -> (r: Option<String>)
    ensures
        opt_chars(r) == item_id_of(match href {
            Some(h) => Some(h@),
            None => None,
        }),
{
    match href {
        Some(h) => match query_part(h) {
            Some(q) => match code_value(q) {
                Some(v) => Some(String::from_str(v)),
                None => None,
            },
            None => None,
        },
        None => None,
    }
}

/// The characters of an indicator that may be missing, and whose text may be.
pub open spec fn opt_opt_chars(o: Option<Option<String>>) -> Option<Option<Seq<char>>> {
    match o {
        Some(t) => Some(opt_chars(t)),
        None => None,
    }
}

/// The text that decides the state: the action button's where a button
/// exists, else the status paragraph's.
pub open spec fn indicator_of(
    button: Option<Option<Seq<char>>>,
    status: Option<Option<Seq<char>>>,
) -> Option<Seq<char>> {
    match button {
        Some(t) => t,
        None => match status {
            Some(t) => t,
            None => None,
        },
    }
}

/// Picks the text that decides the state (see `indicator_of`): the outer
/// option says whether the element exists, the inner one whether it has text.
pub fn indicator_text(button: Option<Option<String>>, status: Option<Option<String>>) -> (r:
    Option<String>)
    ensures
        opt_chars(r) == indicator_of(opt_opt_chars(button), opt_opt_chars(status)),
{
    match button {
        Some(t) => t,
        None => match status {
            Some(t) => t,
            None => None,
        },
    }
}

} // verus!
