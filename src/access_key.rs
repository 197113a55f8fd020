//! Generation of access keys: five dash-separated groups of upper-case
//! letters and digits, `XXXXXXXX-XXXX-XXXX-XXXXXXXXXX-XX`. Each character is
//! drawn independently and uniformly from the 36 symbols `[A-Z0-9]`.

use vstd::prelude::*;

verus! {

/// Number of random characters in an access key.
pub const KEY_CHARS: usize = 28;

/// Number of characters in an access key, separators included.
pub const KEY_LEN: usize = 32;

/// Number of symbols in the output alphabet `[A-Z0-9]`.
pub const SYMBOLS: u8 = 36;

/// The symbol a draw in `0..SYMBOLS` stands for: `A`..`Z`, then `0`..`9`.
pub open spec fn symbol(i: u8) -> char {
    if i < 26 {
        ((i + 0x41) as u8) as char
    } else {
        ((i + 0x16) as u8) as char
    }
}

/// A character of the output alphabet: `[A-Z0-9]`.
pub open spec fn is_key_char(c: char) -> bool {
    ('A' <= c <= 'Z') || ('0' <= c <= '9')
}

/// A valid sequence of draws for one key: `KEY_CHARS` draws in `0..SYMBOLS`.
pub open spec fn valid_draws(d: Seq<u8>) -> bool {
    &&& d.len() == KEY_CHARS
    &&& forall|i: int| 0 <= i < d.len() ==> #[trigger] d[i] < SYMBOLS
}

/// The symbols that the draws stand for.
pub open spec fn symbols(d: Seq<u8>) -> Seq<char> {
    d.map_values(|i: u8| symbol(i))
}

/// Where a separator stands in a key.
pub open spec fn is_separator_position(i: int) -> bool {
    i == 8 || i == 13 || i == 18 || i == 29
}

/// The key text: matches `^[A-Z0-9]{8}-[A-Z0-9]{4}-[A-Z0-9]{4}-[A-Z0-9]{10}-[A-Z0-9]{2}$`.
pub open spec fn is_access_key(s: Seq<char>) -> bool {
    &&& s.len() == KEY_LEN
    &&& forall|i: int|
        0 <= i < s.len() ==> if is_separator_position(i) {
            #[trigger] s[i] == '-'
        } else {
            is_key_char(s[i])
        }
}

/// Lays 28 characters out as groups of 8, 4, 4, 10 and 2, joined by dashes.
pub open spec fn key_layout(c: Seq<char>) -> Seq<char> {
    c.subrange(0, 8) + seq!['-'] + c.subrange(8, 12) + seq!['-'] + c.subrange(12, 16) + seq!['-']
        + c.subrange(16, 26) + seq!['-'] + c.subrange(26, 28)
}

/// Relies on rand's `Rng::gen_range` on `thread_rng()`: a value drawn
/// uniformly from `0..bound`. It panics on an empty range, hence `bound > 0`.
#[verifier::external_body]
fn draw_below(bound: u8) -> (r: u8)
    requires
        bound > 0,
    ensures
        r < bound,
{
    rand::Rng::gen_range(&mut rand::thread_rng(), 0..bound)
}

/// Relies on `String::push`: appends one character at the end.
#[verifier::external_body]
fn push_char(s: &mut String, c: char)
    ensures
        final(s)@ == old(s)@.push(c),
{
    s.push(c)
}

/// The symbol a draw stands for.
pub fn symbol_of(i: u8) -> (r: char)
    requires
        i < SYMBOLS,
    ensures
        r == symbol(i),
        is_key_char(r),
{
    if i < 26 {
        (i + 0x41) as char
    } else {
        (i + 0x16) as char
    }
}

/// Each key character is the symbol of exactly one draw in `0..SYMBOLS`, so
/// uniform draws give uniformly distributed key characters.
pub proof fn lemma_symbol_bijective()
    ensures
        forall|i: u8, j: u8| i < SYMBOLS && j < SYMBOLS && symbol(i) == symbol(j) ==> i == j,
        forall|c: char| is_key_char(c) ==> exists|i: u8| i < SYMBOLS && symbol(i) == c,
{
    assert forall|c: char| is_key_char(c) implies exists|i: u8| i < SYMBOLS && symbol(i) == c by {
        if 'A' <= c <= 'Z' {
            let i = (c as u32 - 0x41) as u8;
            assert(symbol(i) == c);
        } else {
            let i = (c as u32 - 0x16) as u8;
            assert(symbol(i) == c);
        }
    }
}

/// Draws `count` independent values in `0..SYMBOLS` from the thread's random source.
pub fn random_draws(count: usize) -> (r: Vec<u8>)
    ensures
        r@.len() == count,
        forall|i: int| 0 <= i < r@.len() ==> #[trigger] r@[i] < SYMBOLS,
{
    let mut r: Vec<u8> = Vec::new();
    let mut i: usize = 0;
    while i < count
        invariant
            i <= count,
            r@.len() == i,
            forall|j: int| 0 <= j < r@.len() ==> #[trigger] r@[j] < SYMBOLS,
        decreases count - i,
    {
        r.push(draw_below(SYMBOLS));
        i = i + 1;
    }
    r
}

/// Appends the symbols of the draws `from..to` to `s`.
fn push_symbols(s: &mut String, draws: &Vec<u8>, from: usize, to: usize)
    requires
        from <= to <= draws@.len(),
        forall|i: int| 0 <= i < draws@.len() ==> #[trigger] draws@[i] < SYMBOLS,
    ensures
        final(s)@ == old(s)@ + symbols(draws@).subrange(from as int, to as int),
{
    let ghost start = s@;
    let mut i: usize = from;
    while i < to
        invariant
            from <= i <= to <= draws@.len(),
            forall|j: int| 0 <= j < draws@.len() ==> #[trigger] draws@[j] < SYMBOLS,
            s@ == start + symbols(draws@).subrange(from as int, i as int),
        decreases to - i,
    {
        let c = symbol_of(draws[i]);
        push_char(s, c);
        assert(symbols(draws@).subrange(from as int, i + 1) =~= symbols(draws@).subrange(
            from as int,
            i as int,
        ).push(c));
        i = i + 1;
    }
}

/// The layout of the symbols of any valid draws is a well-formed access key.
pub proof fn lemma_layout_is_access_key(d: Seq<u8>)
    requires
        valid_draws(d),
    ensures
        is_access_key(key_layout(symbols(d))),
{
    let c = symbols(d);
    let k = key_layout(c);
    assert forall|i: int| 0 <= i < c.len() implies is_key_char(#[trigger] c[i]) by {
        assert(d[i] < SYMBOLS);
    }
    assert(k.len() == KEY_LEN);
    assert forall|i: int| 0 <= i < k.len() implies (if is_separator_position(i) {
        #[trigger] k[i] == '-'
    } else {
        is_key_char(k[i])
    }) by {
        if i < 8 {
            assert(k[i] == c[i]);
        } else if i == 8 {
        } else if i < 13 {
            assert(k[i] == c[i - 1]);
        } else if i == 13 {
        } else if i < 18 {
            assert(k[i] == c[i - 2]);
        } else if i == 18 {
        } else if i < 29 {
            assert(k[i] == c[i - 3]);
        } else if i == 29 {
        } else {
            assert(k[i] == c[i - 4]);
        }
    }
}

/// The access key that a given sequence of draws produces: their symbols,
/// laid out as `XXXXXXXX-XXXX-XXXX-XXXXXXXXXX-XX`.
pub fn access_key_from_draws(draws: &Vec<u8>) -> (r: String)
    requires
        valid_draws(draws@),
    ensures
        r@ == key_layout(symbols(draws@)),
        is_access_key(r@),
{
    let mut s = String::new();
    push_symbols(&mut s, draws, 0, 8);
    push_char(&mut s, '-');
    push_symbols(&mut s, draws, 8, 12);
    push_char(&mut s, '-');
    push_symbols(&mut s, draws, 12, 16);
    push_char(&mut s, '-');
    push_symbols(&mut s, draws, 16, 26);
    push_char(&mut s, '-');
    push_symbols(&mut s, draws, 26, 28);
    proof {
        assert(s@ =~= key_layout(symbols(draws@)));
        lemma_layout_is_access_key(draws@);
    }
    s
}

/// A fresh access key from `KEY_CHARS` independent draws of the thread's
/// random source. No uniqueness check is made.
pub fn generate_user_access_key() -> (r: String)
    ensures
        is_access_key(r@),
        exists|d: Seq<u8>| valid_draws(d) && r@ == key_layout(#[trigger] symbols(d)),
{
    let draws = random_draws(KEY_CHARS);
    access_key_from_draws(&draws)
}

} // verus!
