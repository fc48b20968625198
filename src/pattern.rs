//! Patterns: sequences over the alphabet `A`, `B`, `C`.
use rand::Rng;
use vstd::prelude::*;

verus! {

/// Whether `c` is one of the three symbols a pattern is made of.
pub open spec fn is_symbol(c: char) -> bool {
    c == 'A' || c == 'B' || c == 'C'
}

/// Whether every element of `s` is a symbol.
pub open spec fn all_symbols(s: Seq<char>) -> bool {
    forall|i: int| 0 <= i < s.len() ==> is_symbol(#[trigger] s[i])
}

/// The symbol that a draw from `1..4` stands for: 1 is `A`, 2 is `B`, anything
/// else is `C`.
pub open spec fn symbol_of_draw(n: u32) -> char {
    if n == 1 {
        'A'
    } else if n == 2 {
        'B'
    } else {
        'C'
    }
}

/// Relies on rand's `thread_rng` and `Rng::gen_range`, which returns a value
/// of the half-open range `lo..hi` and panics only when that range is empty.
#[verifier::external_body]
fn draw_in_range(lo: u32, hi: u32) -> (r: u32)
    requires
        lo < hi,
    ensures
        lo <= r < hi,
{
    rand::thread_rng().gen_range(lo..hi)
}

/// Maps one draw to its symbol.
pub fn symbol_for_draw(n: u32) -> (c: char)
    ensures
        c == symbol_of_draw(n),
        is_symbol(c),
{
    if n == 1 {
        'A'
    } else if n == 2 {
        'B'
    } else {
        'C'
    }
}

/// Builds the pattern that a sequence of draws stands for, one symbol per draw.
pub fn pattern_from_draws(draws: &Vec<u32>) -> (p: Vec<char>)
    ensures
        p@ == draws@.map_values(|n: u32| symbol_of_draw(n)),
        all_symbols(p@),
{
    let mut p: Vec<char> = Vec::new();
    let mut i: usize = 0;
    while i < draws.len()
        invariant
            i <= draws.len(),
            p@ == draws@.take(i as int).map_values(|n: u32| symbol_of_draw(n)),
        decreases draws.len() - i,
    {
        p.push(symbol_for_draw(draws[i]));
        i = i + 1;
        assert(draws@.take(i as int).drop_last() =~= draws@.take(i - 1));
    }
    assert(draws@.take(draws.len() as int) =~= draws@);
    p
}

/// A fresh random pattern of `size` symbols, each drawn on its own and
/// uniformly from `A`, `B` and `C`.
pub fn gen_pattern(size: u32) -> (p: Vec<char>)
    ensures
        p@.len() == size,
        all_symbols(p@),
{
    let mut draws: Vec<u32> = Vec::new();
    let mut i: u32 = 0;
    while i < size
        invariant
            i <= size,
            draws@.len() == i,
        decreases size - i,
    {
        draws.push(draw_in_range(1, 4));
        i = i + 1;
    }
    pattern_from_draws(&draws)
}

/// Relies on `String::push`, which appends one character at the end.
#[verifier::external_body]
fn push_char(s: &mut String, c: char)
    ensures
        final(s)@ == old(s)@.push(c),
{
    s.push(c)
}

/// The text that shows a pattern: its symbols written one after another.
pub fn pattern_text(pattern: &Vec<char>) -> (t: String)
    ensures
        t@ == pattern@,
{
    let mut t = String::new();
    let mut i: usize = 0;
    while i < pattern.len()
        invariant
            i <= pattern.len(),
            t@ == pattern@.take(i as int),
        decreases pattern.len() - i,
    {
        push_char(&mut t, pattern[i]);
        i = i + 1;
        assert(t@ =~= pattern@.take(i as int));
    }
    assert(pattern@.take(pattern.len() as int) =~= pattern@);
    t
}

} // verus!
