//! Texts that stand for numbers and pairs of numbers.

use crate::store::state_key_text;
use crate::text::{decimal_text, digit};
use vstd::prelude::*;

verus! {

/// Decimal numbers consist of digits, and at least one.
proof fn lemma_decimal_digits(n: nat)
    ensures
        decimal_text(n).len() > 0,
        forall|i: int|
            0 <= i < decimal_text(n).len() ==> '0' <= #[trigger] decimal_text(n)[i] <= '9',
    decreases n,
{
    if n >= 10 {
        lemma_decimal_digits(n / 10);
    }
}

/// A decimal number stands for one number only.
pub proof fn decimal_is_unambiguous(a: nat, b: nat)
    requires
        decimal_text(a) == decimal_text(b),
    ensures
        a == b,
    decreases a,
{
    lemma_decimal_digits(a / 10);
    lemma_decimal_digits(b / 10);
    let ta = decimal_text(a);
    let tb = decimal_text(b);
    assert(ta.last() == tb.last());
    assert(digit(a % 10) == digit(b % 10));
    if a >= 10 && b >= 10 {
        assert(decimal_text(a / 10) =~= ta.drop_last());
        assert(decimal_text(b / 10) =~= tb.drop_last());
        decimal_is_unambiguous(a / 10, b / 10);
    }
}

/// Two users' standings, or one user's in two guilds, are never kept under one key.
pub proof fn state_keys_are_unambiguous(user1: u64, guild1: u64, user2: u64, guild2: u64)
    requires
        state_key_text(user1, guild1) == state_key_text(user2, guild2),
    ensures
        user1 == user2,
        guild1 == guild2,
{
    reveal_strlit(":");
    lemma_decimal_digits(user1 as nat);
    lemma_decimal_digits(user2 as nat);
    let u1 = decimal_text(user1 as nat);
    let u2 = decimal_text(user2 as nat);
    let key1 = state_key_text(user1, guild1);
    let key2 = state_key_text(user2, guild2);
    assert(key1[u1.len() as int] == ':');
    assert(key2[u2.len() as int] == ':');
    if u1.len() < u2.len() {
        assert(key2[u1.len() as int] == u2[u1.len() as int]);
    } else if u2.len() < u1.len() {
        assert(key1[u2.len() as int] == u1[u2.len() as int]);
    }
    assert(u1 =~= key1.take(u1.len() as int));
    assert(u2 =~= key2.take(u2.len() as int));
    decimal_is_unambiguous(user1 as nat, user2 as nat);
    assert(decimal_text(guild1 as nat) =~= key1.skip(u1.len() as int + 1));
    assert(decimal_text(guild2 as nat) =~= key2.skip(u2.len() as int + 1));
    decimal_is_unambiguous(guild1 as nat, guild2 as nat);
}

} // verus!
