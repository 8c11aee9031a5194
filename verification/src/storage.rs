//! Layout of the contract's ledger storage: the key under which each record
//! is kept, and how a lookup's outcome is reported.
//!
//! Instance storage holds the administrator under `ADMIN` and the policy
//! counter under `POLICY_CTR`; persistent storage holds policy `n` under
//! `POLICY_n` and its claim under `CLAIM_n`, with `n` written in decimal.
use vstd::prelude::*;

use crate::types::{Claim, Error, Policy};

verus! {

/// The character of a decimal digit.
pub open spec fn digit_char(d: nat) -> char {
    (48 + d) as char
}

/// The decimal representation of `n`, most significant digit first, without
/// leading zeros.
pub open spec fn decimal(n: nat) -> Seq<char>
    decreases n,
{
    if n < 10 {
        seq![digit_char(n)]
    } else {
        decimal(n / 10).push(digit_char(n % 10))
    }
}

/// The storage key of the administrator's address.
pub open spec fn admin_key_chars() -> Seq<char> {
    seq!['A', 'D', 'M', 'I', 'N']
}

/// The storage key of the policy counter.
pub open spec fn policy_counter_key_chars() -> Seq<char> {
    seq!['P', 'O', 'L', 'I', 'C', 'Y', '_', 'C', 'T', 'R']
}

/// The storage key of the policy with the given id.
pub open spec fn policy_key_chars(policy_id: nat) -> Seq<char> {
    seq!['P', 'O', 'L', 'I', 'C', 'Y', '_'] + decimal(policy_id)
}

/// The storage key of the claim filed against the policy with the given id.
pub open spec fn claim_key_chars(policy_id: nat) -> Seq<char> {
    seq!['C', 'L', 'A', 'I', 'M', '_'] + decimal(policy_id)
}

/// The text of a single decimal digit.
fn digit_str(d: u64) -> (s: &'static str)
    requires
        d < 10,
    ensures
        s@ == seq![digit_char(d as nat)],
{
    proof {
        reveal_strlit("0");
        reveal_strlit("1");
        reveal_strlit("2");
        reveal_strlit("3");
        reveal_strlit("4");
        reveal_strlit("5");
        reveal_strlit("6");
        reveal_strlit("7");
        reveal_strlit("8");
        reveal_strlit("9");
    }
    match d {
        0 => "0",
        1 => "1",
        2 => "2",
        3 => "3",
        4 => "4",
        5 => "5",
        6 => "6",
        7 => "7",
        8 => "8",
        _ => "9",
    }
}

/// Appends the decimal representation of `n` to `s`.
fn push_decimal(s: &mut String, n: u64)
    ensures
        final(s)@ == old(s)@ + decimal(n as nat),
    decreases n,
{
    if n >= 10 {
        push_decimal(s, n / 10);
    }
    s.append(digit_str(n % 10));
    proof {
        if n >= 10 {
            assert(decimal(n as nat) == decimal((n / 10) as nat).push(digit_char((n % 10) as nat)));
        }
    }
}

/// The key of the administrator's address in instance storage.
pub fn admin_key() -> (key: String)
    ensures
        key@ == admin_key_chars(),
{
    proof {
        reveal_strlit("ADMIN");
    }
    "ADMIN".to_owned()
}

/// The key of the policy counter in instance storage.
pub fn policy_counter_key() -> (key: String)
    ensures
        key@ == policy_counter_key_chars(),
{
    proof {
        reveal_strlit("POLICY_CTR");
    }
    "POLICY_CTR".to_owned()
}

/// The key of a policy in persistent storage: `POLICY_` and the id in decimal.
pub fn policy_key(policy_id: u64) -> (key: String)
    ensures
        key@ == policy_key_chars(policy_id as nat),
        key@.len() > 7,
        key@.take(7) == seq!['P', 'O', 'L', 'I', 'C', 'Y', '_'],
        all_digits(key@.skip(7)),
        digits_value(key@.skip(7)) == policy_id,
{
    proof {
        reveal_strlit("POLICY_");
        keys_carry_the_id(policy_id as nat);
    }
    let mut key = "POLICY_".to_owned();
    push_decimal(&mut key, policy_id);
    key
}

/// The key of a policy's claim in persistent storage: `CLAIM_` and the
/// policy id in decimal.
pub fn claim_key(policy_id: u64) -> (key: String)
    ensures
        key@ == claim_key_chars(policy_id as nat),
        key@.len() > 6,
        key@.take(6) == seq!['C', 'L', 'A', 'I', 'M', '_'],
        all_digits(key@.skip(6)),
        digits_value(key@.skip(6)) == policy_id,
{
    proof {
        reveal_strlit("CLAIM_");
        keys_carry_the_id(policy_id as nat);
    }
    let mut key = "CLAIM_".to_owned();
    push_decimal(&mut key, policy_id);
    key
}

/// Reports a policy lookup: the stored policy, or `Error::PolicyNotFound`
/// when nothing is stored under its key.
pub fn policy_from_storage(stored: Option<Policy>) -> (result: Result<Policy, Error>)
    ensures
        stored matches Some(policy) ==> result == Ok::<Policy, Error>(policy),
        stored is None ==> result == Err::<Policy, Error>(Error::PolicyNotFound),
{
    stored.ok_or(Error::PolicyNotFound)
}

/// Reports a claim lookup: the stored claim, or `Error::ClaimNotFound` when
/// nothing is stored under its key.
pub fn claim_from_storage(stored: Option<Claim>) -> (result: Result<Claim, Error>)
    ensures
        stored matches Some(claim) ==> result == Ok::<Claim, Error>(claim),
        stored is None ==> result == Err::<Claim, Error>(Error::ClaimNotFound),
{
    stored.ok_or(Error::ClaimNotFound)
}

/// Reports the policy counter: the stored value, or 0 before the first policy.
pub fn policy_counter_from_storage(stored: Option<u64>) -> (counter: u64)
    ensures
        stored matches Some(value) ==> counter == value,
        stored is None ==> counter == 0,
{
    stored.unwrap_or(0)
}

// ─── Laws ────────────────────────────────────────────────────────────────────

/// A decimal representation is never empty and starts with a digit.
proof fn lemma_decimal_shape(n: nat)
    ensures
        decimal(n).len() >= 1,
        n >= 10 ==> decimal(n).len() >= 2,
        '0' <= decimal(n)[0] <= '9',
    decreases n,
{
    if n >= 10 {
        lemma_decimal_shape(n / 10);
    }
}

/// Distinct numbers have distinct decimal representations.
proof fn lemma_decimal_injective(a: nat, b: nat)
    requires
        decimal(a) == decimal(b),
    ensures
        a == b,
    decreases a,
{
    lemma_decimal_shape(a);
    lemma_decimal_shape(b);
    if a >= 10 && b >= 10 {
        let da = decimal(a);
        assert(da.last() == digit_char(a % 10));
        assert(da.last() == digit_char(b % 10));
        assert(decimal(a / 10) =~= da.drop_last());
        assert(decimal(b / 10) =~= da.drop_last());
        lemma_decimal_injective(a / 10, b / 10);
    } else if a < 10 && b < 10 {
        assert(decimal(a)[0] == digit_char(a));
        assert(decimal(b)[0] == digit_char(b));
    }
}

/// Storage keys never collide: each policy id has its own policy key and its
/// own claim key, and no policy or claim key equals the administrator's key,
/// the counter's key or a key of the other kind.
pub proof fn storage_keys_are_distinct(a: nat, b: nat)
    ensures
        policy_key_chars(a) == policy_key_chars(b) <==> a == b,
        claim_key_chars(a) == claim_key_chars(b) <==> a == b,
        policy_key_chars(a) != claim_key_chars(b),
        policy_key_chars(a) != admin_key_chars(),
        policy_key_chars(a) != policy_counter_key_chars(),
        claim_key_chars(a) != admin_key_chars(),
        claim_key_chars(a) != policy_counter_key_chars(),
        admin_key_chars() != policy_counter_key_chars(),
{
    lemma_decimal_shape(a);
    let prefix_p = seq!['P', 'O', 'L', 'I', 'C', 'Y', '_'];
    let prefix_c = seq!['C', 'L', 'A', 'I', 'M', '_'];
    if policy_key_chars(a) == policy_key_chars(b) {
        assert(decimal(a) =~= policy_key_chars(a).skip(7));
        assert(decimal(b) =~= policy_key_chars(b).skip(7));
        lemma_decimal_injective(a, b);
    }
    if claim_key_chars(a) == claim_key_chars(b) {
        assert(decimal(a) =~= claim_key_chars(a).skip(6));
        assert(decimal(b) =~= claim_key_chars(b).skip(6));
        lemma_decimal_injective(a, b);
    }
    assert(policy_key_chars(a)[0] == 'P');
    assert(claim_key_chars(b)[0] == 'C');
    assert(claim_key_chars(a)[0] == 'C');
    assert(admin_key_chars()[0] == 'A');
    assert(policy_counter_key_chars()[0] == 'P');
    assert(policy_key_chars(a)[7] == decimal(a)[0]);
    assert(policy_counter_key_chars()[7] == 'C');
}

/// The number that a run of decimal digits denotes, read most significant
/// digit first: each character stands for its code minus 48.
pub open spec fn digits_value(digits: Seq<char>) -> int
    decreases digits.len(),
{
    if digits.len() == 0 {
        0
    } else {
        digits_value(digits.drop_last()) * 10 + (digits.last() as int - 48)
    }
}

/// Every character is one of `'0'` to `'9'`.
pub open spec fn all_digits(text: Seq<char>) -> bool {
    forall|i: int| 0 <= i < text.len() ==> '0' <= #[trigger] text[i] <= '9'
}

/// The decimal text of `n` reads back as `n`: it is a non-empty run of digits
/// `'0'..='9'` whose value is `n`, with no leading zero.
pub proof fn decimal_reads_back(n: nat)
    ensures
        decimal(n).len() >= 1,
        all_digits(decimal(n)),
        digits_value(decimal(n)) == n,
        decimal(n)[0] == '0' ==> n == 0 && decimal(n).len() == 1,
    decreases n,
{
    if n < 10 {
        assert(decimal(n).drop_last() =~= Seq::<char>::empty());
        assert(digit_char(n) as int == 48 + n);
        assert(digits_value(Seq::<char>::empty()) == 0);
        assert(digits_value(decimal(n)) == digits_value(decimal(n).drop_last()) * 10 + (
        decimal(n).last() as int - 48));
    } else {
        decimal_reads_back(n / 10);
        let d = decimal(n);
        assert(d.drop_last() =~= decimal(n / 10));
        assert(d.last() as int == 48 + n % 10);
        assert(digits_value(d) == (n / 10) * 10 + n % 10);
        assert(d[0] == decimal(n / 10)[0]);
        assert forall|i: int| 0 <= i < d.len() implies '0' <= #[trigger] d[i] <= '9' by {
            if i < d.len() - 1 {
                assert(d[i] == decimal(n / 10)[i]);
            }
        }
    }
}

/// A policy key is `POLICY_` followed by the policy id in decimal, and the
/// claim key of the same id carries exactly the same digits after `CLAIM_`.
pub proof fn keys_carry_the_id(policy_id: nat)
    ensures
        policy_key_chars(policy_id).take(7) == seq!['P', 'O', 'L', 'I', 'C', 'Y', '_'],
        claim_key_chars(policy_id).take(6) == seq!['C', 'L', 'A', 'I', 'M', '_'],
        policy_key_chars(policy_id).len() > 7,
        all_digits(policy_key_chars(policy_id).skip(7)),
        digits_value(policy_key_chars(policy_id).skip(7)) == policy_id,
        claim_key_chars(policy_id).skip(6) == policy_key_chars(policy_id).skip(7),
{
    decimal_reads_back(policy_id);
    assert(policy_key_chars(policy_id).take(7) =~= seq!['P', 'O', 'L', 'I', 'C', 'Y', '_']);
    assert(claim_key_chars(policy_id).take(6) =~= seq!['C', 'L', 'A', 'I', 'M', '_']);
    assert(policy_key_chars(policy_id).skip(7) =~= decimal(policy_id));
    assert(claim_key_chars(policy_id).skip(6) =~= decimal(policy_id));
}

} // verus!
