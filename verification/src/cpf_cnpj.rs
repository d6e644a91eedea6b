//! CPF and CNPJ, the Brazilian taxpayer numbers of persons and companies:
//! making well-formed ones at random, and checking one that was typed.
//!
//! Both end in two check digits. Each is taken from a weighted sum of the
//! digits before it: with `rest` the sum modulo 11, the digit is 0 where
//! `rest` is below 2, and `11 - rest` otherwise.

use vstd::prelude::*;
use vstd::slice::slice_subrange;
use vstd::string::*;
use rand::Rng;
use crate::text::{chars_of, digit, digit_char};

verus! {

pub const MSG_CPF_LENGTH: &'static str = "CPF deve conter exatamente 11 dígitos";

pub const MSG_CNPJ_LENGTH: &'static str = "CNPJ deve conter exatamente 14 dígitos";

/// The generator of random numbers of `rand`, one per thread.
#[verifier::external_type_specification]
#[verifier::external_body]
pub struct ExThreadRng(rand::rngs::ThreadRng);

/// `rand::rng`: a handle to the generator of the current thread. It fails,
/// by a panic, only where the operating system gives no random seed.
#[verifier::external_body]
fn thread_rng() -> rand::rngs::ThreadRng {
    rand::rng()
}

/// `Rng::random_range` over `0..10`: some number of that range, whichever
/// the generator draws.
#[verifier::external_body]
fn random_digit(rng: &mut rand::rngs::ThreadRng) -> (drawn: u32)
    ensures
        drawn < 10,
{
    rng.random_range(0..10)
}

/// The check digit that a weighted sum gives.
pub open spec fn check_digit(sum: int) -> int {
    let rest = sum % 11;
    if rest < 2 {
        0
    } else {
        11 - rest
    }
}

/// The sum of the digits, the first one weighted by `first_weight` and each
/// next one by one less.
pub open spec fn weighted_sum(digits: Seq<u32>, first_weight: int) -> int
    decreases digits.len(),
{
    if digits.len() == 0 {
        0
    } else {
        weighted_sum(digits.drop_last(), first_weight) + digits.last() * (first_weight - (
        digits.len() - 1))
    }
}

/// The sum of the digits, each weighted by the weight at its position.
pub open spec fn dot(digits: Seq<u32>, weights: Seq<u32>) -> int
    decreases digits.len(),
{
    if digits.len() == 0 {
        0
    } else {
        dot(digits.drop_last(), weights) + digits.last() * weights[digits.len() - 1]
    }
}

/// The weights of the twelve digits before the first check digit of a CNPJ.
pub open spec fn cnpj_first_weights() -> Seq<u32> {
    seq![5, 4, 3, 2, 9, 8, 7, 6, 5, 4, 3, 2]
}

/// The weights of the thirteen digits before the second check digit of a
/// CNPJ.
pub open spec fn cnpj_second_weights() -> Seq<u32> {
    seq![6, 5, 4, 3, 2, 9, 8, 7, 6, 5, 4, 3, 2]
}

/// The branch number of a head office, which a generated CNPJ carries.
pub open spec fn head_office() -> Seq<u32> {
    seq![0, 0, 0, 1]
}

/// Every item is a decimal digit.
pub open spec fn is_digits(digits: Seq<u32>) -> bool {
    forall|i: int| 0 <= i < digits.len() ==> #[trigger] digits[i] < 10
}

/// Every item is the same.
pub open spec fn all_same(digits: Seq<u32>) -> bool {
    forall|i: int, j: int|
        0 <= i < digits.len() && 0 <= j < digits.len() ==> #[trigger] digits[i]
            == #[trigger] digits[j]
}

/// The eleven digits of the CPF that begins with the nine of `base`.
pub open spec fn cpf_digits(base: Seq<u32>) -> Seq<u32> {
    let first = check_digit(weighted_sum(base, 10)) as u32;
    let second = check_digit(weighted_sum(base.push(first), 11)) as u32;
    base.push(first).push(second)
}

/// The fourteen digits of the CNPJ of the head office whose number begins
/// with the eight of `root`.
pub open spec fn cnpj_digits(root: Seq<u32>) -> Seq<u32> {
    let body = root + head_office();
    let first = check_digit(dot(body, cnpj_first_weights())) as u32;
    let second = check_digit(dot(body.push(first), cnpj_second_weights())) as u32;
    body.push(first).push(second)
}

/// The digits as characters.
pub open spec fn digits_text(digits: Seq<u32>) -> Seq<char> {
    Seq::new(digits.len(), |i: int| digit_char(digits[i] as int))
}

/// A CPF as text: bare, or as `XXX.XXX.XXX-XX`.
pub open spec fn cpf_text(digits: Seq<u32>, masked: bool) -> Seq<char> {
    if masked {
        digits_text(digits.subrange(0, 3)) + seq!['.'] + digits_text(digits.subrange(3, 6)) + seq![
            '.',
        ] + digits_text(digits.subrange(6, 9)) + seq!['-'] + digits_text(digits.subrange(9, 11))
    } else {
        digits_text(digits)
    }
}

/// A CNPJ as text: bare, or as `XX.XXX.XXX/XXXX-XX`.
pub open spec fn cnpj_text(digits: Seq<u32>, masked: bool) -> Seq<char> {
    if masked {
        digits_text(digits.subrange(0, 2)) + seq!['.'] + digits_text(digits.subrange(2, 5)) + seq![
            '.',
        ] + digits_text(digits.subrange(5, 8)) + seq!['/'] + digits_text(digits.subrange(8, 12))
            + seq!['-'] + digits_text(digits.subrange(12, 14))
    } else {
        digits_text(digits)
    }
}

/// The decimal digits that occur in `text`, in order; all else is skipped.
pub open spec fn digits_of(text: Seq<char>) -> Seq<u32>
    decreases text.len(),
{
    if text.len() == 0 {
        Seq::empty()
    } else if '0' <= text.last() <= '9' {
        digits_of(text.drop_last()).push((text.last() as int - '0' as int) as u32)
    } else {
        digits_of(text.drop_last())
    }
}

/// Whether eleven digits are a CPF: they are not all the same, and the last
/// two are the check digits of those before them.
pub open spec fn cpf_checks(digits: Seq<u32>) -> bool {
    &&& !all_same(digits)
    &&& digits[9] == check_digit(weighted_sum(digits.take(9), 10))
    &&& digits[10] == check_digit(weighted_sum(digits.take(10), 11))
}

/// Whether fourteen digits are a CNPJ: they are not all the same, and the
/// last two are the check digits of those before them.
pub open spec fn cnpj_checks(digits: Seq<u32>) -> bool {
    &&& !all_same(digits)
    &&& digits[12] == check_digit(dot(digits.take(12), cnpj_first_weights()))
    &&& digits[13] == check_digit(dot(digits.take(13), cnpj_second_weights()))
}

/// What the check of a typed CPF says: an error unless the text holds
/// eleven digits, else whether they are a CPF.
pub open spec fn cpf_verdict(text: Seq<char>) -> Result<bool, Seq<char>> {
    let digits = digits_of(text);
    if digits.len() != 11 {
        Err(MSG_CPF_LENGTH@)
    } else {
        Ok(cpf_checks(digits))
    }
}

/// What the check of a typed CNPJ says: an error unless the text holds
/// fourteen digits, else whether they are a CNPJ.
pub open spec fn cnpj_verdict(text: Seq<char>) -> Result<bool, Seq<char>> {
    let digits = digits_of(text);
    if digits.len() != 14 {
        Err(MSG_CNPJ_LENGTH@)
    } else {
        Ok(cnpj_checks(digits))
    }
}

/// `out` is the result that `expected` describes.
pub open spec fn says(out: Result<bool, String>, expected: Result<bool, Seq<char>>) -> bool {
    match (out, expected) {
        (Ok(found), Ok(wanted)) => found == wanted,
        (Err(message), Err(wanted)) => message@ == wanted,
        _ => false,
    }
}

/// The weighted sum of a prefix is not negative and not above that of a
/// longer prefix, as long as no weight is negative.
pub proof fn lemma_weighted_sum_grows(digits: Seq<u32>, first_weight: int, shorter: int, longer: int)
    requires
        0 <= shorter <= longer <= digits.len(),
        longer <= first_weight + 1,
    ensures
        0 <= weighted_sum(digits.take(shorter), first_weight) <= weighted_sum(
            digits.take(longer),
            first_weight,
        ),
    decreases longer,
{
    if longer == 0 {
    } else if shorter == longer {
        lemma_weighted_sum_grows(digits, first_weight, longer - 1, longer - 1);
        assert(digits.take(longer).drop_last() =~= digits.take(longer - 1));
        assert(0 <= digits[longer - 1] * (first_weight - (longer - 1))) by (nonlinear_arith)
            requires
                0 <= first_weight - (longer - 1),
                0 <= digits[longer - 1],
        ;
    } else {
        lemma_weighted_sum_grows(digits, first_weight, shorter, longer - 1);
        assert(digits.take(longer).drop_last() =~= digits.take(longer - 1));
        assert(0 <= digits[longer - 1] * (first_weight - (longer - 1))) by (nonlinear_arith)
            requires
                0 <= first_weight - (longer - 1),
                0 <= digits[longer - 1],
        ;
    }
}

/// The weighted sum of decimal digits is small.
pub proof fn lemma_weighted_sum_of_digits(digits: Seq<u32>, first_weight: int)
    requires
        is_digits(digits),
        digits.len() <= first_weight + 1,
    ensures
        0 <= weighted_sum(digits, first_weight) <= 9 * first_weight * digits.len(),
    decreases digits.len(),
{
    if digits.len() > 0 {
        let rest = digits.drop_last();
        assert(is_digits(rest));
        lemma_weighted_sum_of_digits(rest, first_weight);
        let weight = first_weight - (digits.len() - 1);
        let last = digits.last() as int;
        assert(last < 10);
        assert(0 <= last * weight <= 9 * first_weight) by (nonlinear_arith)
            requires
                0 <= last <= 9,
                0 <= weight <= first_weight,
        ;
        assert(9 * first_weight * digits.len() == 9 * first_weight * rest.len() + 9 * first_weight)
            by (nonlinear_arith)
            requires
                digits.len() == rest.len() + 1,
        ;
    }
}

/// A generated CPF passes the check, unless its eleven digits are all the
/// same.
pub proof fn lemma_generated_cpf_checks(base: Seq<u32>)
    requires
        base.len() == 9,
        is_digits(base),
    ensures
        cpf_digits(base).len() == 11,
        is_digits(cpf_digits(base)),
        cpf_checks(cpf_digits(base)) <==> !all_same(cpf_digits(base)),
{
    let first = check_digit(weighted_sum(base, 10)) as u32;
    let second = check_digit(weighted_sum(base.push(first), 11)) as u32;
    let digits = cpf_digits(base);
    assert(digits.take(9) =~= base);
    assert(digits.take(10) =~= base.push(first));
    assert forall|i: int| 0 <= i < digits.len() implies #[trigger] digits[i] < 10 by {
        if i < 9 {
            assert(digits[i] == base[i]);
        }
    }
}

/// A generated CNPJ passes the check, unless its fourteen digits are all
/// the same.
pub proof fn lemma_generated_cnpj_checks(root: Seq<u32>)
    requires
        root.len() == 8,
        is_digits(root),
    ensures
        cnpj_digits(root).len() == 14,
        is_digits(cnpj_digits(root)),
        cnpj_checks(cnpj_digits(root)),
{
    let body = root + head_office();
    let first = check_digit(dot(body, cnpj_first_weights())) as u32;
    let second = check_digit(dot(body.push(first), cnpj_second_weights())) as u32;
    let digits = cnpj_digits(root);
    assert(digits.take(12) =~= body);
    assert(digits.take(13) =~= body.push(first));
    assert forall|i: int| 0 <= i < digits.len() implies #[trigger] digits[i] < 10 by {
        if i < 8 {
            assert(digits[i] == root[i]);
        }
    }
    assert(digits[10] == 0 && digits[11] == 1);
}

/// The digits of two texts, one after the other, are the digits of the
/// first followed by those of the second.
pub proof fn lemma_digits_of_concat(first: Seq<char>, second: Seq<char>)
    ensures
        digits_of(first + second) == digits_of(first) + digits_of(second),
    decreases second.len(),
{
    if second.len() == 0 {
        assert(first + second =~= first);
        assert(digits_of(first) + digits_of(second) =~= digits_of(first));
    } else {
        assert((first + second).drop_last() =~= first + second.drop_last());
        lemma_digits_of_concat(first, second.drop_last());
        assert(digits_of(first + second) =~= digits_of(first) + digits_of(second));
    }
}

/// The digits of digits written as text are those digits.
pub proof fn lemma_digits_of_digits_text(digits: Seq<u32>)
    requires
        is_digits(digits),
    ensures
        digits_of(digits_text(digits)) == digits,
    decreases digits.len(),
{
    let text = digits_text(digits);
    if digits.len() == 0 {
        assert(digits_of(text) =~= digits);
    } else {
        assert(text.drop_last() =~= digits_text(digits.drop_last()));
        assert(is_digits(digits.drop_last()));
        lemma_digits_of_digits_text(digits.drop_last());
        assert(digits.last() < 10);
        assert(text.last() == digit_char(digits.last() as int));
        assert(digits_of(text) =~= digits);
    }
}

/// The digits of a text that ends with a group of digits and a separator.
proof fn lemma_digits_of_group(before: Seq<char>, group: Seq<u32>, separator: Seq<char>)
    requires
        is_digits(group),
        digits_of(separator) == Seq::<u32>::empty(),
    ensures
        digits_of(before + digits_text(group) + separator) == digits_of(before) + group,
{
    lemma_digits_of_concat(before + digits_text(group), separator);
    lemma_digits_of_concat(before, digits_text(group));
    lemma_digits_of_digits_text(group);
    assert(digits_of(before) + group + Seq::<u32>::empty() =~= digits_of(before) + group);
}

/// A character that is no digit holds no digit.
proof fn lemma_no_digit(separator: char)
    requires
        !('0' <= separator <= '9'),
    ensures
        digits_of(seq![separator]) == Seq::<u32>::empty(),
{
    let text = seq![separator];
    assert(text.last() == separator);
    assert(text.drop_last() =~= Seq::<char>::empty());
    assert(digits_of(text.drop_last()) =~= Seq::<u32>::empty());
}

/// The digits that a CPF written as text holds are those of the CPF,
/// with the mask or without.
pub proof fn lemma_digits_of_cpf_text(digits: Seq<u32>, masked: bool)
    requires
        digits.len() == 11,
        is_digits(digits),
    ensures
        digits_of(cpf_text(digits, masked)) == digits,
{
    if masked {
        let none = Seq::<char>::empty();
        lemma_no_digit('.');
        lemma_no_digit('-');
        assert(digits_of(none) =~= Seq::<u32>::empty());
        let a = none + digits_text(digits.subrange(0, 3)) + seq!['.'];
        lemma_digits_of_group(none, digits.subrange(0, 3), seq!['.']);
        let b = a + digits_text(digits.subrange(3, 6)) + seq!['.'];
        lemma_digits_of_group(a, digits.subrange(3, 6), seq!['.']);
        let c = b + digits_text(digits.subrange(6, 9)) + seq!['-'];
        lemma_digits_of_group(b, digits.subrange(6, 9), seq!['-']);
        let d = c + digits_text(digits.subrange(9, 11)) + none;
        lemma_digits_of_group(c, digits.subrange(9, 11), none);
        assert(d =~= cpf_text(digits, masked));
        assert(digits_of(d) =~= digits);
    } else {
        lemma_digits_of_digits_text(digits);
    }
}

/// The digits that a CNPJ written as text holds are those of the CNPJ,
/// with the mask or without.
pub proof fn lemma_digits_of_cnpj_text(digits: Seq<u32>, masked: bool)
    requires
        digits.len() == 14,
        is_digits(digits),
    ensures
        digits_of(cnpj_text(digits, masked)) == digits,
{
    if masked {
        let none = Seq::<char>::empty();
        lemma_no_digit('.');
        lemma_no_digit('/');
        lemma_no_digit('-');
        assert(digits_of(none) =~= Seq::<u32>::empty());
        let a = none + digits_text(digits.subrange(0, 2)) + seq!['.'];
        lemma_digits_of_group(none, digits.subrange(0, 2), seq!['.']);
        let b = a + digits_text(digits.subrange(2, 5)) + seq!['.'];
        lemma_digits_of_group(a, digits.subrange(2, 5), seq!['.']);
        let c = b + digits_text(digits.subrange(5, 8)) + seq!['/'];
        lemma_digits_of_group(b, digits.subrange(5, 8), seq!['/']);
        let d = c + digits_text(digits.subrange(8, 12)) + seq!['-'];
        lemma_digits_of_group(c, digits.subrange(8, 12), seq!['-']);
        let e = d + digits_text(digits.subrange(12, 14)) + none;
        lemma_digits_of_group(d, digits.subrange(12, 14), none);
        assert(e =~= cnpj_text(digits, masked));
        assert(digits_of(e) =~= digits);
    } else {
        lemma_digits_of_digits_text(digits);
    }
}

/// The check of a typed CPF accepts every generated one, with the mask or
/// without, unless its eleven digits are all the same.
pub proof fn lemma_generated_cpf_is_accepted(base: Seq<u32>, masked: bool)
    requires
        base.len() == 9,
        is_digits(base),
    ensures
        cpf_verdict(cpf_text(cpf_digits(base), masked)) == Ok::<bool, Seq<char>>(
            !all_same(cpf_digits(base)),
        ),
{
    lemma_generated_cpf_checks(base);
    lemma_digits_of_cpf_text(cpf_digits(base), masked);
}

/// The check of a typed CNPJ accepts every generated one, with the mask or
/// without.
pub proof fn lemma_generated_cnpj_is_accepted(root: Seq<u32>, masked: bool)
    requires
        root.len() == 8,
        is_digits(root),
    ensures
        cnpj_verdict(cnpj_text(cnpj_digits(root), masked)) == Ok::<bool, Seq<char>>(true),
{
    lemma_generated_cnpj_checks(root);
    lemma_digits_of_cnpj_text(cnpj_digits(root), masked);
}

/// The check digit of `cpf`, its first digit weighted by `inicial_weight`
/// and each next one by one less.
pub fn calculate_digit(cpf: &[u32], inicial_weight: u32) -> (found: u32)
    requires
        cpf@.len() <= inicial_weight + 1,
        weighted_sum(cpf@, inicial_weight as int) <= u32::MAX,
    ensures
        found == check_digit(weighted_sum(cpf@, inicial_weight as int)),
        found < 10,
{
    let mut sum: u32 = 0;
    let mut at: usize = 0;
    assert(cpf@.take(cpf@.len() as int) =~= cpf@);
    while at < cpf.len()
        invariant
            at <= cpf.len(),
            cpf@.len() <= inicial_weight + 1,
            weighted_sum(cpf@.take(cpf@.len() as int), inicial_weight as int) <= u32::MAX,
            sum == weighted_sum(cpf@.take(at as int), inicial_weight as int),
        decreases cpf.len() - at,
    {
        proof {
            lemma_weighted_sum_grows(cpf@, inicial_weight as int, at as int, at + 1);
            lemma_weighted_sum_grows(cpf@, inicial_weight as int, at + 1, cpf@.len() as int);
            assert(cpf@.take(at + 1).drop_last() =~= cpf@.take(at as int));
        }
        let weight: u32 = inicial_weight - at as u32;
        sum = sum + cpf[at] * weight;
        at = at + 1;
    }
    let rest: u32 = sum % 11;
    if rest < 2 {
        0
    } else {
        11 - rest
    }
}

/// The check digit of `digits` under `weights`.
fn weighted_digit(digits: &[u32], weights: &[u32]) -> (found: u32)
    requires
        is_digits(digits@),
        digits@.len() <= weights@.len() <= 16,
        forall|i: int| 0 <= i < weights@.len() ==> #[trigger] weights@[i] <= 9,
    ensures
        found == check_digit(dot(digits@, weights@)),
        found < 10,
{
    let mut sum: u32 = 0;
    let mut at: usize = 0;
    while at < digits.len()
        invariant
            at <= digits.len(),
            is_digits(digits@),
            digits@.len() <= weights@.len() <= 16,
            forall|i: int| 0 <= i < weights@.len() ==> #[trigger] weights@[i] <= 9,
            sum == dot(digits@.take(at as int), weights@),
            sum <= 81 * at,
        decreases digits.len() - at,
    {
        proof {
            assert(digits@.take(at + 1).drop_last() =~= digits@.take(at as int));
            assert(digits@[at as int] < 10);
            assert(weights@[at as int] <= 9);
            assert(digits@[at as int] * weights@[at as int] <= 81) by (nonlinear_arith)
                requires
                    digits@[at as int] <= 9,
                    weights@[at as int] <= 9,
            ;
        }
        sum = sum + digits[at] * weights[at];
        at = at + 1;
    }
    assert(digits@.take(at as int) =~= digits@);
    let rest: u32 = sum % 11;
    if rest < 2 {
        0
    } else {
        11 - rest
    }
}

/// Appends the digits of `digits` from `from` up to `to`.
fn push_digits(text: &mut String, digits: &Vec<u32>, from: usize, to: usize)
    requires
        from <= to <= digits.len(),
        is_digits(digits@),
    ensures
        final(text)@ == old(text)@ + digits_text(digits@.subrange(from as int, to as int)),
{
    let mut at = from;
    while at < to
        invariant
            from <= at <= to <= digits.len(),
            is_digits(digits@),
            text@ == old(text)@ + digits_text(digits@.subrange(from as int, at as int)),
        decreases to - at,
    {
        assert(digits@[at as int] < 10);
        text.push(digit(digits[at] as u8));
        at = at + 1;
        assert(text@ =~= old(text)@ + digits_text(digits@.subrange(from as int, at as int)));
    }
}

/// The CPF that begins with the nine digits of `base`, as text.
pub fn cpf_from_base(base: Vec<u32>, com_mascara: bool) -> (out: String)
    requires
        base@.len() == 9,
        is_digits(base@),
    ensures
        out@ == cpf_text(cpf_digits(base@), com_mascara),
{
    let mut cpf = base;
    proof {
        lemma_weighted_sum_of_digits(cpf@, 10);
    }
    let first_digit = calculate_digit(cpf.as_slice(), 10);
    cpf.push(first_digit);
    proof {
        lemma_weighted_sum_of_digits(cpf@, 11);
    }
    let second_digit = calculate_digit(cpf.as_slice(), 11);
    cpf.push(second_digit);
    assert(cpf@ == cpf_digits(base@));
    let mut out = String::new();
    if com_mascara {
        push_digits(&mut out, &cpf, 0, 3);
        out.push('.');
        push_digits(&mut out, &cpf, 3, 6);
        out.push('.');
        push_digits(&mut out, &cpf, 6, 9);
        out.push('-');
        push_digits(&mut out, &cpf, 9, 11);
    } else {
        push_digits(&mut out, &cpf, 0, 11);
        assert(cpf@.subrange(0, 11) =~= cpf@);
    }
    out
}

/// The weights before the first check digit of a CNPJ.
fn first_weights() -> (weights: Vec<u32>)
    ensures
        weights@ == cnpj_first_weights(),
{
    vec![5, 4, 3, 2, 9, 8, 7, 6, 5, 4, 3, 2]
}

/// The weights before the second check digit of a CNPJ.
fn second_weights() -> (weights: Vec<u32>)
    ensures
        weights@ == cnpj_second_weights(),
{
    vec![6, 5, 4, 3, 2, 9, 8, 7, 6, 5, 4, 3, 2]
}

/// The CNPJ of the head office whose number begins with the eight digits
/// of `root`, as text.
pub fn cnpj_from_root(root: Vec<u32>, com_mascara: bool) -> (out: String)
    requires
        root@.len() == 8,
        is_digits(root@),
    ensures
        out@ == cnpj_text(cnpj_digits(root@), com_mascara),
{
    let mut cnpj = root;
    cnpj.push(0);
    cnpj.push(0);
    cnpj.push(0);
    cnpj.push(1);
    assert(cnpj@ =~= root@ + head_office());
    let first = first_weights();
    let second = second_weights();
    let first_digit = weighted_digit(cnpj.as_slice(), first.as_slice());
    cnpj.push(first_digit);
    let second_digit = weighted_digit(cnpj.as_slice(), second.as_slice());
    cnpj.push(second_digit);
    assert(cnpj@ == cnpj_digits(root@));
    let mut out = String::new();
    if com_mascara {
        push_digits(&mut out, &cnpj, 0, 2);
        out.push('.');
        push_digits(&mut out, &cnpj, 2, 5);
        out.push('.');
        push_digits(&mut out, &cnpj, 5, 8);
        out.push('/');
        push_digits(&mut out, &cnpj, 8, 12);
        out.push('-');
        push_digits(&mut out, &cnpj, 12, 14);
    } else {
        push_digits(&mut out, &cnpj, 0, 14);
        assert(cnpj@.subrange(0, 14) =~= cnpj@);
    }
    out
}

/// `count` digits drawn at random.
fn random_digits(count: usize) -> (drawn: Vec<u32>)
    ensures
        drawn@.len() == count,
        is_digits(drawn@),
{
    let mut rng = thread_rng();
    let mut drawn: Vec<u32> = Vec::new();
    while drawn.len() < count
        invariant
            drawn@.len() <= count,
            is_digits(drawn@),
        decreases count - drawn.len(),
    {
        let next = random_digit(&mut rng);
        drawn.push(next);
    }
    drawn
}

/// A CPF whose first nine digits are drawn at random, bare or as
/// `XXX.XXX.XXX-XX`.
pub fn gerar_cpf(com_mascara: bool) -> (out: String)
    ensures
        exists|base: Seq<u32>|
            base.len() == 9 && is_digits(base) && out@ == cpf_text(
                #[trigger] cpf_digits(base),
                com_mascara,
            ),
{
    let base = random_digits(9);
    cpf_from_base(base, com_mascara)
}

/// The CNPJ of a head office whose first eight digits are drawn at random,
/// bare or as `XX.XXX.XXX/XXXX-XX`.
pub fn gerar_cnpj(com_mascara: bool) -> (out: String)
    ensures
        exists|root: Seq<u32>|
            root.len() == 8 && is_digits(root) && out@ == cnpj_text(
                #[trigger] cnpj_digits(root),
                com_mascara,
            ),
{
    let root = random_digits(8);
    cnpj_from_root(root, com_mascara)
}

/// The decimal digits that occur in `text`.
pub fn extract_digits(text: &str) -> (digits: Vec<u32>)
    ensures
        digits@ == digits_of(text@),
        is_digits(digits@),
{
    let chars = chars_of(text);
    let mut digits: Vec<u32> = Vec::new();
    let mut at: usize = 0;
    assert(chars@.take(0) =~= Seq::<char>::empty());
    while at < chars.len()
        invariant
            at <= chars.len(),
            digits@ == digits_of(chars@.take(at as int)),
            is_digits(digits@),
        decreases chars.len() - at,
    {
        assert(chars@.take(at + 1).drop_last() =~= chars@.take(at as int));
        let c = chars[at];
        if '0' <= c && c <= '9' {
            digits.push(c as u32 - 0x30);
        }
        at = at + 1;
    }
    assert(chars@.take(at as int) =~= chars@);
    digits
}

/// Whether every digit is the same.
fn same_digits(digits: &Vec<u32>) -> (same: bool)
    ensures
        same == all_same(digits@),
{
    let mut at: usize = 1;
    while at < digits.len()
        invariant
            1 <= at,
            forall|i: int| 0 <= i < at && i < digits.len() ==> #[trigger] digits@[i] == digits@[0],
        decreases digits.len() - at,
    {
        if digits[at] != digits[0] {
            return false;
        }
        at = at + 1;
    }
    true
}

/// Checks a typed CPF. All but its digits is skipped.
pub fn validar_cpf(cpf_input: &str) -> (out: Result<bool, String>)
    ensures
        says(out, cpf_verdict(cpf_input@)),
{
    let digits = extract_digits(cpf_input);
    if digits.len() != 11 {
        return Err(String::from_str(MSG_CPF_LENGTH));
    }
    if same_digits(&digits) {
        return Ok(false);
    }
    let nine = slice_subrange(digits.as_slice(), 0, 9);
    let ten = slice_subrange(digits.as_slice(), 0, 10);
    proof {
        assert(nine@ =~= digits@.take(9));
        assert(ten@ =~= digits@.take(10));
        assert(is_digits(nine@));
        assert(is_digits(ten@));
        lemma_weighted_sum_of_digits(nine@, 10);
        lemma_weighted_sum_of_digits(ten@, 11);
    }
    let first_digit = calculate_digit(nine, 10);
    if first_digit != digits[9] {
        return Ok(false);
    }
    let second_digit = calculate_digit(ten, 11);
    if second_digit != digits[10] {
        return Ok(false);
    }
    Ok(true)
}

/// Checks a typed CNPJ. All but its digits is skipped.
pub fn validar_cnpj(cnpj_input: &str) -> (out: Result<bool, String>)
    ensures
        says(out, cnpj_verdict(cnpj_input@)),
{
    let digits = extract_digits(cnpj_input);
    if digits.len() != 14 {
        return Err(String::from_str(MSG_CNPJ_LENGTH));
    }
    if same_digits(&digits) {
        return Ok(false);
    }
    let first = first_weights();
    let second = second_weights();
    let twelve = slice_subrange(digits.as_slice(), 0, 12);
    let thirteen = slice_subrange(digits.as_slice(), 0, 13);
    proof {
        assert(twelve@ =~= digits@.take(12));
        assert(thirteen@ =~= digits@.take(13));
        assert(is_digits(twelve@));
        assert(is_digits(thirteen@));
    }
    let first_digit = weighted_digit(twelve, first.as_slice());
    if first_digit != digits[12] {
        return Ok(false);
    }
    let second_digit = weighted_digit(thirteen, second.as_slice());
    if second_digit != digits[13] {
        return Ok(false);
    }
    Ok(true)
}

} // verus!
