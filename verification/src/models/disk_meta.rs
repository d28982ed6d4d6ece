//! Disk usage figures shown in the top bar.
use vstd::prelude::*;
use vstd::arithmetic::div_mod::{lemma_div_denominator, lemma_fundamental_div_mod};
use crate::disk_client::DiskMetaResponse;
use crate::utils::text::{decimal, decimal_text, push_char, push_str, two_digit_text, two_digits};

verus! {

/// Two to the power 53: below it every integer is exactly a double.
pub open spec fn exact_double_bound() -> nat {
    0x20_0000_0000_0000
}

/// Bytes in one gigabyte as the top bar counts them (two to the power 30).
pub open spec fn gigabyte() -> nat {
    0x4000_0000
}

/// Distance between neighbouring doubles around the integer `n`.
pub open spec fn double_spacing(n: nat) -> nat
    decreases n,
{
    if n < exact_double_bound() {
        1
    } else {
        2 * double_spacing(n / 2)
    }
}

/// `a / b` rounded to the nearest integer, a tie going to the even neighbour.
pub open spec fn round_half_even(a: nat, b: nat) -> nat
    recommends
        b > 0,
{
    let q = a / b;
    let r = a % b;
    if 2 * r > b || (2 * r == b && q % 2 == 1) {
        q + 1
    } else {
        q
    }
}

/// The value of the double nearest to `n`, as the conversion `n as f64` gives it.
pub open spec fn double_value(n: nat) -> nat {
    round_half_even(n, double_spacing(n)) * double_spacing(n)
}

/// Hundredths of a gigabyte in `bytes`, rounded as two-decimal float formatting rounds.
pub open spec fn gigabyte_hundredths(bytes: nat) -> nat {
    round_half_even(double_value(bytes) * 100, gigabyte())
}

/// The text `format!("{:.2} GB", bytes as f64 / 1073741824.0)` produces.
pub open spec fn space_text(bytes: nat) -> Seq<char> {
    let h = gigabyte_hundredths(bytes);
    decimal_text(h / 100) + seq!['.'] + two_digits(h % 100) + seq![' ', 'G', 'B']
}

proof fn lemma_round_bound(a: nat, b: nat)
    requires
        b > 0,
    ensures
        round_half_even(a, b) <= a / b + 1,
        (a / b) * b <= a,
{
    lemma_fundamental_div_mod(a as int, b as int);
    assert((a / b) * b <= a) by (nonlinear_arith)
        requires
            a as int == b * (a as int / b as int) + a as int % b as int,
            a as int % b as int >= 0,
    ;
}

fn round_half_even_exec(a: u128, b: u128) -> (r: u128)
    requires
        b > 0,
        a < 0x1_0000_0000_0000_0000_0000_0000_0000,
    ensures
        r == round_half_even(a as nat, b as nat),
{
    let q = a / b;
    let rem = a % b;
    if rem > b - rem || (rem == b - rem && q % 2 == 1) {
        q + 1
    } else {
        q
    }
}

/// The value of `n as f64`, as an exact integer.
fn double_value_exec(n: u64) -> (m: u128)
    ensures
        m == double_value(n as nat),
        m <= 0x2_0000_0000_0000_0000,
{
    let mut s: u128 = 1;
    let mut k: u128 = n as u128;
    while k >= 0x20_0000_0000_0000
        invariant
            s >= 1,
            s <= 0x1000,
            k == n as nat / s as nat,
            double_spacing(n as nat) == s * double_spacing(k as nat),
        decreases k,
    {
        let ghost k0 = k;
        let ghost s0 = s;
        assert(double_spacing(k0 as nat) == 2 * double_spacing((k0 / 2) as nat));
        proof {
            lemma_div_denominator(n as int, s0 as int, 2);
            lemma_fundamental_div_mod(n as int, s0 as int);
            assert(s0 * k0 <= n) by (nonlinear_arith)
                requires
                    k0 == n as int / s0 as int,
                    s0 >= 1,
                    n as int == s0 * (n as int / s0 as int) + n as int % s0 as int,
                    n as int % s0 as int >= 0,
            ;
            assert(s0 * 2 <= 0x1000) by (nonlinear_arith)
                requires
                    s0 * k0 <= n,
                    k0 >= 0x20_0000_0000_0000,
                    n < 0x1_0000_0000_0000_0000,
                    s0 >= 1,
            ;
            assert(s0 * double_spacing(k0 as nat) == (s0 * 2) * double_spacing((k0 / 2) as nat))
                by (nonlinear_arith)
                requires
                    double_spacing(k0 as nat) == 2 * double_spacing((k0 / 2) as nat),
            ;
        }
        k = k / 2;
        s = s * 2;
    }
    assert(double_spacing(k as nat) == 1);
    assert(double_spacing(n as nat) == s) by (nonlinear_arith)
        requires
            double_spacing(n as nat) == s * double_spacing(k as nat),
            double_spacing(k as nat) == 1,
    ;
    let q = round_half_even_exec(n as u128, s);
    proof {
        lemma_round_bound(n as nat, s as nat);
        assert(q * s <= 0x2_0000_0000_0000_0000) by (nonlinear_arith)
            requires
                q <= n as nat / s as nat + 1,
                (n as nat / s as nat) * s <= n,
                n < 0x1_0000_0000_0000_0000,
                s >= 1,
                s <= 0x1000,
        ;
    }
    q * s
}

/// The top bar's rendering of a byte count: gigabytes with two decimals, then ` GB`.
pub fn space_verbose_text(bytes: u64) -> (r: String)
    ensures
        r@ == space_text(bytes as nat),
{
    let m = double_value_exec(bytes);
    let h = round_half_even_exec(m * 100, 0x4000_0000);
    let mut out = decimal(h / 100);
    push_char(&mut out, '.');
    let frac = two_digit_text(h % 100);
    push_str(&mut out, frac.as_str());
    push_char(&mut out, ' ');
    push_char(&mut out, 'G');
    push_char(&mut out, 'B');
    proof {
        assert(out@ =~= space_text(bytes as nat));
    }
    out
}

/// Disk usage and the account holder's name.
#[derive(Debug)]
pub struct DiskMeta {
    used_space: u64,
    total_space: u64,
    pub username: String,
}

impl Clone for DiskMeta {
    fn clone(&self) -> (r: Self)
        ensures
            r == *self,
    {
        DiskMeta {
            used_space: self.used_space,
            total_space: self.total_space,
            username: self.username.clone(),
        }
    }
}

impl DiskMeta {
    /// Bytes in use.
    pub closed spec fn used_space_value(&self) -> u64 {
        self.used_space
    }

    /// Bytes the disk holds at most.
    pub closed spec fn total_space_value(&self) -> u64 {
        self.total_space
    }

    /// The account holder's name.
    pub closed spec fn username_text(&self) -> Seq<char> {
        self.username@
    }

    /// The account holder's name.
    pub fn user_name(&self) -> (r: &str)
        ensures
            r@ == self.username_text(),
    {
        self.username.as_str()
    }

    /// Usage figures for `username`.
    pub fn new(used_space: u64, total_space: u64, username: String) -> (r: Self)
        ensures
            r.used_space_value() == used_space,
            r.total_space_value() == total_space,
            r.username_text() == username@,
    {
        DiskMeta { used_space, total_space, username }
    }

    /// Bytes in use.
    pub fn used_space(&self) -> (r: u64)
        ensures
            r == self.used_space_value(),
    {
        self.used_space
    }

    /// Bytes the disk holds at most.
    pub fn total_space(&self) -> (r: u64)
        ensures
            r == self.total_space_value(),
    {
        self.total_space
    }

    /// Bytes still free: the total less the used space, or nothing when more is used than
    /// the total.
    pub fn free_space(&self) -> (r: u64)
        ensures
            self.used_space_value() <= self.total_space_value() ==> r == self.total_space_value()
                - self.used_space_value(),
            self.used_space_value() > self.total_space_value() ==> r == 0,
    {
        self.total_space.saturating_sub(self.used_space)
    }

    /// The used space as the top bar writes it.
    pub fn used_space_verbose(&self) -> (r: String)
        ensures
            r@ == space_text(self.used_space_value() as nat),
    {
        Self::space_verbose(self.used_space)
    }

    /// The total space as the top bar writes it.
    pub fn total_space_verbose(&self) -> (r: String)
        ensures
            r@ == space_text(self.total_space_value() as nat),
    {
        Self::space_verbose(self.total_space)
    }

    /// The free space as the top bar writes it.
    pub fn free_space_verbose(&self) -> (r: String)
        ensures
            self.used_space_value() <= self.total_space_value() ==> r@ == space_text(
                (self.total_space_value() - self.used_space_value()) as nat,
            ),
            self.used_space_value() > self.total_space_value() ==> r@ == space_text(0),
    {
        Self::space_verbose(self.free_space())
    }

    /// A byte count in gigabytes with two decimals (see `space_text`).
    pub fn space_verbose(space: u64) -> (r: String)
        ensures
            r@ == space_text(space as nat),
    {
        space_verbose_text(space)
    }
}

impl From<DiskMetaResponse> for DiskMeta {
    fn from(response: DiskMetaResponse) -> (r: DiskMeta) {
        DiskMeta {
            used_space: response.used_space,
            total_space: response.total_space,
            username: response.user.display_name,
        }
    }
}

impl vstd::std_specs::convert::FromSpecImpl<DiskMetaResponse> for DiskMeta {
    open spec fn obeys_from_spec() -> bool {
        true
    }

    closed spec fn from_spec(v: DiskMetaResponse) -> DiskMeta {
        DiskMeta {
            used_space: v.used_space,
            total_space: v.total_space,
            username: v.user.display_name,
        }
    }
}

/// Usage read from the service keeps its figures and its user's name.
pub proof fn lemma_from_response(v: DiskMetaResponse)
    ensures
        <DiskMeta as vstd::std_specs::convert::FromSpec<DiskMetaResponse>>::from_spec(
            v,
        ).used_space_value() == v.used_space,
        <DiskMeta as vstd::std_specs::convert::FromSpec<DiskMetaResponse>>::from_spec(
            v,
        ).total_space_value() == v.total_space,
        <DiskMeta as vstd::std_specs::convert::FromSpec<DiskMetaResponse>>::from_spec(
            v,
        ).username_text() == v.user.display_name@,
{
}

/// A whole number of gigabytes is written with `.00`: `k` gigabytes read `k.00 GB`, for
/// every count whose bytes a double holds exactly.
pub proof fn lemma_whole_gigabytes(k: nat)
    requires
        k * gigabyte() < exact_double_bound(),
    ensures
        space_text(k * gigabyte()) == decimal_text(k) + seq!['.', '0', '0', ' ', 'G', 'B'],
{
    let b = k * gigabyte();
    assert(double_spacing(b) == 1);
    vstd::arithmetic::div_mod::lemma_fundamental_div_mod(b as int, 1);
    assert(round_half_even(b, 1) == b);
    assert(double_value(b) == b);
    assert(b * 100 == (k * 100) * 0x4000_0000) by (nonlinear_arith)
        requires
            b == k * 0x4000_0000,
    ;
    vstd::arithmetic::div_mod::lemma_div_multiples_vanish(
        (k * 100) as int,
        gigabyte() as int,
    );
    vstd::arithmetic::div_mod::lemma_mod_multiples_basic((k * 100) as int, gigabyte() as int);
    assert(gigabyte_hundredths(b) == k * 100);
    assert((k * 100) / 100 == k) by (nonlinear_arith);
    assert((k * 100) % 100 == 0) by (nonlinear_arith);
    assert(two_digits(0) =~= seq!['0', '0']);
    assert(space_text(b) =~= decimal_text(k) + seq!['.', '0', '0', ' ', 'G', 'B']);
}

}
