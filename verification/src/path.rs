//! Loop-device path strings: the namespace prefix joined with a decimal
//! index, no leading zeros, no sign.

use vstd::prelude::*;

verus! {

/// The character standing for one decimal digit value.
pub open spec fn digit_char(d: nat) -> char {
    if d == 0 {
        '0'
    } else if d == 1 {
        '1'
    } else if d == 2 {
        '2'
    } else if d == 3 {
        '3'
    } else if d == 4 {
        '4'
    } else if d == 5 {
        '5'
    } else if d == 6 {
        '6'
    } else if d == 7 {
        '7'
    } else if d == 8 {
        '8'
    } else {
        '9'
    }
}

/// The digits of `n` in base ten, most significant first; empty for zero.
pub open spec fn dec_rec(n: nat) -> Seq<char>
    decreases n,
{
    if n == 0 {
        seq![]
    } else {
        dec_rec(n / 10) + seq![digit_char(n % 10)]
    }
}

/// The decimal rendering of `n`: no leading zeros, and `0` itself renders
/// as the single digit zero.
pub open spec fn spec_decimal(n: nat) -> Seq<char> {
    if n == 0 {
        seq!['0']
    } else {
        dec_rec(n)
    }
}

/// The path of the loop device with the given index: the namespace prefix
/// followed by the index in decimal.
pub open spec fn spec_device_path(n: nat) -> Seq<char> {
    "/dev/loop"@ + spec_decimal(n)
}

fn digit_to_str(d: u32) -> (s: &'static str)
    requires
        d < 10,
    ensures
        s@ == seq![digit_char(d as nat)],
{
    proof {
        reveal_strlit("0");
        reveal_strlit("1");
        reveal_strlit("2");
        reveal_strlit("3");
        reveal_strlit("4");
        reveal_strlit("5");
        reveal_strlit("6");
        reveal_strlit("7");
        reveal_strlit("8");
        reveal_strlit("9");
    }
    if d == 0 {
        "0"
    } else if d == 1 {
        "1"
    } else if d == 2 {
        "2"
    } else if d == 3 {
        "3"
    } else if d == 4 {
        "4"
    } else if d == 5 {
        "5"
    } else if d == 6 {
        "6"
    } else if d == 7 {
        "7"
    } else if d == 8 {
        "8"
    } else {
        "9"
    }
}

/// Renders a number in decimal, most significant digit first, with no
/// leading zeros and no sign.
pub fn decimal_string(n: u32) -> (s: String)
    ensures
        s@ == spec_decimal(n as nat),
{
    if n == 0 {
        let z = String::from_str(digit_to_str(0));
        assert(z@ =~= spec_decimal(0));
        return z;
    }
    let mut rev: Vec<u32> = Vec::new();
    let mut m: u32 = n;
    while m > 0
        invariant
            dec_rec(n as nat) =~= dec_rec(m as nat) + Seq::new(
                rev@.len(),
                |i: int| digit_char(rev@[rev@.len() - 1 - i] as nat),
            ),
            forall|i: int| 0 <= i < rev@.len() ==> rev@[i] < 10,
        decreases m,
    {
        let d: u32 = m % 10;
        let ghost old_rev = rev@;
        rev.push(d);
        m = m / 10;
        proof {
            let digits = Seq::new(
                rev@.len(),
                |i: int| digit_char(rev@[rev@.len() - 1 - i] as nat),
            );
            let old_digits = Seq::new(
                old_rev.len(),
                |i: int| digit_char(old_rev[old_rev.len() - 1 - i] as nat),
            );
            assert(digits =~= seq![digit_char(d as nat)] + old_digits);
        }
    }
    let mut s = String::new();
    let total: usize = rev.len();
    let ghost all = Seq::new(
        rev@.len(),
        |i: int| digit_char(rev@[rev@.len() - 1 - i] as nat),
    );
    let mut j: usize = 0;
    while j < total
        invariant
            total == rev@.len(),
            all =~= Seq::new(
                rev@.len(),
                |i: int| digit_char(rev@[rev@.len() - 1 - i] as nat),
            ),
            forall|i: int| 0 <= i < rev@.len() ==> rev@[i] < 10,
            j <= total,
            s@ =~= all.subrange(0, j as int),
        decreases total - j,
    {
        let d = rev[total - 1 - j];
        s.append(digit_to_str(d));
        j = j + 1;
        proof {
            assert(s@ =~= all.subrange(0, j as int));
        }
    }
    proof {
        assert(s@ =~= dec_rec(n as nat));
    }
    s
}

/// The first loop device, index zero, lives at the conventional path
/// `/dev/loop0`.
pub proof fn lemma_first_device_path()
    ensures
        spec_device_path(0) == "/dev/loop0"@,
{
    reveal_strlit("/dev/loop");
    reveal_strlit("/dev/loop0");
    assert(spec_device_path(0) =~= "/dev/loop0"@);
}

/// Builds the device path for a loop index: the namespace prefix followed by
/// the index in decimal.
pub fn device_path(n: u32) -> (s: String)
    ensures
        s@ == spec_device_path(n as nat),
{
    let mut s = String::from_str("/dev/loop");
    let digits = decimal_string(n);
    s.append(digits.as_str());
    s
}

} // verus!
