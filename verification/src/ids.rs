use vstd::prelude::*;

use vstd::string::StringExecFns;

verus! {

/// The decimal digit character for `d` (any value of ten or more also yields
/// a digit, so the image is always within `'0'..='9'`).
pub open spec fn digit_char(d: nat) -> char {
    if d == 0 {
        '0'
    } else if d == 1 {
        '1'
    } else if d == 2 {
        '2'
    } else if d == 3 {
        '3'
    } else if d == 4 {
        '4'
    } else if d == 5 {
        '5'
    } else if d == 6 {
        '6'
    } else if d == 7 {
        '7'
    } else if d == 8 {
        '8'
    } else {
        '9'
    }
}

/// The base-10 form of `n`, most significant digit first, with no leading
/// zeros except for the value zero itself.
pub open spec fn decimal_of(n: nat) -> Seq<char>
    decreases n,
{
    if n < 10 {
        seq![digit_char(n)]
    } else {
        decimal_of(n / 10).push(digit_char(n % 10))
    }
}

pub open spec fn is_decimal_digit(c: char) -> bool {
    '0' <= c && c <= '9'
}

/// `s` consists of decimal digit characters only.
pub open spec fn all_decimal_digits(s: Seq<char>) -> bool {
    forall|i: int| 0 <= i < s.len() ==> is_decimal_digit(s[i])
}

/// What the `base64` crate's URL-safe unpadded engine returns for the bytes
/// of the ASCII string `s`.
pub uninterp spec fn base64url_of(s: Seq<char>) -> Seq<char>;

/// A character of the URL-safe base64 alphabet of RFC 4648: letters, digits,
/// `-` and `_`.
pub open spec fn base64url_char(c: char) -> bool {
    ||| 'A' <= c && c <= 'Z'
    ||| 'a' <= c && c <= 'z'
    ||| '0' <= c && c <= '9'
    ||| c == '-'
    ||| c == '_'
}

/// The shape every generated identifier has: the unpadded URL-safe encoding
/// of a one-to-ten digit decimal string, so two to fourteen characters, all
/// from the URL-safe alphabet.
pub open spec fn id_wf(s: Seq<char>) -> bool {
    &&& 2 <= s.len() <= 14
    &&& forall|i: int| 0 <= i < s.len() ==> base64url_char(s[i])
}

pub open spec fn pow10(k: nat) -> nat
    decreases k,
{
    if k == 0 {
        1
    } else {
        10 * pow10((k - 1) as nat)
    }
}

/// The decimal form is never empty and consists of digit characters only.
pub proof fn lemma_decimal_digits(n: nat)
    ensures
        decimal_of(n).len() >= 1,
        all_decimal_digits(decimal_of(n)),
    decreases n,
{
    if n >= 10 {
        lemma_decimal_digits(n / 10);
    }
}

/// Distinct values have distinct decimal forms.
pub proof fn lemma_decimal_of_injective(a: nat, b: nat)
    requires
        a != b,
    ensures
        decimal_of(a) != decimal_of(b),
    decreases a,
{
    let da = decimal_of(a);
    let db = decimal_of(b);
    if a < 10 && b < 10 {
        assert(digit_char(a) != digit_char(b));
        assert(da[0] != db[0]);
    } else if a < 10 {
        lemma_decimal_digits(b / 10);
        assert(da.len() == 1 && db.len() >= 2);
    } else if b < 10 {
        lemma_decimal_digits(a / 10);
        assert(db.len() == 1 && da.len() >= 2);
    } else {
        if a % 10 != b % 10 {
            assert(digit_char(a % 10) != digit_char(b % 10));
            assert(da.last() != db.last());
        } else {
            assert(a / 10 != b / 10) by (nonlinear_arith)
                requires
                    a != b,
                    a % 10 == b % 10,
                    a >= 10,
                    b >= 10,
            ;
            lemma_decimal_of_injective(a / 10, b / 10);
            if da == db {
                assert(da.drop_last() =~= decimal_of(a / 10));
                assert(db.drop_last() =~= decimal_of(b / 10));
                assert(false);
            }
        }
    }
}

/// A value below `10^k` has at most `k` decimal digits.
pub proof fn lemma_decimal_len(n: nat, k: nat)
    requires
        1 <= k,
        n < pow10(k),
    ensures
        1 <= decimal_of(n).len() <= k,
    decreases n,
{
    if n >= 10 {
        if k == 1 {
            reveal_with_fuel(pow10, 2);
            assert(pow10(1) == 10);
            assert(false);
        }
        assert(n < 10 * pow10((k - 1) as nat));
        assert(n / 10 < pow10((k - 1) as nat)) by (nonlinear_arith)
            requires
                n < 10 * pow10((k - 1) as nat),
        ;
        lemma_decimal_len(n / 10, (k - 1) as nat);
    }
}

fn digit_str(d: u32) -> (r: &'static str)
    requires
        d < 10,
    ensures
        r@ == seq![digit_char(d as nat)],
{
    if d == 0 {
        proof {
            reveal_strlit("0");
            assert("0"@ =~= seq![digit_char(0)]);
        }
        "0"
    } else if d == 1 {
        proof {
            reveal_strlit("1");
            assert("1"@ =~= seq![digit_char(1)]);
        }
        "1"
    } else if d == 2 {
        proof {
            reveal_strlit("2");
            assert("2"@ =~= seq![digit_char(2)]);
        }
        "2"
    } else if d == 3 {
        proof {
            reveal_strlit("3");
            assert("3"@ =~= seq![digit_char(3)]);
        }
        "3"
    } else if d == 4 {
        proof {
            reveal_strlit("4");
            assert("4"@ =~= seq![digit_char(4)]);
        }
        "4"
    } else if d == 5 {
        proof {
            reveal_strlit("5");
            assert("5"@ =~= seq![digit_char(5)]);
        }
        "5"
    } else if d == 6 {
        proof {
            reveal_strlit("6");
            assert("6"@ =~= seq![digit_char(6)]);
        }
        "6"
    } else if d == 7 {
        proof {
            reveal_strlit("7");
            assert("7"@ =~= seq![digit_char(7)]);
        }
        "7"
    } else if d == 8 {
        proof {
            reveal_strlit("8");
            assert("8"@ =~= seq![digit_char(8)]);
        }
        "8"
    } else {
        proof {
            reveal_strlit("9");
            assert("9"@ =~= seq![digit_char(9)]);
        }
        "9"
    }
}

/// The base-10 string of `n`, proved equal to its specification digit by
/// digit.
pub fn u32_to_decimal(n: u32) -> (r: String)
    ensures
        r@ == decimal_of(n as nat),
    decreases n,
{
    if n < 10 {
        digit_str(n).to_owned()
    } else {
        assert(n / 10 < n);
        let mut s = u32_to_decimal(n / 10);
        s.append(digit_str(n % 10));
        proof {
            assert(decimal_of((n / 10) as nat) + seq![digit_char((n % 10) as nat)] =~= decimal_of(
                (n / 10) as nat,
            ).push(digit_char((n % 10) as nat)));
        }
        s
    }
}

/// Relies on `rand::Rng::gen` with the `Standard` distribution: a uniformly
/// random 32-bit value, over the whole inclusive range; nothing more can be
/// said of a random value, and the call does not panic.
#[verifier::external_body]
fn random_u32() -> (n: u32)
    ensures
        n <= u32::MAX,
{
    rand::Rng::gen(&mut rand::thread_rng())
}

/// Relies on `base64::engine::general_purpose::URL_SAFE_NO_PAD.encode`: the
/// RFC 4648 URL-safe alphabet without padding, output length as the crate's
/// `encoded_len` computes it for unpadded output, and an output that is a
/// function of the input bytes alone. The encoding is injective — the
/// crate's `decode` recovers the input bytes from it — so distinct digit
/// strings have distinct encodings. The digits-only precondition keeps the
/// character count of `s` equal to its byte count.
#[verifier::external_body]
fn base64url_encode(s: &str) -> (r: String)
    requires
        all_decimal_digits(s@),
    ensures
        r@ == base64url_of(s@),
        forall|a: Seq<char>|
            #![trigger base64url_of(a)]
            all_decimal_digits(a) && a != s@ ==> base64url_of(a) != r@,
        r@.len() == (s@.len() * 4 + 2) / 3,
        forall|i: int| 0 <= i < r@.len() ==> base64url_char(r@[i]),
{
    base64::Engine::encode(&base64::engine::general_purpose::URL_SAFE_NO_PAD, s)
}

/// Generate a fresh identifier: draw a uniformly random 32-bit value, take
/// its decimal form, and encode that with the URL-safe base64 alphabet,
/// unpadded. The token pins the draw down: a token of any other draw
/// differs, so equal tokens can only come from equal draws. No uniqueness
/// check happens here; a collision surfaces at the store as a duplicate key.
pub fn generate_id() -> (r: String)
    ensures
        id_wf(r@),
        exists|n: nat|
            n <= u32::MAX && r@ == base64url_of(decimal_of(n)) && (forall|m: nat|
                m != n ==> base64url_of(decimal_of(m)) != r@),
{
    let n = random_u32();
    let dec = u32_to_decimal(n);
    proof {
        lemma_decimal_digits(n as nat);
        reveal_with_fuel(pow10, 11);
        assert(pow10(10) == 10_000_000_000);
        lemma_decimal_len(n as nat, 10);
    }
    let r = base64url_encode(dec.as_str());
    proof {
        let nn = n as nat;
        assert forall|m: nat| m != nn implies base64url_of(decimal_of(m)) != r@ by {
            lemma_decimal_digits(m);
            lemma_decimal_of_injective(m, nn);
        }
        assert(nn <= u32::MAX && r@ == base64url_of(decimal_of(nn)) && (forall|m: nat|
            m != nn ==> base64url_of(decimal_of(m)) != r@));
    }
    r
}

} // verus!
