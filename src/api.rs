use vstd::prelude::*;
use vstd::string::*;

verus! {

/// Status of a successful response.
pub const OK: u16 = 200;

/// A response of the data route: a status code and a text body.
#[derive(Clone, Debug)]
pub struct Res {
    pub status: u16,
    pub body: String,
}

/// The decimal digits of `n`, most significant first, without leading zeros.
pub open spec fn decimal(n: nat) -> Seq<char>
    decreases n,
{
    if n < 10 {
        seq![digit_char(n)]
    } else {
        decimal(n / 10).push(digit_char(n % 10))
    }
}

pub open spec fn digit_char(d: nat) -> char {
    ((48 + d) as u8) as char
}

fn digit_text(d: u8) -> (r: &'static str)
    requires
        d < 10,
    ensures
        r@ == seq![digit_char(d as nat)],
{
    proof {
        reveal_strlit("0");
        reveal_strlit("1");
        reveal_strlit("2");
        reveal_strlit("3");
        reveal_strlit("4");
        reveal_strlit("5");
        reveal_strlit("6");
        reveal_strlit("7");
        reveal_strlit("8");
        reveal_strlit("9");
    }
    match d {
        0 => "0",
        1 => "1",
        2 => "2",
        3 => "3",
        4 => "4",
        5 => "5",
        6 => "6",
        7 => "7",
        8 => "8",
        _ => "9",
    }
}

/// The decimal text of a byte.
pub fn byte_text(n: u8) -> (r: String)
    ensures
        r@ == decimal(n as nat),
    decreases n,
{
    if n < 10 {
        digit_text(n).to_owned()
    } else {
        let mut high = byte_text(n / 10);
        high.append(digit_text(n % 10));
        high
    }
}

/// Relies on rand's `random::<u8>`, which draws a byte from the thread-local
/// generator; nothing is known of which byte.
#[verifier::external_body]
fn random_byte() -> (r: u8) {
    rand::random::<u8>()
}

impl Res {
    pub fn new(status: u16, body: String) -> (r: Self)
        ensures
            r.status == status,
            r.body == body,
    {
        Res { status, body }
    }

    /// A successful response whose body is the decimal text of `value`.
    pub fn from_byte(value: u8) -> (r: Self)
        ensures
            r.status == OK,
            r.body@ == decimal(value as nat),
    {
        Res::new(OK, byte_text(value))
    }

    /// A successful response carrying the decimal text of a random byte.
    pub fn random_response() -> (r: Self)
        ensures
            r.status == OK,
            exists|b: u8| r.body@ == decimal(b as nat),
    {
        Res::from_byte(random_byte())
    }
}

} // verus!
