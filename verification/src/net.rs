//! IPv4 addresses and endpoints as plain values.

use vstd::prelude::*;

use crate::text::{chars_of, decimal, decimal_text, digit_char};

verus! {

#[derive(Clone, Copy, Debug, PartialEq, Eq, Structural)]
pub struct Ipv4 {
    pub a: u8,
    pub b: u8,
    pub c: u8,
    pub d: u8,
}

/// An IPv4 address and a port.
#[derive(Clone, Copy, Debug, PartialEq, Eq, Structural)]
pub struct Endpoint {
    pub ip: Ipv4,
    pub port: u16,
}

/// `10.0.0.1` and the like: four decimal octets joined by dots.
pub open spec fn dotted(ip: Ipv4) -> Seq<char> {
    decimal(ip.a as nat) + seq!['.'] + decimal(ip.b as nat) + seq!['.'] + decimal(ip.c as nat) + seq![
        '.',
    ] + decimal(ip.d as nat)
}

/// Whether `s` is the dotted form of some address.
pub open spec fn is_dotted(s: Seq<char>) -> bool {
    exists|ip: Ipv4| s == #[trigger] dotted(ip)
}

/// The address whose dotted form `s` is.
pub open spec fn ipv4_of(s: Seq<char>) -> Option<Ipv4> {
    if is_dotted(s) {
        Some(choose|ip: Ipv4| s == #[trigger] dotted(ip))
    } else {
        None
    }
}

proof fn lemma_decimal_octet(v: u8)
    ensures
        v < 10 ==> decimal(v as nat) == seq![digit_char(v as nat)],
        10 <= v < 100 ==> decimal(v as nat) == seq![
            digit_char(v as nat / 10),
            digit_char(v as nat % 10),
        ],
        100 <= v ==> decimal(v as nat) == seq![
            digit_char(v as nat / 100),
            digit_char(v as nat / 10 % 10),
            digit_char(v as nat % 10),
        ],
        forall|i: int| 0 <= i < decimal(v as nat).len() ==> #[trigger] decimal(v as nat)[i] != '.',
{
    reveal_with_fuel(decimal, 4);
    if v < 10 {
    } else if v < 100 {
        assert(decimal(v as nat) =~= seq![digit_char(v as nat / 10), digit_char(v as nat % 10)]);
    } else {
        assert(v as nat / 10 / 10 == v as nat / 100);
        assert(decimal(v as nat) =~= seq![
            digit_char(v as nat / 100),
            digit_char(v as nat / 10 % 10),
            digit_char(v as nat % 10),
        ]);
    }
}

proof fn lemma_decimal_octet_injective(v: u8, w: u8)
    requires
        decimal(v as nat) == decimal(w as nat),
    ensures
        v == w,
{
    lemma_decimal_octet(v);
    lemma_decimal_octet(w);
    let s = decimal(v as nat);
    if s.len() == 1 {
        assert(s[0] == digit_char(v as nat) && s[0] == digit_char(w as nat));
    } else if s.len() == 2 {
        assert(s[0] == digit_char(v as nat / 10) && s[0] == digit_char(w as nat / 10));
        assert(s[1] == digit_char(v as nat % 10) && s[1] == digit_char(w as nat % 10));
    } else {
        assert(s[0] == digit_char(v as nat / 100) && s[0] == digit_char(w as nat / 100));
        assert(s[1] == digit_char(v as nat / 10 % 10) && s[1] == digit_char(w as nat / 10 % 10));
        assert(s[2] == digit_char(v as nat % 10) && s[2] == digit_char(w as nat % 10));
    }
}

/// Where the three dots of a dotted address stand.
pub open spec fn dot_positions(ip: Ipv4) -> (int, int, int) {
    let p = decimal(ip.a as nat).len();
    let q = p + 1 + decimal(ip.b as nat).len();
    let r = q + 1 + decimal(ip.c as nat).len();
    (p as int, q as int, r as int)
}

proof fn lemma_dotted_shape(ip: Ipv4)
    ensures
        ({
            let s = dotted(ip);
            let (p, q, r) = dot_positions(ip);
            &&& 0 < p < q < r < s.len()
            &&& s[p] == '.' && s[q] == '.' && s[r] == '.'
            &&& s.subrange(0, p) == decimal(ip.a as nat)
            &&& s.subrange(p + 1, q) == decimal(ip.b as nat)
            &&& s.subrange(q + 1, r) == decimal(ip.c as nat)
            &&& s.subrange(r + 1, s.len() as int) == decimal(ip.d as nat)
            &&& forall|i: int|
                0 <= i < s.len() && i != p && i != q && i != r ==> #[trigger] s[i] != '.'
        }),
{
    let s = dotted(ip);
    let (p, q, r) = dot_positions(ip);
    lemma_decimal_octet(ip.a);
    lemma_decimal_octet(ip.b);
    lemma_decimal_octet(ip.c);
    lemma_decimal_octet(ip.d);
    assert(s.subrange(0, p) =~= decimal(ip.a as nat));
    assert(s.subrange(p + 1, q) =~= decimal(ip.b as nat));
    assert(s.subrange(q + 1, r) =~= decimal(ip.c as nat));
    assert(s.subrange(r + 1, s.len() as int) =~= decimal(ip.d as nat));
    assert forall|i: int| 0 <= i < s.len() && i != p && i != q && i != r implies #[trigger] s[i]
        != '.' by {
        if i < p {
            assert(s[i] == decimal(ip.a as nat)[i]);
        } else if i < q {
            assert(s[i] == decimal(ip.b as nat)[i - p - 1]);
        } else if i < r {
            assert(s[i] == decimal(ip.c as nat)[i - q - 1]);
        } else {
            assert(s[i] == decimal(ip.d as nat)[i - r - 1]);
        }
    }
}

/// Different addresses have different dotted forms.
pub proof fn law_dotted_injective(x: Ipv4, y: Ipv4)
    requires
        dotted(x) == dotted(y),
    ensures
        x == y,
{
    lemma_dotted_shape(x);
    lemma_dotted_shape(y);
    let s = dotted(x);
    let (p, q, r) = dot_positions(x);
    let (p2, q2, r2) = dot_positions(y);
    assert(s[p] == '.' && s[q] == '.' && s[r] == '.');
    assert(s[p2] == '.' && s[q2] == '.' && s[r2] == '.');
    lemma_decimal_octet_injective(x.a, y.a);
    lemma_decimal_octet_injective(x.b, y.b);
    lemma_decimal_octet_injective(x.c, y.c);
    lemma_decimal_octet_injective(x.d, y.d);
}

/// Reading the dotted form of an address gives the address.
pub proof fn law_ipv4_round_trip(ip: Ipv4)
    ensures
        ipv4_of(dotted(ip)) == Some(ip),
{
    assert(dotted(ip) == dotted(ip));
    let got = choose|x: Ipv4| dotted(ip) == #[trigger] dotted(x);
    law_dotted_injective(ip, got);
}

/// The position of the first dot at or after `from`, or the length.
fn next_dot(cs: &Vec<char>, from: usize) -> (r: usize)
    requires
        from <= cs@.len(),
    ensures
        from <= r <= cs@.len(),
        forall|j: int| from <= j < r ==> cs@[j] != '.',
        r < cs@.len() ==> cs@[r as int] == '.',
{
    let mut k: usize = from;
    while k < cs.len() && cs[k] != '.'
        invariant
            from <= k <= cs@.len(),
            forall|j: int| from <= j < k ==> cs@[j] != '.',
        decreases cs.len() - k,
    {
        k = k + 1;
    }
    k
}

fn digit_value(c: char) -> (r: Option<u8>)
    ensures
        match r {
            Some(v) => v < 10 && c == digit_char(v as nat),
            None => forall|v: nat| v < 10 ==> c != #[trigger] digit_char(v),
        },
{
    let u: u32 = c as u32;
    if 0x30 <= u && u <= 0x39 {
        Some((u - 0x30) as u8)
    } else {
        None
    }
}

/// The octet written in decimal at `from..to`.
fn octet_at(cs: &Vec<char>, from: usize, to: usize) -> (r: Option<u8>)
    requires
        from <= to <= cs@.len(),
    ensures
        match r {
            Some(v) => cs@.subrange(from as int, to as int) == decimal(v as nat),
            None => forall|v: u8|
                cs@.subrange(from as int, to as int) != #[trigger] decimal(v as nat),
        },
{
    let ghost seg = cs@.subrange(from as int, to as int);
    let n: usize = to - from;
    proof {
        assert(seg.len() == n);
        assert forall|v: u8| seg == #[trigger] decimal(v as nat) implies 1 <= n <= 3 by {
            lemma_decimal_octet(v);
        }
    }
    if n == 0 || n > 3 {
        return None;
    }
    let x = digit_value(cs[from]);
    let y = if n >= 2 {
        digit_value(cs[from + 1])
    } else {
        Some(0)
    };
    let z = if n >= 3 {
        digit_value(cs[from + 2])
    } else {
        Some(0)
    };
    proof {
        assert forall|v: u8| seg == #[trigger] decimal(v as nat) implies {
            &&& x is Some && y is Some && z is Some
            &&& n == 1 ==> v == x->0
            &&& n == 2 ==> v == x->0 * 10 + y->0 && x->0 != 0
            &&& n == 3 ==> v == x->0 * 100 + y->0 * 10 + z->0 && x->0 != 0
        } by {
            lemma_decimal_octet(v);
            assert(seg[0] == cs@[from as int]);
            if n >= 2 {
                assert(seg[1] == cs@[from + 1]);
            }
            if n >= 3 {
                assert(seg[2] == cs@[from + 2]);
            }
        }
    }
    match (x, y, z) {
        (Some(p), Some(q), Some(s)) => {
            let v: u16 = if n == 1 {
                p as u16
            } else if n == 2 {
                p as u16 * 10 + q as u16
            } else {
                p as u16 * 100 + q as u16 * 10 + s as u16
            };
            if (n > 1 && p == 0) || v > 255 {
                return None;
            }
            proof {
                lemma_decimal_octet(v as u8);
                assert(seg =~= decimal(v as u8 as nat));
            }
            Some(v as u8)
        },
        _ => None,
    }
}

impl Ipv4 {
    pub fn new(a: u8, b: u8, c: u8, d: u8) -> (r: Ipv4)
        ensures
            r == (Ipv4 { a, b, c, d }),
    {
        Ipv4 { a, b, c, d }
    }

    /// Parse a dotted address. Leading zeros, spaces and any other spelling are
    /// rejected: exactly the dotted forms are accepted.
    pub fn parse(s: &str) -> (r: Option<Ipv4>)
        ensures
            r == ipv4_of(s@),
    {
        let cs = chars_of(s);
        let p: usize = next_dot(&cs, 0);
        proof {
            assert forall|ip: Ipv4| s@ == #[trigger] dotted(ip) implies p == dot_positions(ip).0 by {
                lemma_dotted_shape(ip);
            }
        }
        if p == cs.len() {
            proof {
                if is_dotted(s@) {
                    let ip = choose|ip: Ipv4| s@ == #[trigger] dotted(ip);
                    lemma_dotted_shape(ip);
                }
            }
            return None;
        }
        let q: usize = next_dot(&cs, p + 1);
        proof {
            assert forall|ip: Ipv4| s@ == #[trigger] dotted(ip) implies q == dot_positions(ip).1 by {
                lemma_dotted_shape(ip);
            }
        }
        if q == cs.len() {
            proof {
                if is_dotted(s@) {
                    let ip = choose|ip: Ipv4| s@ == #[trigger] dotted(ip);
                    lemma_dotted_shape(ip);
                }
            }
            return None;
        }
        let t: usize = next_dot(&cs, q + 1);
        proof {
            assert forall|ip: Ipv4| s@ == #[trigger] dotted(ip) implies t == dot_positions(ip).2 by {
                lemma_dotted_shape(ip);
            }
        }
        if t == cs.len() {
            proof {
                if is_dotted(s@) {
                    let ip = choose|ip: Ipv4| s@ == #[trigger] dotted(ip);
                    lemma_dotted_shape(ip);
                }
            }
            return None;
        }
        let a = octet_at(&cs, 0, p);
        let b = octet_at(&cs, p + 1, q);
        let c = octet_at(&cs, q + 1, t);
        let d = octet_at(&cs, t + 1, cs.len());
        proof {
            if is_dotted(s@) {
                let ip = choose|ip: Ipv4| s@ == #[trigger] dotted(ip);
                lemma_dotted_shape(ip);
                assert(a is Some && b is Some && c is Some && d is Some);
            }
        }
        match (a, b, c, d) {
            (Some(a), Some(b), Some(c), Some(d)) => {
                let ip = Ipv4 { a, b, c, d };
                proof {
                    assert(s@ =~= dotted(ip));
                    law_ipv4_round_trip(ip);
                }
                Some(ip)
            },
            _ => None,
        }
    }

    /// The dotted form.
    pub fn to_text(&self) -> (r: String)
        ensures
            r@ == dotted(*self),
    {
        proof {
            reveal_strlit(".");
        }
        let mut out = decimal_text(self.a as u64);
        out.append(".");
        out.append(decimal_text(self.b as u64).as_str());
        out.append(".");
        out.append(decimal_text(self.c as u64).as_str());
        out.append(".");
        out.append(decimal_text(self.d as u64).as_str());
        assert("."@ =~= seq!['.']);
        assert(out@ =~= dotted(*self));
        out
    }

    /// An address of the 127.0.0.0/8 block.
    pub fn is_loopback(&self) -> (r: bool)
        ensures
            r == (self.a == 127),
    {
        self.a == 127
    }

    /// The address 0.0.0.0.
    pub fn is_unspecified(&self) -> (r: bool)
        ensures
            r == (self.a == 0 && self.b == 0 && self.c == 0 && self.d == 0),
    {
        self.a == 0 && self.b == 0 && self.c == 0 && self.d == 0
    }
}

impl Endpoint {
    pub fn new(ip: Ipv4, port: u16) -> (r: Endpoint)
        ensures
            r == (Endpoint { ip, port }),
    {
        Endpoint { ip, port }
    }
}

} // verus!
