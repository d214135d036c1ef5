//! Target addresses: parsing of the `host:port` authority string of a
//! CONNECT request into a host and a port.

use vstd::prelude::*;

verus! {

/// The ASCII colon that separates host and port.
pub const COLON: u8 = 58;

/// A parsed `host:port` target: the raw host bytes and the port.
pub struct TargetAddr {
    pub host: Vec<u8>,
    pub port: u16,
}

impl TargetAddr {
    /// A well-formed target: a nonempty host of at most 255 bytes (so its
    /// length fits the one-byte length field of a SOCKS5 request), with no
    /// colon inside it.
    pub open spec fn wf(self) -> bool {
        &&& 1 <= self.host@.len() <= 255
        &&& forall|j: int| 0 <= j < self.host@.len() ==> self.host@[j] != COLON
    }

    /// An identical copy of the address.
    pub fn duplicate(&self) -> (r: TargetAddr)
        ensures
            r.host@ == self.host@,
            r.port == self.port,
    {
        let mut h: Vec<u8> = Vec::new();
        let mut k: usize = 0;
        while k < self.host.len()
            invariant
                k <= self.host@.len(),
                h@ == self.host@.take(k as int),
            decreases self.host@.len() - k,
        {
            h.push(self.host[k]);
            proof {
                assert(self.host@.take(k as int + 1)
                    =~= self.host@.take(k as int).push(self.host@[k as int]));
            }
            k = k + 1;
        }
        proof {
            assert(h@ =~= self.host@);
        }
        TargetAddr { host: h, port: self.port }
    }
}

/// An ASCII decimal digit.
pub open spec fn is_digit(b: u8) -> bool {
    48 <= b <= 57
}

/// Every byte of the sequence is an ASCII decimal digit.
pub open spec fn all_digits(s: Seq<u8>) -> bool {
    forall|j: int| 0 <= j < s.len() ==> is_digit(s[j])
}

/// The number denoted by a sequence of ASCII decimal digits.
pub open spec fn digits_val(s: Seq<u8>) -> int
    decreases s.len(),
{
    if s.len() == 0 {
        0
    } else {
        digits_val(s.drop_last()) * 10 + (s.last() - 48)
    }
}

/// Position `i` holds the only colon in `s`.
pub open spec fn splits_at(s: Seq<u8>, i: int) -> bool {
    &&& 0 <= i < s.len()
    &&& s[i] == COLON
    &&& forall|j: int| 0 <= j < s.len() && j != i ==> s[j] != COLON
}

/// A valid port field: nonempty, all decimal digits, value at most 65535.
pub open spec fn valid_port(p: Seq<u8>) -> bool {
    &&& p.len() >= 1
    &&& all_digits(p)
    &&& digits_val(p) <= 65535
}

/// The colon at `i` splits `s` into a valid host and a valid port.
pub open spec fn valid_split(s: Seq<u8>, i: int) -> bool {
    &&& splits_at(s, i)
    &&& 1 <= i <= 255
    &&& valid_port(s.subrange(i + 1, s.len() as int))
}

/// A syntactically valid `host:port` authority: exactly one colon, a
/// nonempty host of at most 255 bytes before it, and a decimal port of
/// value at most 65535 after it.
pub open spec fn valid_authority(s: Seq<u8>) -> bool {
    exists|i: int| valid_split(s, i)
}

/// The colon position of a valid authority.
pub open spec fn split_pos(s: Seq<u8>) -> int {
    choose|i: int| valid_split(s, i)
}

/// The host part of a valid authority.
pub open spec fn host_of(s: Seq<u8>) -> Seq<u8> {
    s.subrange(0, split_pos(s))
}

/// The port value of a valid authority.
pub open spec fn port_of(s: Seq<u8>) -> int {
    digits_val(s.subrange(split_pos(s) + 1, s.len() as int))
}

/// Appending one digit multiplies the value by ten and adds the digit.
proof fn lemma_digits_val_snoc(s: Seq<u8>, a: int, k: int)
    requires
        0 <= a <= k < s.len(),
    ensures
        digits_val(s.subrange(a, k + 1))
            == digits_val(s.subrange(a, k)) * 10 + (s[k] - 48),
{
    assert(s.subrange(a, k + 1).drop_last() =~= s.subrange(a, k));
    assert(s.subrange(a, k + 1).last() == s[k]);
}

/// Extending a nonnegative digit string with more digits never shrinks its
/// value.
proof fn lemma_digits_val_grows(s: Seq<u8>, a: int, k: int, n: int)
    requires
        0 <= a <= k <= n <= s.len(),
        digits_val(s.subrange(a, k)) >= 0,
        forall|j: int| k <= j < n ==> is_digit(s[j]),
    ensures
        digits_val(s.subrange(a, n)) >= digits_val(s.subrange(a, k)),
    decreases n - k,
{
    if k < n {
        lemma_digits_val_snoc(s, a, k);
        assert(digits_val(s.subrange(a, k + 1)) >= digits_val(s.subrange(a, k)));
        lemma_digits_val_grows(s, a, k + 1, n);
    } else {
        assert(s.subrange(a, k) =~= s.subrange(a, n));
    }
}

/// Parse a `host:port` authority. Returns the parsed target exactly when
/// the authority is syntactically valid, and `None` otherwise.
pub fn parse_authority(s: &[u8]) -> (r: Option<TargetAddr>)
    ensures
        r is Some <==> valid_authority(s@),
        r matches Some(t) ==> {
            &&& t.wf()
            &&& t.host@ == host_of(s@)
            &&& t.port == port_of(s@)
        },
{
    let n: usize = s.len();

    // Find the unique colon; two colons or none make the authority invalid.
    let mut colon: Option<usize> = None;
    let mut k: usize = 0;
    while k < n
        invariant
            n == s@.len(),
            k <= n,
            colon matches Some(c) ==> c < k && s@[c as int] == COLON
                && forall|j: int| 0 <= j < k as int && j != c ==> s@[j] != COLON,
            colon is None ==> forall|j: int| 0 <= j < k as int ==> s@[j] != COLON,
        decreases n - k,
    {
        if s[k] == COLON {
            if colon.is_some() {
                proof {
                    let c = colon->0;
                    assert forall|i: int| !valid_split(s@, i) by {
                        if valid_split(s@, i) {
                            if i == c {
                                assert(s@[k as int] == COLON);
                                assert(false);
                            } else {
                                assert(s@[c as int] == COLON);
                                assert(false);
                            }
                        }
                    }
                }
                return None;
            }
            colon = Some(k);
        }
        k = k + 1;
    }

    let c: usize = match colon {
        None => {
            proof {
                assert forall|i: int| !valid_split(s@, i) by {
                    if valid_split(s@, i) {
                        assert(s@[i] == COLON);
                        assert(false);
                    }
                }
            }
            return None;
        },
        Some(c) => c,
    };

    // The host must be nonempty and fit the one-byte SOCKS5 length field.
    if c < 1 || c > 255 {
        proof {
            assert forall|i: int| !valid_split(s@, i) by {
                if valid_split(s@, i) {
                    assert(s@[i] == COLON);
                    assert(i == c as int);
                    assert(false);
                }
            }
        }
        return None;
    }

    // The port must be nonempty.
    if c + 1 == n {
        proof {
            assert forall|i: int| !valid_split(s@, i) by {
                if valid_split(s@, i) {
                    assert(i == c as int);
                    assert(s@.subrange(i + 1, n as int).len() == 0);
                    assert(false);
                }
            }
        }
        return None;
    }

    // Fold the decimal port digits, rejecting a value above 65535.
    let mut val: u32 = 0;
    let mut k: usize = c + 1;
    while k < n
        invariant
            n == s@.len(),
            1 <= c < n,
            c + 1 <= k <= n,
            splits_at(s@, c as int),
            val <= 65535,
            val == digits_val(s@.subrange(c as int + 1, k as int)),
            forall|j: int| c as int + 1 <= j < k as int ==> is_digit(s@[j]),
        decreases n - k,
    {
        let b: u8 = s[k];
        if b < 48 || b > 57 {
            proof {
                assert forall|i: int| !valid_split(s@, i) by {
                    if valid_split(s@, i) {
                        assert(i == c as int);
                        assert(is_digit(s@.subrange(i + 1, n as int)[k as int - i - 1]));
                        assert(false);
                    }
                }
            }
            return None;
        }
        let newval: u32 = val * 10 + (b - 48) as u32;
        proof {
            lemma_digits_val_snoc(s@, c as int + 1, k as int);
        }
        if newval > 65535 {
            proof {
                assert forall|i: int| !valid_split(s@, i) by {
                    if valid_split(s@, i) {
                        assert(i == c as int);
                        assert forall|j: int| k as int + 1 <= j < n as int
                            implies is_digit(s@[j]) by {
                            assert(is_digit(s@.subrange(i + 1, n as int)[j - i - 1]));
                        }
                        lemma_digits_val_grows(s@, c as int + 1, k as int + 1, n as int);
                        assert(digits_val(s@.subrange(i + 1, n as int)) > 65535);
                        assert(false);
                    }
                }
            }
            return None;
        }
        val = newval;
        k = k + 1;
    }

    // Copy the host bytes out.
    let mut host: Vec<u8> = Vec::new();
    let mut k2: usize = 0;
    while k2 < c
        invariant
            c < n == s@.len(),
            k2 <= c,
            host@ == s@.subrange(0, k2 as int),
        decreases c - k2,
    {
        host.push(s[k2]);
        proof {
            assert(s@.subrange(0, k2 as int + 1)
                =~= s@.subrange(0, k2 as int).push(s@[k2 as int]));
        }
        k2 = k2 + 1;
    }

    let t = TargetAddr { host, port: val as u16 };
    proof {
        assert(all_digits(s@.subrange(c as int + 1, n as int)));
        assert(valid_split(s@, c as int));
        assert(valid_authority(s@));
        assert(valid_split(s@, split_pos(s@)));
        assert(split_pos(s@) == c as int);
        assert(t.host@ =~= host_of(s@));
        assert forall|j: int| 0 <= j < t.host@.len() implies t.host@[j] != COLON by {
            assert(t.host@[j] == s@[j]);
        }
    }
    Some(t)
}

} // verus!
