//! Addresses of an editor. An address of the shape `host:port` is reached
//! over the network; every other address names a socket in the file system.
//!
//! The host is what stands before the last colon: it is not empty and holds
//! no slash, so that no path is taken for a host. The port is what follows
//! that colon: decimal digits, at least one, that give a number of at most
//! [`MAX_PORT`].

use vstd::prelude::*;
use vstd::string::*;

verus! {

/// The highest port.
pub const MAX_PORT: u64 = 65535;

/// The number that the decimal digit `c` stands for, if it is one.
pub open spec fn digit_of(c: char) -> Option<nat> {
    if c == '0' {
        Some(0)
    } else if c == '1' {
        Some(1)
    } else if c == '2' {
        Some(2)
    } else if c == '3' {
        Some(3)
    } else if c == '4' {
        Some(4)
    } else if c == '5' {
        Some(5)
    } else if c == '6' {
        Some(6)
    } else if c == '7' {
        Some(7)
    } else if c == '8' {
        Some(8)
    } else if c == '9' {
        Some(9)
    } else {
        None
    }
}

/// Whether every character of `text` is a decimal digit.
pub open spec fn all_digits(text: Seq<char>) -> bool {
    forall|i: int| 0 <= i < text.len() ==> digit_of(#[trigger] text[i]).is_some()
}

/// The number that the decimal digits `text` give.
pub open spec fn digits_value(text: Seq<char>) -> nat
    decreases text.len(),
{
    if text.len() == 0 {
        0
    } else {
        digits_value(text.drop_last()) * 10 + match digit_of(text.last()) {
            Some(d) => d,
            None => 0,
        }
    }
}

/// Whether `text` is a port: decimal digits, at least one, that give a number
/// of at most [`MAX_PORT`]. Leading zeros are allowed.
pub open spec fn is_port(text: Seq<char>) -> bool {
    text.len() > 0 && all_digits(text) && digits_value(text) <= MAX_PORT
}

/// Whether `text` can be a host: it is not empty and holds no slash.
pub open spec fn is_host(text: Seq<char>) -> bool {
    text.len() > 0 && forall|i: int| 0 <= i < text.len() ==> #[trigger] text[i] != '/'
}

/// Whether the colon at `colon` parts `address` into a host and a port.
pub open spec fn splits_at(address: Seq<char>, colon: int) -> bool {
    &&& 0 <= colon < address.len()
    &&& address[colon] == ':'
    &&& is_host(address.subrange(0, colon))
    &&& is_port(address.subrange(colon + 1, address.len() as int))
}

/// Whether `address` has the shape `host:port`.
pub open spec fn is_host_port(address: Seq<char>) -> bool {
    exists|colon: int| splits_at(address, colon)
}

/// Only the last colon can part an address into a host and a port: what
/// follows the parting colon is digits alone.
pub proof fn lemma_splits_at_last_colon(address: Seq<char>, last: int, colon: int)
    requires
        0 <= last < address.len(),
        address[last] == ':',
        forall|j: int| last < j < address.len() ==> address[j] != ':',
        splits_at(address, colon),
    ensures
        colon == last,
{
    if colon < last {
        let port = address.subrange(colon + 1, address.len() as int);
        assert(port[last - colon - 1] == address[last]);
        assert(digit_of(port[last - colon - 1]).is_some());
    }
}

/// An address without a colon has not the shape `host:port`.
pub proof fn lemma_no_colon_no_port(address: Seq<char>)
    requires
        forall|j: int| 0 <= j < address.len() ==> address[j] != ':',
    ensures
        !is_host_port(address),
{
}

/// The number that the digit `c` stands for.
fn digit_value(c: char) -> (value: Option<u64>)
    ensures
        match value {
            Some(d) => digit_of(c) == Some(d as nat) && d <= 9,
            None => digit_of(c).is_none(),
        },
{
    if c == '0' {
        Some(0)
    } else if c == '1' {
        Some(1)
    } else if c == '2' {
        Some(2)
    } else if c == '3' {
        Some(3)
    } else if c == '4' {
        Some(4)
    } else if c == '5' {
        Some(5)
    } else if c == '6' {
        Some(6)
    } else if c == '7' {
        Some(7)
    } else if c == '8' {
        Some(8)
    } else if c == '9' {
        Some(9)
    } else {
        None
    }
}

/// Tells whether `address` has the shape `host:port`.
pub fn is_host_and_port(address: &str) -> (shaped: bool)
    ensures
        shaped == is_host_port(address@),
{
    let n = address.unicode_len();
    let mut last: usize = n;
    let mut i: usize = 0;
    while i < n
        invariant
            n == address@.len(),
            i <= n,
            last <= n,
            last < n ==> last < i && address@[last as int] == ':',
            last < n ==> forall|j: int| last < j < i ==> address@[j] != ':',
            last == n ==> forall|j: int| 0 <= j < i ==> address@[j] != ':',
        decreases n - i,
    {
        if address.get_char(i) == ':' {
            last = i;
        }
        i += 1;
    }
    if last == n {
        proof {
            lemma_no_colon_no_port(address@);
        }
        return false;
    }
    let ghost host = address@.subrange(0, last as int);
    let ghost port = address@.subrange(last + 1, n as int);
    if last == 0 || last + 1 == n {
        proof {
            if is_host_port(address@) {
                let colon = choose|colon: int| splits_at(address@, colon);
                lemma_splits_at_last_colon(address@, last as int, colon);
            }
        }
        return false;
    }
    let mut h: usize = 0;
    while h < last
        invariant
            n == address@.len(),
            last < n,
            h <= last,
            address@[last as int] == ':',
            forall|j: int| last < j < n ==> address@[j] != ':',
            host == address@.subrange(0, last as int),
            forall|j: int| 0 <= j < h ==> address@[j] != '/',
        decreases last - h,
    {
        if address.get_char(h) == '/' {
            proof {
                if is_host_port(address@) {
                    let colon = choose|colon: int| splits_at(address@, colon);
                    lemma_splits_at_last_colon(address@, last as int, colon);
                    assert(host[h as int] == address@[h as int]);
                }
            }
            return false;
        }
        h += 1;
    }
    assert(is_host(host)) by {
        assert forall|j: int| 0 <= j < host.len() implies #[trigger] host[j] != '/' by {
            assert(host[j] == address@[j]);
        }
    }
    let mut k: usize = last + 1;
    let mut value: u64 = 0;
    while k < n
        invariant
            n == address@.len(),
            last < k <= n,
            0 < last,
            is_host(host),
            host == address@.subrange(0, last as int),
            port == address@.subrange(last + 1, n as int),
            address@[last as int] == ':',
            forall|j: int| last < j < n ==> address@[j] != ':',
            forall|j: int| last < j < k ==> digit_of(address@[j]).is_some(),
            value <= MAX_PORT + 1,
            value as nat == (if digits_value(address@.subrange(last + 1, k as int)) > MAX_PORT {
                (MAX_PORT + 1) as nat
            } else {
                digits_value(address@.subrange(last + 1, k as int))
            }),
        decreases n - k,
    {
        proof {
            let upto = address@.subrange(last + 1, k + 1);
            assert(upto.drop_last() =~= address@.subrange(last + 1, k as int));
            assert(upto.last() == address@[k as int]);
        }
        match digit_value(address.get_char(k)) {
            None => {
                proof {
                    if is_host_port(address@) {
                        let colon = choose|colon: int| splits_at(address@, colon);
                        lemma_splits_at_last_colon(address@, last as int, colon);
                        assert(port[k - last - 1] == address@[k as int]);
                    }
                }
                return false;
            },
            Some(d) => {
                value = value * 10 + d;
                if value > MAX_PORT {
                    value = MAX_PORT + 1;
                }
            },
        }
        k += 1;
    }
    proof {
        assert(address@.subrange(last + 1, n as int) =~= port);
        assert(all_digits(port)) by {
            assert forall|j: int| 0 <= j < port.len() implies digit_of(
                #[trigger] port[j],
            ).is_some() by {
                assert(port[j] == address@[last + 1 + j]);
            }
        }
        if value <= MAX_PORT {
            assert(splits_at(address@, last as int));
        } else {
            if is_host_port(address@) {
                let colon = choose|colon: int| splits_at(address@, colon);
                lemma_splits_at_last_colon(address@, last as int, colon);
            }
        }
    }
    value <= MAX_PORT
}

} // verus!
