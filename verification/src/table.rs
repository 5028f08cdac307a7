use vstd::prelude::*;
use vstd::string::StringExecFns;
use std::collections::HashMap;

verus! {

broadcast use vstd::std_specs::hash::group_hash_axioms;

/// The decimal digit character for a value below ten.
pub open spec fn digit_char(d: nat) -> char
    recommends
        d < 10,
{
    ((48 + d) as u8) as char
}

/// Decimal rendering of `n` as characters, most significant digit first,
/// no leading zeros (a single `0` for zero itself).
pub open spec fn dec_chars(n: nat) -> Seq<char>
    decreases n,
{
    if n < 10 {
        seq![digit_char(n)]
    } else {
        dec_chars(n / 10).push(digit_char(n % 10))
    }
}

/// The base port replicas listen from: replica `i` is at port 8000 + i.
pub open spec fn spec_base_port() -> nat {
    8000
}

/// The address a replica stores for peer `k` in its node table.
pub open spec fn replica_address(k: u32) -> Seq<char> {
    "localhost:"@ + dec_chars((spec_base_port() + k) as nat)
}

/// The address the client stores for replica `k` in its server table.
pub open spec fn server_address(k: u32) -> Seq<char> {
    "127.0.0.1:"@ + dec_chars((spec_base_port() + k) as nat)
}

/// The one-character string for a decimal digit.
fn digit_str(d: u64) -> (r: &'static str)
    requires
        d < 10,
    ensures
        r@ == seq![digit_char(d as nat)],
{
    if d == 0 {
        proof {
            reveal_strlit("0");
        }
        "0"
    } else if d == 1 {
        proof {
            reveal_strlit("1");
        }
        "1"
    } else if d == 2 {
        proof {
            reveal_strlit("2");
        }
        "2"
    } else if d == 3 {
        proof {
            reveal_strlit("3");
        }
        "3"
    } else if d == 4 {
        proof {
            reveal_strlit("4");
        }
        "4"
    } else if d == 5 {
        proof {
            reveal_strlit("5");
        }
        "5"
    } else if d == 6 {
        proof {
            reveal_strlit("6");
        }
        "6"
    } else if d == 7 {
        proof {
            reveal_strlit("7");
        }
        "7"
    } else if d == 8 {
        proof {
            reveal_strlit("8");
        }
        "8"
    } else {
        proof {
            reveal_strlit("9");
        }
        "9"
    }
}

/// Decimal rendering of `n` as a string.
fn dec_string(n: u64) -> (r: String)
    ensures
        r@ == dec_chars(n as nat),
    decreases n,
{
    if n < 10 {
        digit_str(n).to_owned()
    } else {
        let mut s = dec_string(n / 10);
        s.append(digit_str(n % 10));
        proof {
            assert((n / 10) as nat == n as nat / 10);
            assert(dec_chars(n as nat / 10) + seq![digit_char(n as nat % 10)] =~= dec_chars(
                n as nat,
            ));
        }
        s
    }
}

/// Build the id → address table for `n` nodes listening on consecutive
/// ports from the base port, with the given host prefix.
pub fn build_address_table(prefix: &str, n: u32) -> (t: HashMap<u32, String>)
    ensures
        t@.dom() == Set::new(|k: u32| k < n),
        forall|k: u32| k < n ==> #[trigger] t@[k]@ == prefix@ + dec_chars((spec_base_port() + k) as nat),
{
    let mut t: HashMap<u32, String> = HashMap::new();
    let mut i: u32 = 0;
    proof {
        assert(t@.dom() =~= Set::new(|k: u32| k < 0u32));
    }
    while i < n
        invariant
            i <= n,
            t@.dom() == Set::new(|k: u32| k < i),
            forall|k: u32| k < i ==> #[trigger] t@[k]@ == prefix@ + dec_chars((spec_base_port() + k) as nat),
        decreases n - i,
    {
        let port: u64 = 8000 + i as u64;
        let mut addr = prefix.to_owned();
        let digits = dec_string(port);
        addr.append(digits.as_str());
        t.insert(i, addr);
        proof {
            assert(t@.dom() =~= Set::new(|k: u32| k < i + 1));
        }
        i = i + 1;
    }
    t
}

} // verus!
