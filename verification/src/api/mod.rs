//! What the library computes around the Roblox web API: the request URLs,
//! and what is made of each response once it has been decoded.
//!
//! Sending the requests and decoding JSON bodies into the plain records of
//! these modules is the caller's part.

pub mod thumbnails;
pub mod universe;
pub mod servers;
pub mod discover;
pub mod moderation;
pub mod share_link;
pub mod users;
pub mod updates;

use vstd::prelude::*;
use crate::text::{decimal_spec, push_decimal};

verus! {

/// Errors that the library's own decisions produce.
#[derive(Debug, Clone)]
pub enum CoreError {
    /// The Roblox API answered, but not with what was asked for.
    RobloxApi { status: u16, message: String },
    /// Stored or transferred account data could not be used.
    Crypto(String),
}


/// Whether `x` occurs in `s`.
pub fn contains_u64(s: &[u64], x: u64) -> (b: bool)
    ensures
        b == s@.contains(x),
{
    let n = s.len();
    let mut i: usize = 0;
    while i < n
        invariant
            n == s@.len(),
            i <= n,
            forall|j: int| 0 <= j < i ==> s@[j] != x,
        decreases n - i,
    {
        if s[i] == x {
            assert(s@[i as int] == x);
            return true;
        }
        i = i + 1;
    }
    false
}

/// The IDs written as decimals and separated by commas.
pub open spec fn join_decimal(ids: Seq<u64>) -> Seq<char>
    decreases ids.len(),
{
    if ids.len() == 0 {
        Seq::empty()
    } else if ids.len() == 1 {
        decimal_spec(ids[0] as nat)
    } else {
        join_decimal(ids.drop_last()) + seq![','] + decimal_spec(ids.last() as nat)
    }
}

/// Appends the IDs, comma-separated, to `s`.
pub fn push_joined_ids(s: &mut String, ids: &[u64])
    ensures
        final(s)@ == old(s)@ + join_decimal(ids@),
{
    let ghost start = s@;
    let n = ids.len();
    let mut i: usize = 0;
    while i < n
        invariant
            n == ids@.len(),
            i <= n,
            s@ == start + join_decimal(ids@.take(i as int)),
        decreases n - i,
    {
        let ghost before = s@;
        if i > 0 {
            s.push(',');
        }
        push_decimal(s, ids[i]);
        proof {
            let t = ids@.take(i + 1);
            assert(t.drop_last() =~= ids@.take(i as int));
            assert(t.last() == ids@[i as int]);
            if i == 0 {
                assert(s@ =~= start + join_decimal(t));
            } else {
                assert(s@ =~= start + join_decimal(t));
            }
        }
        i = i + 1;
    }
    assert(ids@.take(n as int) =~= ids@);
}

} // verus!
