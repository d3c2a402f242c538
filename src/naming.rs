//! How a connection's log file is named.
use vstd::prelude::*;
use crate::text::{decimal, is_digit, lemma_decimal_digits, lemma_decimal_injective, push_decimal};

verus! {

/// The label used for a peer whose address could not be resolved.
pub open spec fn unknown_peer() -> Seq<char> {
    seq!['U', 'n', 'k', 'n', 'o', 'w', 'n']
}

/// The label of a peer: its address text, or the placeholder when it has none.
pub open spec fn peer_label_of(addr: Option<Seq<char>>) -> Seq<char> {
    match addr {
        Some(a) => a,
        None => unknown_peer(),
    }
}

/// The log file of a connection: `<seconds>_<peer>.log`.
pub open spec fn log_file_name_of(timestamp: nat, peer: Seq<char>) -> Seq<char> {
    decimal(timestamp) + seq!['_'] + peer + seq!['.', 'l', 'o', 'g']
}

/// The label of a peer, given its resolved address text, if any.
pub fn peer_label(addr: Option<String>) -> (r: String)
    ensures
        r@ == peer_label_of(
            match addr {
                Some(a) => Some(a@),
                None => None,
            },
        ),
{
    match addr {
        Some(a) => a,
        None => {
            proof {
                reveal_strlit("Unknown");
            }
            let r = String::from_str("Unknown");
            assert(r@ =~= unknown_peer());
            r
        },
    }
}

/// The name of the log file of a connection that started at `timestamp`
/// (seconds since the Unix epoch) from the peer labelled `peer`.
pub fn log_file_name(timestamp: u64, peer: &str) -> (r: String)
    ensures
        r@ == log_file_name_of(timestamp as nat, peer@),
{
    let mut r = String::new();
    push_decimal(&mut r, timestamp);
    proof {
        reveal_strlit("_");
        reveal_strlit(".log");
    }
    r.append("_");
    r.append(peer);
    r.append(".log");
    assert(r@ =~= log_file_name_of(timestamp as nat, peer@));
    r
}

proof fn lemma_decimal_prefix_lengths(time_a: nat, peer_a: Seq<char>, time_b: nat, peer_b: Seq<char>)
    requires
        log_file_name_of(time_a, peer_a) == log_file_name_of(time_b, peer_b),
    ensures
        decimal(time_a).len() <= decimal(time_b).len(),
{
    let a = decimal(time_a);
    let b = decimal(time_b);
    if a.len() > b.len() {
        lemma_decimal_digits(time_a);
        assert(log_file_name_of(time_b, peer_b)[b.len() as int] == '_');
        assert(log_file_name_of(time_a, peer_a)[b.len() as int] == a[b.len() as int]);
        assert(is_digit(a[b.len() as int]));
    }
}

/// Two connections share a log file exactly when they started in the same
/// second from the same peer, so sequential connections of one identity add
/// to one file and connections of distinct peers never share one.
pub proof fn lemma_log_file_identity(time_a: nat, peer_a: Seq<char>, time_b: nat, peer_b: Seq<char>)
    ensures
        (log_file_name_of(time_a, peer_a) == log_file_name_of(time_b, peer_b)) <==> (time_a == time_b && peer_a == peer_b),
{
    let name_a = log_file_name_of(time_a, peer_a);
    let name_b = log_file_name_of(time_b, peer_b);
    if name_a == name_b {
        lemma_decimal_prefix_lengths(time_a, peer_a, time_b, peer_b);
        lemma_decimal_prefix_lengths(time_b, peer_b, time_a, peer_a);
        let k: int = decimal(time_a).len() as int;
        assert(decimal(time_a) =~= name_a.subrange(0, k));
        assert(decimal(time_b) =~= name_b.subrange(0, k));
        lemma_decimal_injective(time_a, time_b);
        assert(peer_a =~= name_a.subrange(k + 1, name_a.len() - 4));
        assert(peer_b =~= name_b.subrange(k + 1, name_b.len() - 4));
    }
}

} // verus!
