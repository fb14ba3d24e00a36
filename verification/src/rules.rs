//! Combination of the two proxy rule sources. The manually entered list and
//! the fetched community list are each trimmed of trailing whitespace and then
//! joined with a single newline; the caller overwrites the combined file with
//! the result in full, so a reader never sees a half-old file.

use vstd::prelude::*;

verus! {

/// The two rule lists a settings window exchanges as one value.
#[derive(Debug)]
pub struct Domain {
    pub proxy_list: Vec<String>,
    pub direct_list: Vec<String>,
}

/// ASCII whitespace, as trailing bytes are trimmed.
pub open spec fn is_space(b: u8) -> bool {
    b == 32 || b == 9 || b == 10 || b == 13
}

/// Length of `s` once trailing whitespace is removed.
pub open spec fn trimmed_len(s: Seq<u8>) -> int
    decreases s.len(),
{
    if s.len() == 0 {
        0
    } else if is_space(s.last()) {
        trimmed_len(s.drop_last())
    } else {
        s.len() as int
    }
}

/// `s` with trailing whitespace removed.
pub open spec fn trim_end_spec(s: Seq<u8>) -> Seq<u8> {
    s.take(trimmed_len(s))
}

/// The combined rule file: trimmed manual rules, one newline, trimmed
/// community rules.
pub open spec fn combined_rules(custom: Seq<u8>, community: Seq<u8>) -> Seq<u8> {
    trim_end_spec(custom) + seq![10u8] + trim_end_spec(community)
}

proof fn lemma_trimmed_len_bounds(s: Seq<u8>)
    ensures
        0 <= trimmed_len(s) <= s.len(),
    decreases s.len(),
{
    if s.len() > 0 && is_space(s.last()) {
        lemma_trimmed_len_bounds(s.drop_last());
    }
}

proof fn lemma_trimmed_len_take(s: Seq<u8>, i: int)
    requires
        0 < i <= s.len(),
        is_space(s[i - 1]),
    ensures
        trimmed_len(s.take(i)) == trimmed_len(s.take(i - 1)),
{
    assert(s.take(i).last() == s[i - 1]);
    assert(s.take(i).drop_last() =~= s.take(i - 1));
}

fn byte_is_space(b: u8) -> (r: bool)
    ensures
        r == is_space(b),
{
    b == 32 || b == 9 || b == 10 || b == 13
}

fn trimmed_length(s: &Vec<u8>) -> (n: usize)
    ensures
        n == trimmed_len(s@),
        n <= s@.len(),
{
    let mut i: usize = s.len();
    proof {
        assert(s@.take(i as int) =~= s@);
    }
    while i > 0 && byte_is_space(s[i - 1])
        invariant
            0 <= i <= s@.len(),
            trimmed_len(s@) == trimmed_len(s@.take(i as int)),
        decreases i,
    {
        proof {
            lemma_trimmed_len_take(s@, i as int);
        }
        i -= 1;
    }
    proof {
        if i > 0 {
            assert(s@.take(i as int).last() == s@[i as int - 1]);
        }
        lemma_trimmed_len_bounds(s@.take(i as int));
    }
    i
}

fn push_prefix(dst: &mut Vec<u8>, src: &Vec<u8>, n: usize)
    requires
        n <= src@.len(),
    ensures
        final(dst)@ == old(dst)@ + src@.take(n as int),
{
    let mut i: usize = 0;
    while i < n
        invariant
            0 <= i <= n <= src@.len(),
            dst@ == old(dst)@ + src@.take(i as int),
        decreases n - i,
    {
        dst.push(src[i]);
        proof {
            assert(old(dst)@ + src@.take(i as int + 1) =~= dst@);
        }
        i += 1;
    }
}

/// Combines the manual and community rule lists into the single byte sequence
/// the agent consumes. Recombining unchanged inputs yields byte-identical
/// output, since the result is a function of the two inputs alone.
pub fn combine_proxy_rules(custom: &Vec<u8>, community: &Vec<u8>) -> (r: Vec<u8>)
    ensures
        r@ == combined_rules(custom@, community@),
{
    let custom_len = trimmed_length(custom);
    let community_len = trimmed_length(community);
    let mut out: Vec<u8> = Vec::new();
    push_prefix(&mut out, custom, custom_len);
    out.push(10u8);
    proof {
        assert(out@ =~= trim_end_spec(custom@) + seq![10u8]);
    }
    push_prefix(&mut out, community, community_len);
    proof {
        assert(out@ =~= combined_rules(custom@, community@));
    }
    out
}

/// What trimming means: the trimmed prefix is a prefix, it does not end in
/// whitespace, and everything removed from the tail was whitespace.
pub proof fn lemma_trim_end_characterization(s: Seq<u8>)
    ensures
        0 <= trimmed_len(s) <= s.len(),
        trim_end_spec(s) == s.take(trimmed_len(s)),
        trimmed_len(s) > 0 ==> !is_space(s[trimmed_len(s) - 1]),
        forall|i: int| trimmed_len(s) <= i < s.len() ==> is_space(#[trigger] s[i]),
    decreases s.len(),
{
    lemma_trimmed_len_bounds(s);
    if s.len() > 0 && is_space(s.last()) {
        lemma_trim_end_characterization(s.drop_last());
        assert forall|i: int| trimmed_len(s) <= i < s.len() implies is_space(
            #[trigger] s[i],
        ) by {
            if i < s.len() - 1 {
                assert(s.drop_last()[i] == s[i]);
            }
        }
        if trimmed_len(s) > 0 {
            assert(s[trimmed_len(s) - 1] == s.drop_last()[trimmed_len(s.drop_last()) - 1]);
        }
    }
}

/// Rule combination is idempotent: two combinations over unchanged manual and
/// community sources produce byte-identical combined output.
pub proof fn lemma_combine_idempotent(
    custom1: Seq<u8>,
    community1: Seq<u8>,
    custom2: Seq<u8>,
    community2: Seq<u8>,
)
    requires
        custom1 == custom2,
        community1 == community2,
    ensures
        combined_rules(custom1, community1) == combined_rules(custom2, community2),
{
}

} // verus!
