use vstd::prelude::*;

verus! {

/// Fewest candidates a proposal may carry.
pub const MIN_NUMBER_OF_CANDIDATES: usize = 2;

/// Most candidates a proposal may carry.
pub const MAX_NUMBER_OF_CANDIDATES: usize = 12;

/// Longest accepted title, counted in bytes of its UTF-8 encoding.
pub const PROPOSAL_MAX_TITLE_LENGTH: usize = 100;

/// Longest accepted description, counted in bytes of its UTF-8 encoding.
pub const PROPOSAL_MAX_DESCRIPTION_LENGTH: usize = 600;

/// Longest accepted candidate id, counted in bytes of its UTF-8 encoding.
pub const CANDIDATE_MAX_ID_LENGTH: usize = 50;

/// Opaque identity of a caller, as the host's authentication layer hands
/// it in. The core never looks inside it; it only stamps it into records.
#[derive(Clone, Copy, PartialEq, Eq, Debug)]
pub struct Pubkey {
    pub bytes: [u8; 32],
}

/// A named option on a proposal's slate, carrying its running approval
/// tally. Inside a ballot receipt the tally is always zero.
#[derive(Clone, Debug)]
pub struct Candidate {
    pub id: String,
    pub vote_count: u64,
}

/// A fixed slate of candidates and the time window in which votes may be
/// cast. Created once; afterwards only the tallies move.
#[derive(Debug)]
pub struct Proposal {
    pub title: String,
    pub description: String,
    pub candidates: Vec<Candidate>,
    pub proposal_open_from: i64,
    pub proposal_finished_from: i64,
    pub proposer: Pubkey,
    pub bump: u8,
}

/// An immutable per-voter receipt: which proposal, which voter, and the
/// approved candidates as zero-tally stubs. The host's storage keys it by
/// (voter, proposal) with insert-once semantics.
#[derive(Debug)]
pub struct Vote {
    pub proposal: Pubkey,
    pub voter: Pubkey,
    pub candidates: Vec<Candidate>,
    pub bump: u8,
}

/// Number of bytes in the UTF-8 encoding of a string value.
pub open spec fn byte_len(s: Seq<char>) -> nat {
    vstd::utf8::encode_utf8(s).len()
}

/// The string values of a sequence of ids, in order.
pub open spec fn id_views(ids: Seq<String>) -> Seq<Seq<char>> {
    Seq::new(ids.len(), |i: int| ids[i]@)
}

/// The id values of a candidate sequence, in order.
pub open spec fn ids_of(cs: Seq<Candidate>) -> Seq<Seq<char>> {
    Seq::new(cs.len(), |i: int| cs[i].id@)
}

/// All entries pairwise distinct.
pub open spec fn all_distinct(ids: Seq<Seq<char>>) -> bool {
    forall|i: int, j: int| 0 <= i < j < ids.len() ==> ids[i] != ids[j]
}

/// Whether some entry of `ids` equals `id`.
pub open spec fn contains_id(ids: Seq<Seq<char>>, id: Seq<char>) -> bool {
    exists|k: int| 0 <= k < ids.len() && ids[k] == id
}

/// Whether every entry of `ids` respects the candidate-id byte bound.
pub open spec fn ids_within_length(ids: Seq<Seq<char>>) -> bool {
    forall|k: int| 0 <= k < ids.len() ==> byte_len(#[trigger] ids[k]) <= CANDIDATE_MAX_ID_LENGTH
}

impl Proposal {
    /// What every proposal that creation hands out satisfies, and every
    /// tally update preserves: bounded title and description, a slate of
    /// two to twelve candidates with bounded, pairwise-distinct ids, and
    /// an opening strictly before the close.
    pub open spec fn wf(self) -> bool {
        &&& byte_len(self.title@) <= PROPOSAL_MAX_TITLE_LENGTH
        &&& byte_len(self.description@) <= PROPOSAL_MAX_DESCRIPTION_LENGTH
        &&& MIN_NUMBER_OF_CANDIDATES <= self.candidates@.len() <= MAX_NUMBER_OF_CANDIDATES
        &&& ids_within_length(ids_of(self.candidates@))
        &&& all_distinct(ids_of(self.candidates@))
        &&& self.proposal_open_from < self.proposal_finished_from
    }

    /// Whether a ballot cast when the clock reads `now` passes the
    /// liveness check: not before the opening and not after the close.
    pub open spec fn accepts_votes_at(self, now: int) -> bool {
        self.proposal_open_from <= now <= self.proposal_finished_from
    }
}

/// Byte length of a string's UTF-8 encoding.
pub fn str_byte_len(s: &String) -> (n: usize)
    ensures
        n == byte_len(s@),
{
    s.as_str().as_bytes().len()
}

/// Whether every id respects the candidate-id byte bound.
pub fn all_ids_within_length(ids: &Vec<String>) -> (ok: bool)
    ensures
        ok == ids_within_length(id_views(ids@)),
{
    let mut k: usize = 0;
    while k < ids.len()
        invariant
            k <= ids@.len(),
            forall|t: int| 0 <= t < k ==> byte_len(#[trigger] id_views(ids@)[t]) <= CANDIDATE_MAX_ID_LENGTH,
        decreases ids@.len() - k,
    {
        if str_byte_len(&ids[k]) > CANDIDATE_MAX_ID_LENGTH {
            proof {
                assert(id_views(ids@)[k as int] == ids@[k as int]@);
            }
            return false;
        }
        k += 1;
    }
    true
}

/// Whether some id value occurs twice in the list.
pub fn has_duplicate(ids: &Vec<String>) -> (dup: bool)
    ensures
        dup == !all_distinct(id_views(ids@)),
{
    let mut i: usize = 0;
    while i < ids.len()
        invariant
            i <= ids@.len(),
            forall|x: int, y: int| 0 <= x < y < ids@.len() && x < i ==> ids@[x]@ != ids@[y]@,
        decreases ids@.len() - i,
    {
        let mut j: usize = i + 1;
        while j < ids.len()
            invariant
                i < j <= ids@.len(),
                forall|y: int| i < y < j ==> ids@[i as int]@ != ids@[y]@,
            decreases ids@.len() - j,
        {
            if ids[i] == ids[j] {
                proof {
                    assert(id_views(ids@)[i as int] == ids@[i as int]@);
                    assert(id_views(ids@)[j as int] == ids@[j as int]@);
                }
                return true;
            }
            j += 1;
        }
        i += 1;
    }
    false
}

/// Fresh zero-tally candidate records for the given ids, in input order:
/// the slate of a new proposal, or the receipt stubs of a ballot.
pub fn candidate_stubs(ids: &Vec<String>) -> (cs: Vec<Candidate>)
    ensures
        cs@.len() == ids@.len(),
        forall|i: int| 0 <= i < ids@.len() ==> (#[trigger] cs@[i]).id@ == ids@[i]@ && cs@[i].vote_count == 0,
{
    let mut cs: Vec<Candidate> = Vec::new();
    let mut i: usize = 0;
    while i < ids.len()
        invariant
            i <= ids@.len(),
            cs@.len() == i,
            forall|t: int| 0 <= t < i ==> (#[trigger] cs@[t]).id@ == ids@[t]@ && cs@[t].vote_count == 0,
        decreases ids@.len() - i,
    {
        let id = ids[i].clone();
        cs.push(Candidate { id, vote_count: 0 });
        i += 1;
    }
    cs
}

} // verus!
