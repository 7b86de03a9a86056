//! Guessing the field delimiter of a spreadsheet-like text from a bounded
//! sample of its characters.

use vstd::prelude::*;
use vstd::std_specs::iter::IteratorSpec;

verus! {

/// How many characters of a text are looked at.
pub const SAMPLE_LIMIT: usize = 50_000;

/// The delimiter that stands for "undetermined".
pub const UNDETERMINED: char = '\0';

/// How many candidates there are, the undetermined one included.
pub const CANDIDATES: usize = 7;

/// The candidates in their order of priority: undetermined, comma, tab,
/// colon, semicolon, pipe, space.
pub open spec fn candidate(k: int) -> char {
    if k == 1 {
        ','
    } else if k == 2 {
        '\t'
    } else if k == 3 {
        ':'
    } else if k == 4 {
        ';'
    } else if k == 5 {
        '|'
    } else if k == 6 {
        ' '
    } else {
        '\0'
    }
}

/// The part of a text that is looked at: its first 50,000 characters.
pub open spec fn sample(content: Seq<char>) -> Seq<char> {
    if content.len() > 50_000 {
        content.take(50_000)
    } else {
        content
    }
}

/// How often `c` occurs in `s`.
pub open spec fn occurrences(s: Seq<char>, c: char) -> nat
    decreases s.len(),
{
    if s.len() == 0 {
        0
    } else {
        occurrences(s.drop_last(), c) + if s.last() == c {
            1nat
        } else {
            0nat
        }
    }
}

/// The count of candidate `k` over the sample `s`: its occurrences, and one
/// more for the undetermined candidate, which starts ahead.
pub open spec fn score(s: Seq<char>, k: int) -> nat {
    occurrences(s, candidate(k)) + if k == 0 {
        1nat
    } else {
        0nat
    }
}

/// Candidate `k` wins over the sample `s`: none has a higher count, and each
/// one before it in priority has a lower count.
pub open spec fn wins(s: Seq<char>, k: int) -> bool {
    &&& 0 <= k < 7
    &&& forall|j: int| 0 <= j < 7 ==> #[trigger] score(s, j) <= score(s, k)
    &&& forall|j: int| 0 <= j < k ==> #[trigger] score(s, j) < score(s, k)
}

/// The index of the candidate that wins over the sample `s`.
pub open spec fn winner(s: Seq<char>) -> int {
    choose|k: int| wins(s, k)
}

/// The delimiter guessed for a text.
pub open spec fn delimiter_of(content: Seq<char>) -> char {
    candidate(winner(sample(content)))
}

/// At most one candidate wins over a sample.
pub proof fn winner_is_unique(s: Seq<char>, a: int, b: int)
    requires
        wins(s, a),
        wins(s, b),
    ensures
        a == b,
{
    if a < b {
        assert(score(s, a) < score(s, b));
        assert(score(s, b) <= score(s, a));
    } else if b < a {
        assert(score(s, b) < score(s, a));
        assert(score(s, a) <= score(s, b));
    }
}

/// The first of the highest counts among the first `n` candidates.
proof fn best_among(s: Seq<char>, n: int) -> (best: int)
    requires
        1 <= n <= 7,
    ensures
        0 <= best < n,
        forall|j: int| 0 <= j < n ==> #[trigger] score(s, j) <= score(s, best),
        forall|j: int| 0 <= j < best ==> #[trigger] score(s, j) < score(s, best),
    decreases n,
{
    if n == 1 {
        0
    } else {
        let before = best_among(s, n - 1);
        if score(s, n - 1) > score(s, before) {
            n - 1
        } else {
            before
        }
    }
}

/// Over every sample some candidate wins, so every text has a delimiter,
/// which is one of the candidates.
pub proof fn a_candidate_wins(s: Seq<char>)
    ensures
        wins(s, winner(s)),
{
    let best = best_among(s, 7);
    assert(wins(s, best));
}

/// The candidate with index `k`.
pub fn candidate_at(k: usize) -> (c: char)
    requires
        k < 7,
    ensures
        c == candidate(k as int),
{
    if k == 1 {
        ','
    } else if k == 2 {
        '\t'
    } else if k == 3 {
        ':'
    } else if k == 4 {
        ';'
    } else if k == 5 {
        '|'
    } else if k == 6 {
        ' '
    } else {
        '\0'
    }
}

/// The index under which `c` is a candidate, if it is one.
pub fn candidate_index(c: char) -> (found: Option<usize>)
    ensures
        match found {
            Some(k) => k < 7 && candidate(k as int) == c,
            None => forall|k: int| 0 <= k < 7 ==> candidate(k) != c,
        },
{
    if c == '\0' {
        Some(0)
    } else if c == ',' {
        Some(1)
    } else if c == '\t' {
        Some(2)
    } else if c == ':' {
        Some(3)
    } else if c == ';' {
        Some(4)
    } else if c == '|' {
        Some(5)
    } else if c == ' ' {
        Some(6)
    } else {
        None
    }
}

/// The counts of all candidates over the first 50,000 characters of
/// `content`, in the candidates' order.
pub fn tally(content: &str) -> (counts: Vec<usize>)
    ensures
        counts@.len() == 7,
        forall|k: int| 0 <= k < 7 ==> counts@[k] == #[trigger] score(sample(content@), k),
{
    let mut counts: Vec<usize> = vec![1, 0, 0, 0, 0, 0, 0];
    let mut it = content.chars();
    let mut taken: usize = 0;
    while taken < SAMPLE_LIMIT
        invariant
            taken <= 50_000,
            taken <= content@.len(),
            it.remaining() == content@.skip(taken as int),
            counts@.len() == 7,
            forall|k: int| 0 <= k < 7 ==> counts@[k] <= taken + 1,
            forall|k: int|
                0 <= k < 7 ==> counts@[k] == #[trigger] score(content@.take(taken as int), k),
        ensures
            taken == 50_000 || taken == content@.len(),
        decreases 50_000 - taken,
    {
        match it.next() {
            None => {
                assert(content@.skip(taken as int).len() == 0);
                break ;
            },
            Some(c) => {
                let ghost before = content@.take(taken as int);
                let ghost after = content@.take(taken + 1);
                proof {
                    assert(content@.skip(taken as int).drop_first() =~= content@.skip(taken + 1));
                    assert(after.drop_last() =~= before);
                    assert(after.last() == c);
                }
                match candidate_index(c) {
                    Some(k) => {
                        let n = counts[k];
                        counts.set(k, n + 1);
                    },
                    None => {},
                }
                taken = taken + 1;
                proof {
                    assert forall|k: int| 0 <= k < 7 implies counts@[k] == #[trigger] score(
                        after,
                        k,
                    ) by {
                        assert(counts@[k] == score(before, k) + if candidate(k) == c {
                            1nat
                        } else {
                            0nat
                        });
                    }
                }
            },
        }
    }
    proof {
        assert(content@.take(taken as int) =~= sample(content@));
    }
    counts
}

/// The index of the first of the highest counts.
pub fn first_highest(counts: &Vec<usize>) -> (best: usize)
    requires
        counts@.len() == 7,
    ensures
        best < 7,
        forall|j: int| 0 <= j < 7 ==> counts@[j] <= counts@[best as int],
        forall|j: int| 0 <= j < best ==> counts@[j] < counts@[best as int],
{
    let mut best: usize = 0;
    let mut k: usize = 1;
    while k < CANDIDATES
        invariant
            counts@.len() == 7,
            1 <= k <= 7,
            best < k,
            forall|j: int| 0 <= j < k ==> counts@[j] <= counts@[best as int],
            forall|j: int| 0 <= j < best ==> counts@[j] < counts@[best as int],
        decreases 7 - k,
    {
        if counts[k] > counts[best] {
            best = k;
        }
        k = k + 1;
    }
    best
}

/// Guesses the field delimiter of `content` from its first 50,000
/// characters: the candidate that occurs most often, the earlier one where
/// two occur equally often, and undetermined where none occurs.
pub fn sniff(content: &str) -> (delimiter: char)
    ensures
        delimiter == delimiter_of(content@),
{
    let counts = tally(content);
    let best = first_highest(&counts);
    proof {
        let s = sample(content@);
        assert forall|j: int| 0 <= j < 7 implies #[trigger] score(s, j) <= score(
            s,
            best as int,
        ) by {
            assert(counts@[j] <= counts@[best as int]);
        }
        assert forall|j: int| 0 <= j < best implies #[trigger] score(s, j) < score(
            s,
            best as int,
        ) by {
            assert(counts@[j] < counts@[best as int]);
        }
        assert(wins(s, best as int));
        winner_is_unique(s, best as int, winner(s));
    }
    candidate_at(best)
}

} // verus!
