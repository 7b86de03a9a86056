//! Names as sequences of characters: ASCII lowercasing, comparison with a
//! fixed word, and the extension of a file name.

use vstd::prelude::*;
use vstd::std_specs::iter::IteratorSpec;

verus! {

/// `String::push` of the standard library: the character is added at the
/// end, and the rest stays as it was.
pub assume_specification[ String::push ](s: &mut String, ch: char)
    ensures
        final(s)@ == old(s)@.push(ch),
;

/// The ASCII lowercase form of a character; everything but `A` to `Z` stays.
pub open spec fn lower_char(c: char) -> char {
    if 'A' <= c && c <= 'Z' {
        ((c as u8) + 32) as char
    } else {
        c
    }
}

/// A sequence of characters with each one in ASCII lowercase.
pub open spec fn lower(s: Seq<char>) -> Seq<char> {
    Seq::new(s.len(), |i: int| lower_char(s[i]))
}

/// A file name splits at `i`: a dot stands there, it is the last one, and
/// it is not the name's first character.
pub open spec fn splits_at(name: Seq<char>, i: int) -> bool {
    &&& 0 < i < name.len()
    &&& name[i] == '.'
    &&& forall|j: int| i < j < name.len() ==> name[j] != '.'
}

/// The extension of a file name: what follows its last dot, where there is
/// a dot other than a leading one.
pub open spec fn extension_of(name: Seq<char>) -> Option<Seq<char>> {
    if exists|i: int| splits_at(name, i) {
        Some(name.skip((choose|i: int| splits_at(name, i)) + 1))
    } else {
        None
    }
}

/// A file name splits at one place at most.
pub proof fn split_is_unique(name: Seq<char>, i: int, j: int)
    requires
        splits_at(name, i),
        splits_at(name, j),
    ensures
        i == j,
{
}

/// The ASCII lowercase form of one character.
pub fn to_lower_char(c: char) -> (out: char)
    ensures
        out == lower_char(c),
{
    if 'A' <= c && c <= 'Z' {
        ((c as u8) + 32) as char
    } else {
        c
    }
}

/// The characters of `s`, one by one.
pub fn chars_of(s: &str) -> (out: Vec<char>)
    ensures
        out@ == s@,
{
    let mut out: Vec<char> = Vec::new();
    let mut it = s.chars();
    let ghost mut n: int = 0;
    loop
        invariant
            0 <= n <= s@.len(),
            it.remaining() == s@.skip(n),
            out@ == s@.take(n),
        ensures
            n == s@.len(),
        decreases s@.len() - n,
    {
        match it.next() {
            None => {
                assert(s@.skip(n).len() == 0);
                break ;
            },
            Some(c) => {
                out.push(c);
                proof {
                    assert(s@.skip(n).drop_first() =~= s@.skip(n + 1));
                    assert(s@.take(n).push(c) =~= s@.take(n + 1));
                    n = n + 1;
                }
            },
        }
    }
    proof {
        assert(s@.take(n) =~= s@);
    }
    out
}

/// The characters of `name`, each in ASCII lowercase.
pub fn to_lowercase(name: &Vec<char>) -> (out: Vec<char>)
    ensures
        out@ == lower(name@),
{
    let mut out: Vec<char> = Vec::new();
    let mut i: usize = 0;
    while i < name.len()
        invariant
            i <= name@.len(),
            out@ == lower(name@.take(i as int)),
        decreases name@.len() - i,
    {
        let l = to_lower_char(name[i]);
        out.push(l);
        proof {
            assert(lower(name@.take(i as int)).push(l) =~= lower(name@.take(i + 1)));
        }
        i = i + 1;
    }
    proof {
        assert(name@.take(i as int) =~= name@);
    }
    out
}

/// Whether `name` is, character by character, the word `word`.
pub fn same_text(name: &Vec<char>, word: &str) -> (same: bool)
    ensures
        same == (name@ == word@),
{
    let n = word.unicode_len();
    if name.len() != n {
        return false;
    }
    let mut i: usize = 0;
    while i < n
        invariant
            n == word@.len(),
            n == name@.len(),
            i <= n,
            forall|j: int| 0 <= j < i ==> name@[j] == word@[j],
        decreases n - i,
    {
        if name[i] != word.get_char(i) {
            return false;
        }
        i = i + 1;
    }
    proof {
        assert(name@ =~= word@);
    }
    true
}

/// The extension of the file name `name`, if it has one.
pub fn extension(name: &Vec<char>) -> (ext: Option<Vec<char>>)
    ensures
        match ext {
            Some(e) => extension_of(name@) == Some(e@),
            None => extension_of(name@) is None,
        },
{
    let mut i: usize = name.len();
    while i > 1
        invariant
            i <= name@.len(),
            forall|j: int| i <= j < name@.len() ==> name@[j] != '.',
        decreases i,
    {
        i = i - 1;
        if name[i] == '.' {
            let mut ext: Vec<char> = Vec::new();
            let mut k: usize = i + 1;
            while k < name.len()
                invariant
                    i < k <= name@.len(),
                    ext@ == name@.subrange(i + 1, k as int),
                decreases name@.len() - k,
            {
                ext.push(name[k]);
                proof {
                    assert(name@.subrange(i + 1, k as int).push(name@[k as int])
                        =~= name@.subrange(i + 1, k + 1));
                }
                k = k + 1;
            }
            proof {
                assert(splits_at(name@, i as int));
                let w = choose|w: int| splits_at(name@, w);
                split_is_unique(name@, i as int, w);
                assert(name@.subrange(i + 1, name@.len() as int) =~= name@.skip(i + 1));
            }
            return Some(ext);
        }
    }
    proof {
        assert forall|w: int| !splits_at(name@, w) by {
            if 0 < w < name@.len() {
                assert(w >= i);
            }
        }
    }
    None
}

} // verus!
