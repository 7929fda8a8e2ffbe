//! Character-level helpers shared by the format and archive code.
use vstd::prelude::*;

verus! {

/// ASCII lower-casing of one character; every other character is kept.
pub open spec fn ascii_lower(c: char) -> char {
    if 'A' <= c && c <= 'Z' {
        ((c as u32) + 32) as char
    } else {
        c
    }
}

/// ASCII lower-casing of a whole text, character by character.
pub open spec fn ascii_lowercase(s: Seq<char>) -> Seq<char> {
    s.map_values(|c: char| ascii_lower(c))
}

/// Index of the last occurrence of `c` in `s`, if any.
pub open spec fn last_index_of(s: Seq<char>, c: char) -> Option<int>
    decreases s.len(),
{
    if s.len() == 0 {
        None
    } else if s.last() == c {
        Some(s.len() - 1)
    } else {
        last_index_of(s.drop_last(), c)
    }
}

/// A text that does not hold `c` has no last occurrence of it.
pub proof fn lemma_last_index_of_absent(s: Seq<char>, c: char)
    requires
        !s.contains(c),
    ensures
        last_index_of(s, c) is None,
    decreases s.len(),
{
    if s.len() > 0 {
        assert(s.last() == s[s.len() - 1]);
        assert(!s.drop_last().contains(c)) by {
            if s.drop_last().contains(c) {
                let k = choose|k: int| 0 <= k < s.drop_last().len() && s.drop_last()[k] == c;
                assert(s[k] == c);
            }
        }
        lemma_last_index_of_absent(s.drop_last(), c);
    }
}

/// The characters of a string slice, in order.
pub fn str_to_chars(s: &str) -> (v: Vec<char>)
    ensures
        v@ == s@,
{
    let mut v: Vec<char> = Vec::new();
    for c in it: s.chars()
        invariant
            v@ == it.seq().take(it.index() as int),
    {
        v.push(c);
    }
    v
}

/// Whether two texts are the same sequence of characters.
pub fn chars_equal(a: &[char], b: &[char]) -> (r: bool)
    ensures
        r == (a@ == b@),
{
    if a.len() != b.len() {
        return false;
    }
    let n = a.len();
    let mut i: usize = 0;
    while i < n
        invariant
            n == a.len(),
            n == b.len(),
            i <= n,
            forall|j: int| 0 <= j < i ==> a@[j] == b@[j],
        decreases n - i,
    {
        if a[i] != b[i] {
            return false;
        }
        i = i + 1;
    }
    proof {
        assert(a@ =~= b@);
    }
    true
}

/// Whether two string slices hold the same text.
pub fn str_equal(a: &str, b: &str) -> (r: bool)
    ensures
        r == (a@ == b@),
{
    let ca = str_to_chars(a);
    let cb = str_to_chars(b);
    chars_equal(ca.as_slice(), cb.as_slice())
}

/// ASCII lower-casing of one character.
pub fn lower_char(c: char) -> (r: char)
    ensures
        r == ascii_lower(c),
{
    if 'A' <= c && c <= 'Z' {
        let code: u32 = c as u32;
        let lowered: u8 = (code + 32) as u8;
        proof {
            assert(lowered as u32 == (c as u32) + 32);
        }
        lowered as char
    } else {
        c
    }
}

/// Whether `s`, lower-cased, is exactly `word`.
pub fn eq_ignore_ascii_case(s: &[char], word: &[char]) -> (r: bool)
    ensures
        r == (ascii_lowercase(s@) == word@),
{
    if s.len() != word.len() {
        proof {
            assert(ascii_lowercase(s@).len() != word@.len());
        }
        return false;
    }
    let n = s.len();
    let mut i: usize = 0;
    while i < n
        invariant
            n == s.len(),
            n == word.len(),
            i <= n,
            forall|j: int| 0 <= j < i ==> ascii_lower(#[trigger] s@[j]) == word@[j],
        decreases n - i,
    {
        if lower_char(s[i]) != word[i] {
            proof {
                assert(ascii_lowercase(s@)[i as int] != word@[i as int]);
            }
            return false;
        }
        i = i + 1;
    }
    proof {
        assert(ascii_lowercase(s@) =~= word@);
    }
    true
}

/// Position of the last occurrence of `c` in `s`.
pub fn find_last(s: &[char], c: char) -> (r: Option<usize>)
    ensures
        match r {
            Some(i) => last_index_of(s@, c) == Some(i as int),
            None => last_index_of(s@, c) is None,
        },
        r matches Some(i) ==> i < s.len(),
{
    let mut i: usize = s.len();
    proof {
        assert(s@.take(s.len() as int) =~= s@);
    }
    while i > 0
        invariant
            i <= s.len(),
            last_index_of(s@, c) == last_index_of(s@.take(i as int), c),
        decreases i,
    {
        let ghost prefix = s@.take(i as int);
        if s[i - 1] == c {
            return Some(i - 1);
        }
        proof {
            assert(prefix.drop_last() =~= s@.take(i - 1));
        }
        i = i - 1;
    }
    proof {
        assert(s@.take(0) =~= Seq::<char>::empty());
    }
    None
}

} // verus!
