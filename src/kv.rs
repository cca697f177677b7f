use crate::error::ParseError;
use vstd::prelude::*;

verus! {

/// A `key=value` token of the command line.
#[derive(Debug)]
pub struct KvPair {
    pub k: String,
    pub v: String,
}

impl PartialEq for KvPair {
    fn eq(&self, o: &KvPair) -> (r: bool) {
        self.k == o.k && self.v == o.v
    }
}

impl vstd::std_specs::cmp::PartialEqSpecImpl for KvPair {
    open spec fn obeys_eq_spec() -> bool {
        true
    }

    open spec fn eq_spec(&self, o: &KvPair) -> bool {
        self.k@ == o.k@ && self.v@ == o.v@
    }
}

/// `i` is the position of the first `c` in `s`.
pub open spec fn is_first_index(s: Seq<char>, c: char, i: int) -> bool {
    &&& 0 <= i < s.len()
    &&& s[i] == c
    &&& forall|j: int| 0 <= j < i ==> s[j] != c
}

/// `p` is `s` split at its first `=`: what stands before it and what follows.
pub open spec fn splits_at_first_eq(s: Seq<char>, p: KvPair) -> bool {
    exists|i: int|
        is_first_index(s, '=', i) && p.k@ == s.subrange(0, i) && p.v@ == s.subrange(i + 1, s.len() as int)
}

/// Splits a token at its first `=`: the key is what stands before it, the
/// value all that follows it, further `=` included.
pub fn parse_kv_pair(s: &str) -> (r: Result<KvPair, ParseError>)
    ensures
        r is Ok <==> s@.contains('='),
        r matches Ok(p) ==> splits_at_first_eq(s@, p),
        r matches Err(e) ==> e == ParseError::MalformedPair,
{
    let n = s.unicode_len();
    let mut i: usize = 0;
    while i < n
        invariant
            n == s@.len(),
            i <= n,
            forall|j: int| 0 <= j < i ==> s@[j] != '=',
        decreases n - i,
    {
        if s.get_char(i) == '=' {
            let k = String::from_str(s.substring_char(0, i));
            let v = String::from_str(s.substring_char(i + 1, n));
            let p = KvPair { k, v };
            assert(is_first_index(s@, '=', i as int));
            assert(s@.contains('='));
            return Ok(p);
        }
        i = i + 1;
    }
    Err(ParseError::MalformedPair)
}

impl std::str::FromStr for KvPair {
    type Err = ParseError;

    fn from_str(s: &str) -> (r: Result<KvPair, ParseError>)
        ensures
            r is Ok <==> s@.contains('='),
            r matches Ok(p) ==> splits_at_first_eq(s@, p),
            r matches Err(e) ==> e == ParseError::MalformedPair,
    {
        parse_kv_pair(s)
    }
}

} // verus!
