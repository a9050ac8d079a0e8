use vstd::prelude::*;
use crate::model::{ErrorKind, ServiceError};

verus! {

/// The scheme word that opens an `Authorization` header, with its space.
pub open spec fn scheme() -> Seq<char> {
    seq!['B', 'e', 'a', 'r', 'e', 'r', ' ']
}

/// Whether the scheme word occurs in `s` starting at `p`.
pub open spec fn scheme_at(s: Seq<char>, p: int) -> bool {
    0 <= p && p + 7 <= s.len() && s.subrange(p, p + 7) == scheme()
}

/// Whether the scheme word occurs in `s` at `p` and nowhere else.
pub open spec fn only_scheme_at(s: Seq<char>, p: int) -> bool {
    scheme_at(s, p) && forall|q: int| #[trigger] scheme_at(s, q) ==> q == p
}

fn scheme_char(k: usize) -> (c: char)
    requires
        k < 7,
    ensures
        c == scheme()[k as int],
{
    if k == 0 { 'B' } else if k == 1 { 'e' } else if k == 2 { 'a' } else if k == 3 { 'r' } else if k == 4 { 'e' } else if k == 5 { 'r' } else { ' ' }
}

fn matches_scheme(chars: &Vec<char>, p: usize) -> (r: bool)
    requires
        p + 7 <= chars@.len(),
    ensures
        r == scheme_at(chars@, p as int),
{
    let mut k: usize = 0;
    let len = chars.len();
    while k < 7
        invariant
            k <= 7,
            p + 7 <= chars@.len(),
            len == chars@.len(),
            forall|j: int| 0 <= j < k ==> chars@[p + j] == scheme()[j],
        decreases 7 - k,
    {
        if chars[p + k] != scheme_char(k) {
            assert(chars@.subrange(p as int, p + 7)[k as int] != scheme()[k as int]);
            return false;
        }
        k += 1;
    }
    assert(chars@.subrange(p as int, p + 7) =~= scheme());
    true
}

/// The credential of an `Authorization` header: what follows the scheme word
/// `"Bearer "`, which must occur exactly once in the header.
pub fn bearer_token(header: &str) -> (r: Result<String, ServiceError>)
    ensures
        r is Ok <==> exists|p: int| only_scheme_at(header@, p),
        forall|p: int| only_scheme_at(header@, p) && r is Ok
            ==> r->Ok_0@ == header@.subrange(p + 7, header@.len() as int),
        r is Err ==> r->Err_0.kind == ErrorKind::Unauthenticated,
{
    let n = header.unicode_len();
    let mut chars: Vec<char> = Vec::new();
    let mut i: usize = 0;
    while i < n
        invariant
            n == header@.len(),
            i <= n,
            chars@ == header@.subrange(0, i as int),
        decreases n - i,
    {
        chars.push(header.get_char(i));
        i += 1;
        assert(chars@ =~= header@.subrange(0, i as int));
    }
    assert(chars@ =~= header@);
    let mut count: usize = 0;
    let mut first: usize = 0;
    let mut p: usize = 0;
    while p <= n && n - p >= 7
        invariant
            p <= n,
            n == chars@.len(),
            chars@ == header@,
            count <= p,
            count == 0 ==> forall|q: int| 0 <= q < p ==> !scheme_at(chars@, q),
            count >= 1 ==> scheme_at(chars@, first as int) && first < p,
            count == 1 ==> forall|q: int| 0 <= q < p && q != first ==> !scheme_at(chars@, q),
            count >= 2 ==> exists|q: int| q != first && scheme_at(chars@, q),
        decreases n + 1 - p,
    {
        if matches_scheme(&chars, p) {
            if count == 0 {
                first = p;
            } else {
                assert(scheme_at(chars@, p as int) && p as int != first as int);
            }
            count += 1;
        }
        p += 1;
    }
    if count == 1 {
        assert forall|q: int| #[trigger] scheme_at(header@, q) implies q == first as int by {
            if q >= p {
                assert(q + 7 > n || p > n);
            }
        }
        assert(only_scheme_at(header@, first as int));
        let rest = header.substring_char(first + 7, n);
        let token = rest.to_string();
        proof {
            assert forall|p2: int| only_scheme_at(header@, p2) implies p2 == first as int by {}
        }
        Ok(token)
    } else {
        proof {
            assert forall|p2: int| !only_scheme_at(header@, p2) by {
                if only_scheme_at(header@, p2) {
                    if count == 0 {
                        if p2 < p {} else { assert(p2 + 7 > n || p > n); }
                    } else {
                        let q = choose|q: int| q != first && scheme_at(chars@, q);
                        assert(q == p2);
                        assert(first as int == p2);
                    }
                }
            }
        }
        Err(ServiceError::new(ErrorKind::Unauthenticated, String::from_str("access denied")))
    }
}

} // verus!
