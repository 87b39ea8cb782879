use vstd::prelude::*;
use vstd::string::{StrSliceExecFns, StringExecFns};
use crate::errors::{DomainError, ErrorKind, ErrorView};

verus! {

/// How many separators (`.`) `s` holds.
pub open spec fn dot_count(s: Seq<char>) -> nat
    decreases s.len(),
{
    if s.len() == 0 {
        0
    } else {
        dot_count(s.drop_last()) + if s.last() == '.' {
            1nat
        } else {
            0nat
        }
    }
}

/// Whether `s` holds no separator.
pub open spec fn dot_free(s: Seq<char>) -> bool {
    forall|i: int| 0 <= i < s.len() ==> #[trigger] s[i] != '.'
}

/// An extension identifier is `publisher.name`: exactly one separator, with
/// something on either side of it.
pub open spec fn is_valid_extension_id(s: Seq<char>) -> bool {
    &&& dot_count(s) == 1
    &&& s[0] != '.'
    &&& s.last() != '.'
}

/// The detail of the error for a malformed identifier.
pub open spec fn id_format_message() -> Seq<char> {
    "Extension ID must be in format 'publisher.name'"@
}

/// Whether `id` is a well-formed extension identifier.
pub fn is_valid_id(id: &str) -> (r: bool)
    ensures
        r == is_valid_extension_id(id@),
{
    let n = id.unicode_len();
    let mut dots: usize = 0;
    let mut i: usize = 0;
    while i < n
        invariant
            n == id@.len(),
            i <= n,
            dots == dot_count(id@.subrange(0, i as int)),
            dots <= i,
        decreases n - i,
    {
        assert(id@.subrange(0, i + 1).drop_last() =~= id@.subrange(0, i as int));
        if id.get_char(i) == '.' {
            dots = dots + 1;
        }
        i = i + 1;
    }
    assert(id@ =~= id@.subrange(0, n as int));
    dots == 1 && id.get_char(0) != '.' && id.get_char(n - 1) != '.'
}

/// Checks that `id` is a well-formed extension identifier.
pub fn validate_extension_id(id: &str) -> (r: Result<(), DomainError>)
    ensures
        r is Ok <==> is_valid_extension_id(id@),
        r is Err ==> r->Err_0@ == (ErrorView { kind: ErrorKind::InvalidFormat, detail: id_format_message() }),
{
    if is_valid_id(id) {
        Ok(())
    } else {
        Err(DomainError::InvalidExtensionFormat(
            String::from_str("Extension ID must be in format 'publisher.name'"),
        ))
    }
}

proof fn lemma_dot_count_concat(a: Seq<char>, b: Seq<char>)
    ensures
        dot_count(a + b) == dot_count(a) + dot_count(b),
    decreases b.len(),
{
    if b.len() == 0 {
        assert(a + b =~= a);
    } else {
        assert((a + b).drop_last() =~= a + b.drop_last());
        lemma_dot_count_concat(a, b.drop_last());
    }
}

proof fn lemma_dot_free_count(s: Seq<char>)
    ensures
        dot_free(s) <==> dot_count(s) == 0,
    decreases s.len(),
{
    if s.len() > 0 {
        lemma_dot_free_count(s.drop_last());
        if dot_free(s) {
            assert(dot_free(s.drop_last()));
        } else if dot_count(s) == 0 {
            assert(dot_free(s.drop_last()));
            assert forall|i: int| 0 <= i < s.len() implies #[trigger] s[i] != '.' by {
                if i < s.len() - 1 {
                    assert(s.drop_last()[i] == s[i]);
                }
            }
        }
    }
}

proof fn lemma_split_at_dot(s: Seq<char>) -> (k: int)
    requires
        dot_count(s) >= 1,
    ensures
        0 <= k < s.len(),
        s[k] == '.',
        dot_count(s.subrange(k + 1, s.len() as int)) == 0,
    decreases s.len(),
{
    if s.last() == '.' {
        assert(s.subrange(s.len() as int, s.len() as int).len() == 0);
        s.len() - 1
    } else {
        let k = lemma_split_at_dot(s.drop_last());
        let rest = s.subrange(k + 1, s.len() as int);
        assert(rest.drop_last() =~= s.drop_last().subrange(k + 1, s.len() - 1));
        k
    }
}

/// A string is a valid identifier exactly when it is a publisher, a
/// separator and a name, where publisher and name are non-empty and hold no
/// separator.
pub proof fn valid_identifier_is_publisher_dot_name(s: Seq<char>)
    ensures
        is_valid_extension_id(s) <==> exists|p: Seq<char>, n: Seq<char>|
            {
                &&& p.len() > 0
                &&& n.len() > 0
                &&& dot_free(p)
                &&& dot_free(n)
                &&& s == p + seq!['.'] + n
            },
{
    reveal_with_fuel(dot_count, 2);
    if is_valid_extension_id(s) {
        let k = lemma_split_at_dot(s);
        let p = s.subrange(0, k);
        let n = s.subrange(k + 1, s.len() as int);
        assert(s =~= p + seq!['.'] + n);
        lemma_dot_count_concat(p + seq!['.'], n);
        lemma_dot_count_concat(p, seq!['.']);
        assert(seq!['.'].drop_last() =~= Seq::<char>::empty());
        lemma_dot_free_count(p);
        lemma_dot_free_count(n);
        assert(p.len() > 0) by {
            if k == 0 {
                assert(s[0] == '.');
            }
        }
        assert(n.len() > 0) by {
            if k == s.len() - 1 {
                assert(s.last() == '.');
            }
        }
    }
    if exists|p: Seq<char>, n: Seq<char>|
        {
            &&& p.len() > 0
            &&& n.len() > 0
            &&& dot_free(p)
            &&& dot_free(n)
            &&& s == p + seq!['.'] + n
        } {
        let (p, n) = choose|p: Seq<char>, n: Seq<char>|
            {
                &&& p.len() > 0
                &&& n.len() > 0
                &&& dot_free(p)
                &&& dot_free(n)
                &&& s == p + seq!['.'] + n
            };
        lemma_dot_count_concat(p + seq!['.'], n);
        lemma_dot_count_concat(p, seq!['.']);
        assert(seq!['.'].drop_last() =~= Seq::<char>::empty());
        lemma_dot_free_count(p);
        lemma_dot_free_count(n);
        assert(s[0] == p[0]);
        assert(s.last() == n.last());
    }
}

} // verus!
