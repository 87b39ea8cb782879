use vstd::prelude::*;
use vstd::multiset::Multiset;
use vstd::seq_lib::{to_multiset_insert, to_multiset_remove};
use vstd::string::{StrSliceExecFns, StringExecFns};
use crate::entities::Extension;
use crate::text::joined;

verus! {

/// What search results can be ordered by.
#[derive(Debug, Clone, Copy, PartialEq, Eq, Structural)]
pub enum SortField {
    Name,
    Downloads,
    Publisher,
}

/// What `str::to_lowercase` makes of `s`.
pub uninterp spec fn lower_of(s: Seq<char>) -> Seq<char>;

/// Relies on `str::to_lowercase`: the result depends on the characters alone.
#[verifier::external_body]
fn lowercase(s: &str) -> (r: String)
    ensures
        r@ == lower_of(s@),
{
    s.to_lowercase()
}

/// The field that a lowercase name stands for.
pub open spec fn field_named(lower: Seq<char>) -> Option<SortField> {
    if lower == "name"@ {
        Some(SortField::Name)
    } else if lower == "downloads"@ {
        Some(SortField::Downloads)
    } else if lower == "publisher"@ {
        Some(SortField::Publisher)
    } else {
        None
    }
}

/// How `a` compares with `b`, character by character: -1 before, 0 equal,
/// 1 after. A proper prefix comes first.
pub open spec fn text_order(a: Seq<char>, b: Seq<char>) -> int
    decreases a.len(),
{
    if a.len() == 0 {
        if b.len() == 0 {
            0
        } else {
            -1
        }
    } else if b.len() == 0 {
        1
    } else if a[0] < b[0] {
        -1
    } else if a[0] > b[0] {
        1
    } else {
        text_order(a.drop_first(), b.drop_first())
    }
}

proof fn lemma_text_order_flips(a: Seq<char>, b: Seq<char>)
    ensures
        text_order(a, b) == -text_order(b, a),
        -1 <= text_order(a, b) <= 1,
    decreases a.len(),
{
    if a.len() > 0 && b.len() > 0 && a[0] == b[0] {
        lemma_text_order_flips(a.drop_first(), b.drop_first());
    }
}

/// How `a` compares with `b` on `field`: names and publishers alphabetically
/// without regard to case, downloads from the most to the fewest.
pub open spec fn key_order(field: SortField, a: Extension, b: Extension) -> int {
    match field {
        SortField::Name => text_order(lower_of(a.display_name@), lower_of(b.display_name@)),
        SortField::Downloads => if b.downloads < a.downloads {
            -1
        } else if b.downloads > a.downloads {
            1
        } else {
            0
        },
        SortField::Publisher => text_order(lower_of(a.publisher@), lower_of(b.publisher@)),
    }
}

/// How `a` compares with `b` on `field`, the other way round when `reverse`.
pub open spec fn result_order(field: SortField, reverse: bool, a: Extension, b: Extension) -> int {
    if reverse {
        -key_order(field, a, b)
    } else {
        key_order(field, a, b)
    }
}

/// Whether no neighbours of `s` are out of order.
pub open spec fn is_ordered(field: SortField, reverse: bool, s: Seq<Extension>) -> bool {
    forall|k: int| 0 <= k < s.len() - 1 ==> #[trigger] result_order(field, reverse, s[k], s[k + 1]) <= 0
}

/// Where `x` goes into the ordered `s`: after the last item that does not
/// come after it, so that it follows every item it compares equal with.
pub open spec fn insertion_point(
    field: SortField,
    reverse: bool,
    s: Seq<Extension>,
    x: Extension,
) -> int
    decreases s.len(),
{
    if s.len() == 0 {
        0
    } else if result_order(field, reverse, s.last(), x) > 0 {
        insertion_point(field, reverse, s.drop_last(), x)
    } else {
        s.len() as int
    }
}

/// `s` ordered on `field`, the other way round when `reverse`, with the
/// items that compare equal in the order they have in `s`: each item in
/// turn goes in after every earlier one that does not come after it.
pub open spec fn stably_sorted(field: SortField, reverse: bool, s: Seq<Extension>) -> Seq<
    Extension,
>
    decreases s.len(),
{
    if s.len() == 0 {
        s
    } else {
        let prior = stably_sorted(field, reverse, s.drop_last());
        prior.insert(insertion_point(field, reverse, prior, s.last()), s.last())
    }
}

/// How `a` compares with `b`, character by character.
pub fn compare_text(a: &str, b: &str) -> (r: i8)
    ensures
        r as int == text_order(a@, b@),
{
    let n = a.unicode_len();
    let m = b.unicode_len();
    let mut i: usize = 0;
    assert(a@.subrange(0, n as int) =~= a@);
    assert(b@.subrange(0, m as int) =~= b@);
    while i < n && i < m
        invariant
            n == a@.len(),
            m == b@.len(),
            i <= n,
            i <= m,
            text_order(a@, b@) == text_order(
                a@.subrange(i as int, n as int),
                b@.subrange(i as int, m as int),
            ),
        decreases n - i,
    {
        let x = a.get_char(i);
        let y = b.get_char(i);
        let ghost ra = a@.subrange(i as int, n as int);
        let ghost rb = b@.subrange(i as int, m as int);
        assert(ra[0] == x && rb[0] == y);
        if x < y {
            return -1;
        }
        if x > y {
            return 1;
        }
        assert(ra.drop_first() =~= a@.subrange(i + 1, n as int));
        assert(rb.drop_first() =~= b@.subrange(i + 1, m as int));
        i = i + 1;
    }
    if i < n {
        1
    } else if i < m {
        -1
    } else {
        0
    }
}

impl SortField {
    /// The field that the lowercase name `lower` stands for.
    pub fn from_lowercase(lower: &str) -> (r: Option<SortField>)
        ensures
            r == field_named(lower@),
    {
        proof {
            reveal_strlit("name");
            reveal_strlit("downloads");
            reveal_strlit("publisher");
        }
        if crate::text::same_text(lower, "name") {
            Some(SortField::Name)
        } else if crate::text::same_text(lower, "downloads") {
            Some(SortField::Downloads)
        } else if crate::text::same_text(lower, "publisher") {
            Some(SortField::Publisher)
        } else {
            None
        }
    }

    /// The field that `s` names, in any case.
    pub fn parse(s: &str) -> (r: Result<SortField, String>)
        ensures
            match r {
                Ok(f) => field_named(lower_of(s@)) == Some(f),
                Err(m) => field_named(lower_of(s@)) is None && m@ == "Invalid sort field: "@ + s@,
            },
    {
        let lower = lowercase(s);
        match SortField::from_lowercase(lower.as_str()) {
            Some(f) => Ok(f),
            None => Err(joined("Invalid sort field: ", s)),
        }
    }

    /// How `a` compares with `b` on this field, the other way round when
    /// `reverse`.
    pub fn compare(&self, a: &Extension, b: &Extension, reverse: bool) -> (r: i8)
        ensures
            r as int == result_order(*self, reverse, *a, *b),
    {
        let key: i8 = match self {
            SortField::Name => {
                let x = lowercase(a.display_name.as_str());
                let y = lowercase(b.display_name.as_str());
                proof {
                    lemma_text_order_flips(x@, y@);
                }
                compare_text(x.as_str(), y.as_str())
            },
            SortField::Downloads => if b.downloads < a.downloads {
                -1
            } else if b.downloads > a.downloads {
                1
            } else {
                0
            },
            SortField::Publisher => {
                let x = lowercase(a.publisher.as_str());
                let y = lowercase(b.publisher.as_str());
                proof {
                    lemma_text_order_flips(x@, y@);
                }
                compare_text(x.as_str(), y.as_str())
            },
        };
        if reverse {
            -key
        } else {
            key
        }
    }

    /// Orders `extensions` by this field, the other way round when
    /// `reverse`; extensions that compare equal keep their order.
    pub fn sort_extensions(&self, extensions: &mut Vec<Extension>, reverse: bool)
        ensures
            final(extensions)@ == stably_sorted(*self, reverse, old(extensions)@),
            final(extensions)@.to_multiset() == old(extensions)@.to_multiset(),
            is_ordered(*self, reverse, final(extensions)@),
    {
        let ghost input = extensions@;
        let mut rest: Vec<Extension> = Vec::new();
        std::mem::swap(extensions, &mut rest);
        let mut out: Vec<Extension> = Vec::new();
        proof {
            broadcast use vstd::multiset::group_multiset_axioms;
            assert(out@.to_multiset() =~= Multiset::empty()) by {
                broadcast use vstd::seq_lib::group_to_multiset_ensures;
            }
        }
        let ghost mut done: int = 0;
        assert(rest@ =~= input.subrange(0, input.len() as int));
        assert(out@ =~= stably_sorted(*self, reverse, input.subrange(0, 0)));
        while rest.len() > 0
            invariant
                0 <= done <= input.len(),
                rest@ == input.subrange(done, input.len() as int),
                out@ == stably_sorted(*self, reverse, input.subrange(0, done)),
                out@.to_multiset().add(rest@.to_multiset()) == input.to_multiset(),
                is_ordered(*self, reverse, out@),
            decreases rest.len(),
        {
            let ghost before_out = out@;
            let ghost before_rest = rest@;
            let x = rest.remove(0);
            let mut p: usize = out.len();
            assert(out@.subrange(0, out@.len() as int) =~= out@);
            while p > 0
                invariant
                    p <= out@.len(),
                    out@ == before_out,
                    p < out@.len() ==> result_order(*self, reverse, out@[p as int], x) > 0,
                    insertion_point(*self, reverse, out@, x) == insertion_point(
                        *self,
                        reverse,
                        out@.subrange(0, p as int),
                        x,
                    ),
                ensures
                    p <= out@.len(),
                    out@ == before_out,
                    p < out@.len() ==> result_order(*self, reverse, out@[p as int], x) > 0,
                    p > 0 ==> result_order(*self, reverse, out@[p - 1], x) <= 0,
                    insertion_point(*self, reverse, out@, x) == p,
                decreases p,
            {
                let ghost prefix = out@.subrange(0, p as int);
                assert(prefix.drop_last() =~= out@.subrange(0, p - 1));
                assert(prefix.last() == out@[p - 1]);
                if self.compare(&out[p - 1], &x, reverse) <= 0 {
                    break;
                }
                p = p - 1;
            }
            proof {
                if p == 0 {
                    assert(out@.subrange(0, 0).len() == 0);
                }
                let taken = input.subrange(0, done + 1);
                assert(taken.drop_last() =~= input.subrange(0, done));
                assert(taken.last() == x);
                assert(before_rest.remove(0) =~= input.subrange(done + 1, input.len() as int));
                done = done + 1;
            }
            proof {
                if p < out@.len() {
                    flip(*self, reverse, out@[p as int], x);
                }
                to_multiset_remove(before_rest, 0);
                assert(before_rest.contains(x));
                vstd::seq_lib::to_multiset_contains(before_rest, x);
                to_multiset_insert(before_out, p as int, x);
            }
            out.insert(p, x);
            proof {
                broadcast use vstd::multiset::group_multiset_axioms;
                let s = out@;
                assert(s == before_out.insert(p as int, x));
                assert forall|k: int| 0 <= k < s.len() - 1 implies #[trigger] result_order(
                    *self,
                    reverse,
                    s[k],
                    s[k + 1],
                ) <= 0 by {
                    if k < p as int - 1 {
                        assert(result_order(*self, reverse, before_out[k], before_out[k + 1]) <= 0);
                    } else if k > p as int {
                        let j = k - 1;
                        assert(result_order(*self, reverse, before_out[j], before_out[j + 1]) <= 0);
                        assert(s[k] == before_out[j] && s[k + 1] == before_out[j + 1]);
                    } else if k == p as int - 1 {
                        assert(s[k] == before_out[k] && s[k + 1] == x);
                    } else {
                        assert(s[k] == x && s[k + 1] == before_out[k]);
                    }
                }
                assert(before_rest.remove(0) == rest@);
                assert(out@.to_multiset().add(rest@.to_multiset()) =~= before_out.to_multiset().add(
                    before_rest.to_multiset(),
                ));
            }
        }
        proof {
            assert(input.subrange(0, done) =~= input);
            broadcast use vstd::seq_lib::group_to_multiset_ensures;
            assert(rest@.to_multiset() =~= Multiset::empty());
            broadcast use vstd::multiset::group_multiset_axioms;
            assert(out@.to_multiset().add(rest@.to_multiset()) =~= out@.to_multiset());
        }
        *extensions = out;
    }
}

impl std::str::FromStr for SortField {
    type Err = String;

    fn from_str(s: &str) -> Result<Self, Self::Err> {
        SortField::parse(s)
    }
}

proof fn flip(field: SortField, reverse: bool, a: Extension, b: Extension)
    ensures
        result_order(field, reverse, a, b) == -result_order(field, reverse, b, a),
{
    lemma_text_order_flips(lower_of(a.display_name@), lower_of(b.display_name@));
    lemma_text_order_flips(lower_of(a.publisher@), lower_of(b.publisher@));
}

} // verus!
