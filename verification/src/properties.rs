//! The property-list parser: a possibly-absent flat array of
//! key/value pairs ending at a zero key becomes a validated pair
//! list. An absent list is empty and valid; a key that appears twice
//! makes the whole list invalid. The raw echo form keeps the exact
//! pre-validated values, terminator included, for creation operations
//! that must store the original array unmodified.

use vstd::prelude::*;

use crate::cl::cl_context_properties;

verus! {

/// The key/value pairs read from the flat array, in order, stopping
/// at the zero key or at the end.
pub open spec fn spec_pairs(s: Seq<cl_context_properties>) -> Seq<
    (cl_context_properties, cl_context_properties),
>
    decreases s.len(),
{
    if s.len() < 2 || s[0] == 0 {
        Seq::empty()
    } else {
        seq![(s[0], s[1])] + spec_pairs(s.skip(2))
    }
}

/// Whether some key appears in two different pairs.
pub open spec fn spec_has_dup_key(ps: Seq<(cl_context_properties, cl_context_properties)>) -> bool {
    exists|i: int, j: int| 0 <= i < j < ps.len() && ps[i].0 == ps[j].0
}

/// What parsing yields: an absent list is empty and valid; a
/// duplicate key invalidates the list.
pub open spec fn spec_parse_props(raw: Option<Seq<cl_context_properties>>) -> Option<
    Seq<(cl_context_properties, cl_context_properties)>,
> {
    match raw {
        None => Some(Seq::empty()),
        Some(s) => if spec_has_dup_key(spec_pairs(s)) {
            None
        } else {
            Some(spec_pairs(s))
        },
    }
}

/// The raw echo of the array: the scanned values as they stood,
/// terminator included; an absent list echoes as nothing.
pub open spec fn spec_raw_echo(raw: Option<Seq<cl_context_properties>>) -> Seq<
    cl_context_properties,
>
    decreases (match raw {
        None => 0,
        Some(s) => s.len() as int + 1,
    }),
{
    match raw {
        None => Seq::empty(),
        Some(s) => if s.len() < 2 || s[0] == 0 {
            seq![0]
        } else {
            seq![s[0], s[1]] + spec_raw_echo(Some(s.skip(2)))
        },
    }
}

/// A validated, ordered property list.
pub struct Properties {
    pub props: Vec<(cl_context_properties, cl_context_properties)>,
}

/// Reads the pairs of the flat array, stopping at the zero key or at
/// the end.
fn scan_pairs(raw: &Vec<cl_context_properties>) -> (r: Vec<
    (cl_context_properties, cl_context_properties),
>)
    ensures
        r@ == spec_pairs(raw@),
{
    let mut pairs: Vec<(cl_context_properties, cl_context_properties)> = Vec::new();
    let mut i: usize = 0;
    proof {
        assert(raw@.skip(0) =~= raw@);
        assert(pairs@ + spec_pairs(raw@) =~= spec_pairs(raw@));
    }
    while i < raw.len() && i + 1 < raw.len() && raw[i] != 0
        invariant
            i <= raw@.len(),
            spec_pairs(raw@) == pairs@ + spec_pairs(raw@.skip(i as int)),
        decreases raw@.len() - i,
    {
        pairs.push((raw[i], raw[i + 1]));
        proof {
            let rest = raw@.skip(i as int);
            assert(rest[0] == raw@[i as int]);
            assert(rest[1] == raw@[i as int + 1]);
            assert(rest.skip(2) =~= raw@.skip(i as int + 2));
            assert(pairs@ + spec_pairs(raw@.skip(i as int + 2)) =~= (pairs@.drop_last()
                + (seq![(rest[0], rest[1])] + spec_pairs(rest.skip(2)))));
        }
        i = i + 2;
    }
    proof {
        assert(spec_pairs(raw@.skip(i as int)) =~= Seq::empty());
        assert(pairs@ =~= pairs@ + Seq::empty());
    }
    pairs
}

impl Properties {
    /// Parses the flat array: an absent array is an empty, valid
    /// list; a duplicate key makes the list invalid.
    pub fn from_raw(raw: Option<&Vec<cl_context_properties>>) -> (r: Option<Properties>)
        ensures
            ({
                match spec_parse_props(
                    match raw {
                        None => None,
                        Some(v) => Some(v@),
                    },
                ) {
                    None => r is None,
                    Some(ps) => r matches Some(p) && p.props@ == ps,
                }
            }),
    {
        let rawv = match raw {
            None => {
                return Some(Properties { props: Vec::new() });
            },
            Some(rawv) => rawv,
        };
        let pairs = scan_pairs(rawv);
        let mut j: usize = 0;
        while j < pairs.len()
            invariant
                j <= pairs@.len(),
                raw == Some(rawv),
                pairs@ == spec_pairs(rawv@),
                forall|a: int, b: int| 0 <= a < j && a < b < pairs@.len() ==> pairs@[a].0 != pairs@[b].0,
            decreases pairs@.len() - j,
        {
            let mut k: usize = j + 1;
            while k < pairs.len()
                invariant
                    j < k <= pairs@.len(),
                    raw == Some(rawv),
                    pairs@ == spec_pairs(rawv@),
                    forall|a: int, b: int|
                        0 <= a < j && a < b < pairs@.len() ==> pairs@[a].0 != pairs@[b].0,
                    forall|b: int| j < b < k ==> pairs@[j as int].0 != pairs@[b].0,
                decreases pairs@.len() - k,
            {
                if pairs[j].0 == pairs[k].0 {
                    proof {
                        assert(spec_has_dup_key(pairs@));
                    }
                    return None;
                }
                k = k + 1;
            }
            j = j + 1;
        }
        proof {
            assert(!spec_has_dup_key(pairs@));
        }
        Some(Properties { props: pairs })
    }

    /// The raw echo form of the array: the values scanned up to and
    /// including the terminator, exactly as supplied.
    pub fn from_raw_echo(raw: Option<&Vec<cl_context_properties>>) -> (r: Vec<
        cl_context_properties,
    >)
        ensures
            r@ == spec_raw_echo(
                match raw {
                    None => None,
                    Some(v) => Some(v@),
                },
            ),
    {
        let rawv = match raw {
            None => {
                return Vec::new();
            },
            Some(rawv) => rawv,
        };
        let mut echo: Vec<cl_context_properties> = Vec::new();
        let mut i: usize = 0;
        proof {
            assert(rawv@.skip(0) =~= rawv@);
            assert(echo@ + spec_raw_echo(Some(rawv@)) =~= spec_raw_echo(Some(rawv@)));
        }
        while i < rawv.len() && i + 1 < rawv.len() && rawv[i] != 0
            invariant
                i <= rawv@.len(),
                raw == Some(rawv),
                spec_raw_echo(Some(rawv@)) == echo@ + spec_raw_echo(Some(rawv@.skip(i as int))),
            decreases rawv@.len() - i,
        {
            echo.push(rawv[i]);
            echo.push(rawv[i + 1]);
            proof {
                let rest = rawv@.skip(i as int);
                assert(rest[0] == rawv@[i as int]);
                assert(rest[1] == rawv@[i as int + 1]);
                assert(rest.skip(2) =~= rawv@.skip(i as int + 2));
                assert(echo@ + spec_raw_echo(Some(rawv@.skip(i as int + 2))) =~= (
                echo@.drop_last().drop_last() + (seq![rest[0], rest[1]] + spec_raw_echo(
                    Some(rest.skip(2)),
                ))));
            }
            i = i + 2;
        }
        echo.push(0);
        proof {
            assert(spec_raw_echo(Some(rawv@.skip(i as int))) =~= seq![0isize]);
            assert(echo@ =~= echo@.drop_last() + seq![0isize]);
        }
        echo
    }
}

} // verus!
